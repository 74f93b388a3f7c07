//! The entry points of the deployer and the steps of a deployment.
use vstd::prelude::*;

use crate::msg::{
    actions_view, addrs_view, copy_members, members_view, Action, ActionView, ContractError, DeployMsg,
    DeployView, ExecuteMsg, GetListOfWalletResponse, Member, QueryMsg, Step, MULTISIG_CODE_ID,
    REGISTRY_CODE_ID,
};
use crate::reply_data::{contract_address_of, instantiated_address};
use crate::state::{entry_of, fan_out, lemma_fan_out_next, Store};

verus! {

/// The message that creates the registry of `req`, administered by `admin`.
pub open spec fn registry_request(admin: Seq<char>, req: DeployView) -> ActionView {
    ActionView::InstantiateRegistry {
        code_id: REGISTRY_CODE_ID,
        admin: admin,
        members: req.members,
        reply_on_success: Step::RegistryCreated,
    }
}

/// The message that creates the multisig of `req` over `registry`.
pub open spec fn multisig_request(registry: Seq<char>, req: DeployView) -> ActionView {
    ActionView::InstantiateMultisig {
        code_id: MULTISIG_CODE_ID,
        registry: registry,
        threshold_weight: req.threshold_weight,
        max_voting_period: req.max_voting_period,
        reply_on_success: Step::MultisigCreated,
    }
}

/// The messages that hand `registry` over to `multisig`.
pub open spec fn finalization(registry: Seq<char>, multisig: Seq<char>) -> Seq<ActionView> {
    seq![
        ActionView::AddHook { registry: registry, hook: multisig },
        ActionView::UpdateAdmin { registry: registry, admin: multisig },
    ]
}

/// The addresses of a list of members, in order.
pub open spec fn member_addrs(members: Seq<(Seq<char>, u64)>) -> Seq<Seq<char>> {
    members.map_values(|m: (Seq<char>, u64)| m.0)
}

/// The abstract value of an optional address.
pub open spec fn opt_view(a: Option<String>) -> Option<Seq<char>> {
    match a {
        Some(s) => Some(s@),
        None => None,
    }
}

/// The address that a reply with payload `data` reports.
pub open spec fn reply_address(data: Option<Vec<u8>>) -> Option<Seq<char>> {
    match data {
        Some(d) => instantiated_address(d@),
        None => None,
    }
}

/// What the registry step does, from `before` to `after`, given the address
/// of the new registry (`None` where the reply reported none).
pub open spec fn registry_step(
    before: Store,
    after: Store,
    created: Option<Seq<char>>,
    r: Result<Vec<Action>, ContractError>,
) -> bool {
    match created {
        None => r == Err::<Vec<Action>, ContractError>(
            ContractError::Data { step: Step::RegistryCreated },
        ) && after == before,
        Some(registry) => match before.pending_request {
            None => r == Err::<Vec<Action>, ContractError>(ContractError::DeployData) && after
                == before,
            Some(req) => {
                &&& r matches Ok(acts) && actions_view(acts@) == seq![
                    multisig_request(registry, req@),
                ]
                &&& after.registry_identity matches Some(saved) && saved@ == registry
                &&& after.pending_request == before.pending_request
                &&& after.wallet_index == before.wallet_index
            },
        },
    }
}

/// What the multisig step does, from `before` to `after`, given the address
/// of the new multisig (`None` where the reply reported none).
pub open spec fn multisig_step(
    before: Store,
    after: Store,
    created: Option<Seq<char>>,
    r: Result<Vec<Action>, ContractError>,
) -> bool {
    match created {
        None => r == Err::<Vec<Action>, ContractError>(
            ContractError::Data { step: Step::MultisigCreated },
        ) && after == before,
        Some(multisig) => match before.registry_identity {
            None => r == Err::<Vec<Action>, ContractError>(ContractError::RegistryNotFound)
                && after == before,
            Some(registry) => match before.pending_request {
                None => r == Err::<Vec<Action>, ContractError>(ContractError::DeployData) && after
                    == before,
                Some(req) => {
                    &&& r matches Ok(acts) && actions_view(acts@) == finalization(
                        registry@,
                        multisig,
                    )
                    &&& after.wallet_index.map() == fan_out(
                        before.wallet_index.map(),
                        member_addrs(req@.members),
                        multisig,
                    )
                    &&& after.pending_request == before.pending_request
                    &&& after.registry_identity == before.registry_identity
                },
            },
        },
    }
}

/// The multisig is only ever requested over a registry whose address the
/// same step has saved: a successful registry step asks for exactly one
/// multisig, bound to the registry address now on file.
pub proof fn lemma_multisig_request_uses_saved_registry(
    before: Store,
    after: Store,
    created: Option<Seq<char>>,
    r: Result<Vec<Action>, ContractError>,
)
    requires
        registry_step(before, after, created, r),
        r is Ok,
    ensures
        after.registry_identity is Some,
        actions_view(r->Ok_0@).len() == 1,
        actions_view(r->Ok_0@)[0] matches ActionView::InstantiateMultisig { registry, .. }
            && registry == after.registry_identity->Some_0@,
{
}

/// A completed deployment adds the new multisig exactly once to the wallets
/// of each member it names, however often the request lists that member, and
/// leaves every other address as it was.
pub proof fn lemma_fan_out_complete(
    before: Store,
    after: Store,
    created: Option<Seq<char>>,
    r: Result<Vec<Action>, ContractError>,
)
    requires
        multisig_step(before, after, created, r),
        r is Ok,
    ensures
        forall|k: Seq<char>| #[trigger]
            member_addrs(before.pending_request->Some_0@.members).contains(k)
                ==> after.wallet_index.map().contains_key(k) && after.wallet_index.map()[k]
                == entry_of(before.wallet_index.map(), k).push(created->Some_0),
        forall|k: Seq<char>|
            !member_addrs(before.pending_request->Some_0@.members).contains(k) ==> (
            #[trigger] after.wallet_index.map().contains_key(k)
                == before.wallet_index.map().contains_key(k)) && entry_of(
                after.wallet_index.map(),
                k,
            ) == entry_of(before.wallet_index.map(), k),
{
}

/// Runs a command.
pub fn execute(store: &mut Store, contract_address: String, msg: ExecuteMsg) -> (r: Vec<Action>)
    requires
        old(store).wf(),
    ensures
        final(store).wf(),
        match msg {
            ExecuteMsg::Deployer(req) => {
                &&& final(store).pending_request == Some(req)
                &&& final(store).registry_identity == old(store).registry_identity
                &&& final(store).wallet_index == old(store).wallet_index
                &&& actions_view(r@) == seq![registry_request(contract_address@, req@)]
            },
        },
{
    match msg {
        ExecuteMsg::Deployer(deploy_msg) => execute_deployer(store, contract_address, deploy_msg),
    }
}

/// Starts a deployment: files `deploy_msg`, replacing any request on file, and
/// asks for a registry of its members administered by `contract_address`.
pub fn execute_deployer(store: &mut Store, contract_address: String, deploy_msg: DeployMsg) -> (r:
    Vec<Action>)
    requires
        old(store).wf(),
    ensures
        final(store).wf(),
        final(store).pending_request == Some(deploy_msg),
        final(store).registry_identity == old(store).registry_identity,
        final(store).wallet_index == old(store).wallet_index,
        actions_view(r@) == seq![registry_request(contract_address@, deploy_msg@)],
{
    let members = copy_members(&deploy_msg.members);
    let ghost req = deploy_msg;
    store.pending_request = Some(deploy_msg);
    let mut actions: Vec<Action> = Vec::new();
    actions.push(
        Action::InstantiateRegistry {
            code_id: REGISTRY_CODE_ID,
            admin: contract_address,
            members,
            reply_on_success: Step::RegistryCreated,
        },
    );
    assert(actions_view(actions@) =~= seq![registry_request(contract_address@, req@)]);
    actions
}

/// Answers a query.
pub fn query(store: &Store, msg: QueryMsg) -> (r: Result<GetListOfWalletResponse, ContractError>)
    requires
        store.wf(),
    ensures
        match msg {
            QueryMsg::GetListOfWallet { user_address } => wallets_answer(
                store,
                user_address@,
                r,
            ),
        },
{
    match msg {
        QueryMsg::GetListOfWallet { user_address } => get_list_wallet(store, user_address),
    }
}

/// The answer owed to a query for the wallets of `user`.
pub open spec fn wallets_answer(
    store: &Store,
    user: Seq<char>,
    r: Result<GetListOfWalletResponse, ContractError>,
) -> bool {
    if store.wallet_index.map().contains_key(user) {
        r matches Ok(resp) && addrs_view(resp.wallets@) == store.wallet_index.map()[user]
    } else {
        r matches Err(ContractError::NotFound { address }) && address@ == user
    }
}

/// The multisig wallets that `user_address` belongs to; an address that no
/// deployment named has no entry, which is an error and not an empty list.
pub fn get_list_wallet(store: &Store, user_address: String) -> (r: Result<
    GetListOfWalletResponse,
    ContractError,
>)
    requires
        store.wf(),
    ensures
        wallets_answer(store, user_address@, r),
{
    match store.wallet_index.get(&user_address) {
        Some(wallets) => Ok(GetListOfWalletResponse { wallets: crate::msg::copy_addrs(wallets) }),
        None => Err(ContractError::NotFound { address: user_address }),
    }
}

/// Resumes a deployment on the reply with identifier `id`, whose payload is
/// `data`. An identifier of no step is refused and changes nothing.
pub fn reply(store: &mut Store, id: u64, data: Option<Vec<u8>>) -> (r: Result<
    Vec<Action>,
    ContractError,
>)
    requires
        old(store).wf(),
    ensures
        final(store).wf(),
        match Step::spec_from_tag(id) {
            Some(Step::RegistryCreated) => registry_step(
                *old(store),
                *final(store),
                reply_address(data),
                r,
            ),
            Some(Step::MultisigCreated) => multisig_step(
                *old(store),
                *final(store),
                reply_address(data),
                r,
            ),
            None => r == Err::<Vec<Action>, ContractError>(ContractError::UnknownStep { id })
                && *final(store) == *old(store),
        },
        r is Err ==> *final(store) == *old(store),
{
    match Step::from_tag(id) {
        Some(Step::RegistryCreated) => handle_instantiate_cw4_reply(store, data),
        Some(Step::MultisigCreated) => handle_instantiate_cw3_flex_multisig(store, data),
        None => Err(ContractError::UnknownStep { id }),
    }
}

/// The reply to the creation of the registry.
pub fn handle_instantiate_cw4_reply(store: &mut Store, data: Option<Vec<u8>>) -> (r: Result<
    Vec<Action>,
    ContractError,
>)
    requires
        old(store).wf(),
    ensures
        final(store).wf(),
        registry_step(*old(store), *final(store), reply_address(data), r),
{
    let created = contract_address_of(&data);
    registry_created(store, created)
}

/// The reply to the creation of the multisig.
pub fn handle_instantiate_cw3_flex_multisig(store: &mut Store, data: Option<Vec<u8>>) -> (r:
    Result<Vec<Action>, ContractError>)
    requires
        old(store).wf(),
    ensures
        final(store).wf(),
        multisig_step(*old(store), *final(store), reply_address(data), r),
{
    let created = contract_address_of(&data);
    multisig_created(store, created)
}

/// Records the new registry `created` and asks for a multisig over it, with
/// the threshold and voting period of the request on file.
pub fn registry_created(store: &mut Store, created: Option<String>) -> (r: Result<
    Vec<Action>,
    ContractError,
>)
    requires
        old(store).wf(),
    ensures
        final(store).wf(),
        registry_step(*old(store), *final(store), opt_view(created), r),
        r matches Ok(acts) ==> acts@.len() == 1 && (acts@[0] matches Action::InstantiateMultisig {
            registry,
            ..
        } && final(store).registry_identity == Some(registry)),
{
    let registry = match created {
        Some(a) => a,
        None => {
            return Err(ContractError::Data { step: Step::RegistryCreated });
        },
    };
    let (threshold_weight, max_voting_period) = match &store.pending_request {
        Some(req) => (req.threshold_weight, req.max_voting_period),
        None => {
            return Err(ContractError::DeployData);
        },
    };
    store.registry_identity = Some(registry.clone());
    let mut actions: Vec<Action> = Vec::new();
    actions.push(
        Action::InstantiateMultisig {
            code_id: MULTISIG_CODE_ID,
            registry,
            threshold_weight,
            max_voting_period,
            reply_on_success: Step::MultisigCreated,
        },
    );
    assert(actions_view(actions@) =~= seq![
        multisig_request(registry@, store.pending_request->Some_0@),
    ]);
    Ok(actions)
}

/// Whether the address `addr` is that of one of the first `i` members.
fn listed_before(members: &Vec<Member>, i: usize, addr: &String) -> (r: bool)
    requires
        i <= members@.len(),
    ensures
        r == member_addrs(members_view(members@)).take(i as int).contains(addr@),
{
    let ghost listed = member_addrs(members_view(members@)).take(i as int);
    let mut j: usize = 0;
    while j < i
        invariant
            i <= members@.len(),
            j <= i,
            listed == member_addrs(members_view(members@)).take(i as int),
            forall|t: int| 0 <= t < j ==> #[trigger] listed[t] != addr@,
        decreases i - j,
    {
        if members[j].addr == *addr {
            assert(listed[j as int] == addr@);
            return true;
        }
        j = j + 1;
    }
    assert(!listed.contains(addr@)) by {
        if listed.contains(addr@) {
            let t = choose|t: int| 0 <= t < listed.len() && listed[t] == addr@;
            assert(listed[t] != addr@);
        }
    }
    false
}

/// Adds the new multisig `created` once to the wallets of each member of the
/// request on file, however often the request lists that member, and hands
/// the registry over to it.
pub fn multisig_created(store: &mut Store, created: Option<String>) -> (r: Result<
    Vec<Action>,
    ContractError,
>)
    requires
        old(store).wf(),
    ensures
        final(store).wf(),
        multisig_step(*old(store), *final(store), opt_view(created), r),
        r is Err ==> *final(store) == *old(store),
{
    let multisig = match created {
        Some(a) => a,
        None => {
            return Err(ContractError::Data { step: Step::MultisigCreated });
        },
    };
    let registry = match &store.registry_identity {
        Some(g) => g.clone(),
        None => {
            return Err(ContractError::RegistryNotFound);
        },
    };
    let n = match &store.pending_request {
        Some(req) => req.members.len(),
        None => {
            return Err(ContractError::DeployData);
        },
    };
    let ghost addrs = member_addrs(store.pending_request->Some_0@.members);
    let mut i: usize = 0;
    while i < n
        invariant
            store.pending_request == old(store).pending_request,
            store.registry_identity == old(store).registry_identity,
            store.pending_request is Some,
            n == store.pending_request->Some_0.members@.len(),
            addrs == member_addrs(store.pending_request->Some_0@.members),
            i <= n,
            store.wallet_index.wf(),
            store.wallet_index.map() == fan_out(
                old(store).wallet_index.map(),
                addrs.take(i as int),
                multisig@,
            ),
        decreases n - i,
    {
        let members = &store.pending_request.as_ref().unwrap().members;
        let addr = members[i].addr.clone();
        let repeat = listed_before(members, i, &addr);
        proof {
            lemma_fan_out_next(old(store).wallet_index.map(), addrs, i as int, multisig@);
        }
        if !repeat {
            store.wallet_index.append(&addr, multisig.clone());
        }
        i = i + 1;
    }
    assert(addrs.take(n as int) =~= addrs);
    let mut actions: Vec<Action> = Vec::new();
    actions.push(Action::AddHook { registry: registry.clone(), hook: multisig.clone() });
    actions.push(Action::UpdateAdmin { registry, admin: multisig });
    assert(actions_view(actions@) =~= finalization(
        store.registry_identity->Some_0@,
        opt_view(created)->Some_0,
    ));
    Ok(actions)
}

} // verus!
