//! Messages accepted and produced by the deployer.
use vstd::prelude::*;

verus! {

/// Code identifier of the membership registry that a deployment instantiates.
pub const REGISTRY_CODE_ID: u64 = 3035;

/// Code identifier of the multisig that a deployment instantiates.
pub const MULTISIG_CODE_ID: u64 = 3036;

/// One member of a group: an address and its voting weight.
#[derive(Debug)]
pub struct Member {
    pub addr: String,
    pub weight: u64,
}

impl View for Member {
    type V = (Seq<char>, u64);

    open spec fn view(&self) -> (Seq<char>, u64) {
        (self.addr@, self.weight)
    }
}

impl Member {
    /// A member with the same address and weight.
    pub fn duplicate(&self) -> (r: Member)
        ensures
            r@ == self@,
    {
        Member { addr: self.addr.clone(), weight: self.weight }
    }
}

/// The abstract value of a list of members.
pub open spec fn members_view(v: Seq<Member>) -> Seq<(Seq<char>, u64)> {
    v.map_values(|m: Member| m@)
}

/// A copy of a list of members, in the same order.
pub fn copy_members(v: &Vec<Member>) -> (r: Vec<Member>)
    ensures
        members_view(r@) == members_view(v@),
{
    let mut r: Vec<Member> = Vec::new();
    let mut i: usize = 0;
    while i < v.len()
        invariant
            i <= v@.len(),
            r@.len() == i,
            forall|j: int| 0 <= j < i ==> #[trigger] r@[j]@ == v@[j]@,
        decreases v@.len() - i,
    {
        r.push(v[i].duplicate());
        i = i + 1;
    }
    assert(members_view(r@) =~= members_view(v@));
    r
}

/// A request to deploy a group and its multisig.
#[derive(Debug)]
pub struct DeployMsg {
    pub members: Vec<Member>,
    /// Absolute weight of the votes that a proposal needs to pass.
    pub threshold_weight: u64,
    /// Longest voting period of a proposal, in seconds.
    pub max_voting_period: u64,
}

/// The abstract value of a deployment request.
pub struct DeployView {
    pub members: Seq<(Seq<char>, u64)>,
    pub threshold_weight: u64,
    pub max_voting_period: u64,
}

impl View for DeployMsg {
    type V = DeployView;

    open spec fn view(&self) -> DeployView {
        DeployView {
            members: members_view(self.members@),
            threshold_weight: self.threshold_weight,
            max_voting_period: self.max_voting_period,
        }
    }
}

/// The commands that the deployer executes.
#[derive(Debug)]
pub enum ExecuteMsg {
    Deployer(DeployMsg),
}

/// The queries that the deployer answers.
#[derive(Debug)]
pub enum QueryMsg {
    GetListOfWallet { user_address: String },
}

/// The multisig wallets that a member belongs to, oldest first.
#[derive(Debug)]
pub struct GetListOfWalletResponse {
    pub wallets: Vec<String>,
}

/// The abstract value of a list of addresses.
pub open spec fn addrs_view(v: Seq<String>) -> Seq<Seq<char>> {
    v.map_values(|s: String| s@)
}

/// A copy of a list of addresses, in the same order.
pub fn copy_addrs(v: &Vec<String>) -> (r: Vec<String>)
    ensures
        addrs_view(r@) == addrs_view(v@),
{
    let mut r: Vec<String> = Vec::new();
    let mut i: usize = 0;
    while i < v.len()
        invariant
            i <= v@.len(),
            r@.len() == i,
            forall|j: int| 0 <= j < i ==> #[trigger] r@[j]@ == v@[j]@,
        decreases v@.len() - i,
    {
        r.push(v[i].clone());
        i = i + 1;
    }
    assert(addrs_view(r@) =~= addrs_view(v@));
    r
}

/// The step of a deployment whose completion a reply reports.
#[derive(Debug, Clone, Copy, PartialEq, Eq, Structural)]
pub enum Step {
    /// The membership registry was instantiated.
    RegistryCreated,
    /// The multisig was instantiated.
    MultisigCreated,
}

impl Step {
    /// The numeric reply identifier of a step.
    pub open spec fn spec_tag(self) -> u64 {
        match self {
            Step::RegistryCreated => 1,
            Step::MultisigCreated => 2,
        }
    }

    /// The step whose reply identifier is `id`, if any.
    pub open spec fn spec_from_tag(id: u64) -> Option<Step> {
        if id == 1 {
            Some(Step::RegistryCreated)
        } else if id == 2 {
            Some(Step::MultisigCreated)
        } else {
            None
        }
    }

    #[verifier::when_used_as_spec(spec_tag)]
    pub fn tag(self) -> (r: u64)
        ensures
            r == self.spec_tag(),
    {
        match self {
            Step::RegistryCreated => 1,
            Step::MultisigCreated => 2,
        }
    }

    pub fn from_tag(id: u64) -> (r: Option<Step>)
        ensures
            r == Step::spec_from_tag(id),
            r matches Some(s) ==> s.spec_tag() == id,
    {
        if id == 1 {
            Some(Step::RegistryCreated)
        } else if id == 2 {
            Some(Step::MultisigCreated)
        } else {
            None
        }
    }
}

/// A message that the deployer asks the host to send.
#[derive(Debug)]
pub enum Action {
    /// Instantiate a membership registry administered by `admin`, and reply
    /// with `reply_on_success` once it exists.
    InstantiateRegistry { code_id: u64, admin: String, members: Vec<Member>, reply_on_success: Step },
    /// Instantiate a multisig over the registry `registry`, and reply with
    /// `reply_on_success` once it exists.
    InstantiateMultisig {
        code_id: u64,
        registry: String,
        threshold_weight: u64,
        max_voting_period: u64,
        reply_on_success: Step,
    },
    /// Register `hook` as a listener of membership changes of `registry`.
    AddHook { registry: String, hook: String },
    /// Make `admin` the administrator of `registry`.
    UpdateAdmin { registry: String, admin: String },
}

/// The abstract value of an outbound message.
pub enum ActionView {
    InstantiateRegistry {
        code_id: u64,
        admin: Seq<char>,
        members: Seq<(Seq<char>, u64)>,
        reply_on_success: Step,
    },
    InstantiateMultisig {
        code_id: u64,
        registry: Seq<char>,
        threshold_weight: u64,
        max_voting_period: u64,
        reply_on_success: Step,
    },
    AddHook { registry: Seq<char>, hook: Seq<char> },
    UpdateAdmin { registry: Seq<char>, admin: Seq<char> },
}

impl View for Action {
    type V = ActionView;

    open spec fn view(&self) -> ActionView {
        match self {
            Action::InstantiateRegistry { code_id, admin, members, reply_on_success } =>
                ActionView::InstantiateRegistry {
                    code_id: *code_id,
                    admin: admin@,
                    members: members_view(members@),
                    reply_on_success: *reply_on_success,
                },
            Action::InstantiateMultisig {
                code_id,
                registry,
                threshold_weight,
                max_voting_period,
                reply_on_success,
            } => ActionView::InstantiateMultisig {
                code_id: *code_id,
                registry: registry@,
                threshold_weight: *threshold_weight,
                max_voting_period: *max_voting_period,
                reply_on_success: *reply_on_success,
            },
            Action::AddHook { registry, hook } => ActionView::AddHook {
                registry: registry@,
                hook: hook@,
            },
            Action::UpdateAdmin { registry, admin } => ActionView::UpdateAdmin {
                registry: registry@,
                admin: admin@,
            },
        }
    }
}

/// The abstract value of a list of outbound messages.
pub open spec fn actions_view(v: Seq<Action>) -> Seq<ActionView> {
    v.map_values(|a: Action| a@)
}

/// Why an entry point failed. Every failure aborts the whole invocation.
#[derive(Debug)]
pub enum ContractError {
    /// A message could not be encoded or decoded.
    Encoding,
    /// A reply did not carry the address of an instantiated contract.
    Data { step: Step },
    /// No deployment request was on file.
    DeployData,
    /// No registry address was on file.
    RegistryNotFound,
    /// A member's list of wallets could not be written.
    WalletUpdate { address: String },
    /// A reply carried an identifier of no known step.
    UnknownStep { id: u64 },
    /// No list of wallets is on file for the address.
    NotFound { address: String },
}

} // verus!
