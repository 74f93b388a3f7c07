use deployer::{
    execute, execute_deployer, get_list_wallet, handle_instantiate_cw3_flex_multisig,
    handle_instantiate_cw4_reply, multisig_created, query, registry_created, reply, Action,
    ContractError, DeployMsg, ExecuteMsg, Member, QueryMsg, Step, Store, MULTISIG_CODE_ID,
    REGISTRY_CODE_ID,
};

const SELF_ADDR: &str = "deployer_contract";

/// Encodes an instantiation response carrying `address`, as the host does.
fn instantiate_reply(address: &str) -> Option<Vec<u8>> {
    let mut data = vec![0x0a, address.len() as u8];
    data.extend_from_slice(address.as_bytes());
    Some(data)
}

fn member(addr: &str, weight: u64) -> Member {
    Member { addr: addr.to_string(), weight }
}

fn request(members: &[(&str, u64)], threshold_weight: u64, max_voting_period: u64) -> DeployMsg {
    DeployMsg {
        members: members.iter().map(|(a, w)| member(a, *w)).collect(),
        threshold_weight,
        max_voting_period,
    }
}

fn wallets(store: &Store, addr: &str) -> Result<Vec<String>, ContractError> {
    get_list_wallet(store, addr.to_string()).map(|r| r.wallets)
}

/// Runs a whole deployment, checking nothing, and returns the final actions.
fn deploy(store: &mut Store, members: &[(&str, u64)], registry: &str, multisig: &str) -> Vec<Action> {
    execute_deployer(store, SELF_ADDR.to_string(), request(members, 1, 60));
    reply(store, 1, instantiate_reply(registry)).unwrap();
    reply(store, 2, instantiate_reply(multisig)).unwrap()
}

fn deploy_two_members(store: &mut Store) {
    let actions = execute_deployer(
        store,
        SELF_ADDR.to_string(),
        request(&[("addr1", 1), ("addr2", 1)], 2, 86400),
    );
    assert_eq!(actions.len(), 1);
    match &actions[0] {
        Action::InstantiateRegistry { code_id, admin, members, reply_on_success } => {
            assert_eq!(*code_id, REGISTRY_CODE_ID);
            assert_eq!(admin, SELF_ADDR);
            assert_eq!(members.len(), 2);
            assert_eq!(members[0].addr, "addr1");
            assert_eq!(members[0].weight, 1);
            assert_eq!(members[1].addr, "addr2");
            assert_eq!(members[1].weight, 1);
            assert_eq!(*reply_on_success, Step::RegistryCreated);
            assert_eq!(reply_on_success.tag(), 1);
        }
        other => panic!("unexpected action {:?}", other),
    }

    let actions = reply(store, 1, instantiate_reply("reg1")).unwrap();
    assert_eq!(store.registry_identity.as_deref(), Some("reg1"));
    assert_eq!(actions.len(), 1);
    match &actions[0] {
        Action::InstantiateMultisig {
            code_id,
            registry,
            threshold_weight,
            max_voting_period,
            reply_on_success,
        } => {
            assert_eq!(*code_id, MULTISIG_CODE_ID);
            assert_eq!(registry, "reg1");
            assert_eq!(*threshold_weight, 2);
            assert_eq!(*max_voting_period, 86400);
            assert_eq!(reply_on_success.tag(), 2);
        }
        other => panic!("unexpected action {:?}", other),
    }

    let actions = reply(store, 2, instantiate_reply("gov1")).unwrap();
    assert_eq!(wallets(store, "addr1").unwrap(), vec!["gov1".to_string()]);
    assert_eq!(wallets(store, "addr2").unwrap(), vec!["gov1".to_string()]);
    assert_eq!(actions.len(), 2);
    match &actions[0] {
        Action::AddHook { registry, hook } => {
            assert_eq!(registry, "reg1");
            assert_eq!(hook, "gov1");
        }
        other => panic!("unexpected action {:?}", other),
    }
    match &actions[1] {
        Action::UpdateAdmin { registry, admin } => {
            assert_eq!(registry, "reg1");
            assert_eq!(admin, "gov1");
        }
        other => panic!("unexpected action {:?}", other),
    }
}

#[test]
fn full_deployment_of_two_members() {
    let mut store = Store::new();
    deploy_two_members(&mut store);
}

#[test]
fn query_after_deployment() {
    let mut store = Store::new();
    deploy_two_members(&mut store);
    let answer = query(&store, QueryMsg::GetListOfWallet { user_address: "addr1".to_string() });
    assert_eq!(answer.unwrap().wallets, vec!["gov1".to_string()]);
    match query(&store, QueryMsg::GetListOfWallet { user_address: "addr3".to_string() }) {
        Err(ContractError::NotFound { address }) => assert_eq!(address, "addr3"),
        other => panic!("unexpected answer {:?}", other),
    }
}

#[test]
fn second_deployment_appends() {
    let mut store = Store::new();
    deploy_two_members(&mut store);
    deploy(&mut store, &[("addr1", 1)], "reg2", "gov2");
    assert_eq!(
        wallets(&store, "addr1").unwrap(),
        vec!["gov1".to_string(), "gov2".to_string()]
    );
    assert_eq!(wallets(&store, "addr2").unwrap(), vec!["gov1".to_string()]);
    assert_eq!(store.registry_identity.as_deref(), Some("reg2"));
}

#[test]
fn multisig_reply_without_request() {
    let mut store = Store::new();
    store.registry_identity = Some("reg1".to_string());
    let r = reply(&mut store, 2, instantiate_reply("gov1"));
    assert!(matches!(r, Err(ContractError::DeployData)));
    assert!(store.wallet_index.entries().is_empty());
    assert!(store.pending_request.is_none());
}

#[test]
fn multisig_reply_without_registry() {
    let mut store = Store::new();
    execute_deployer(&mut store, SELF_ADDR.to_string(), request(&[("addr1", 1)], 1, 10));
    let r = handle_instantiate_cw3_flex_multisig(&mut store, instantiate_reply("gov1"));
    assert!(matches!(r, Err(ContractError::RegistryNotFound)));
    assert!(matches!(wallets(&store, "addr1"), Err(ContractError::NotFound { .. })));
}

#[test]
fn registry_reply_without_request() {
    let mut store = Store::new();
    let r = handle_instantiate_cw4_reply(&mut store, instantiate_reply("reg1"));
    assert!(matches!(r, Err(ContractError::DeployData)));
    assert!(store.registry_identity.is_none());
}

#[test]
fn reply_without_payload() {
    let mut store = Store::new();
    execute_deployer(&mut store, SELF_ADDR.to_string(), request(&[("addr1", 1)], 1, 10));
    let r = reply(&mut store, 1, None);
    assert!(matches!(r, Err(ContractError::Data { step: Step::RegistryCreated })));
    assert!(store.registry_identity.is_none());
    let r = reply(&mut store, 2, None);
    assert!(matches!(r, Err(ContractError::Data { step: Step::MultisigCreated })));
}

#[test]
fn reply_with_undecodable_payload() {
    let mut store = Store::new();
    execute_deployer(&mut store, SELF_ADDR.to_string(), request(&[("addr1", 1)], 1, 10));
    // Field 2 where the address (field 1) is expected.
    let r = reply(&mut store, 1, Some(vec![0x12, 0x01, 0x41]));
    assert!(matches!(r, Err(ContractError::Data { step: Step::RegistryCreated })));
    // A length that runs past the end of the message.
    let r = reply(&mut store, 1, Some(vec![0x0a, 0x09, 0x41]));
    assert!(matches!(r, Err(ContractError::Data { .. })));
    assert!(store.registry_identity.is_none());
}

#[test]
fn empty_payload_reports_empty_address() {
    let mut store = Store::new();
    execute_deployer(&mut store, SELF_ADDR.to_string(), request(&[("addr1", 1)], 1, 10));
    reply(&mut store, 1, Some(vec![])).unwrap();
    assert_eq!(store.registry_identity.as_deref(), Some(""));
}

#[test]
fn unknown_step_is_refused() {
    let mut store = Store::new();
    deploy_two_members(&mut store);
    for id in [0u64, 3, 7, u64::MAX] {
        let r = reply(&mut store, id, instantiate_reply("gov9"));
        match r {
            Err(ContractError::UnknownStep { id: got }) => assert_eq!(got, id),
            other => panic!("unexpected result {:?}", other),
        }
    }
    assert_eq!(wallets(&store, "addr1").unwrap(), vec!["gov1".to_string()]);
    assert_eq!(store.registry_identity.as_deref(), Some("reg1"));
}

#[test]
fn missing_address_is_never_an_empty_list() {
    let store = Store::new();
    for _ in 0..3 {
        assert!(matches!(wallets(&store, "nobody"), Err(ContractError::NotFound { .. })));
    }
}

#[test]
fn fan_out_touches_each_member_once() {
    let mut store = Store::new();
    deploy(&mut store, &[("a", 1), ("b", 2)], "reg1", "gov1");
    deploy(&mut store, &[("b", 1), ("c", 1), ("d", 3)], "reg2", "gov2");
    assert_eq!(wallets(&store, "a").unwrap(), vec!["gov1".to_string()]);
    assert_eq!(wallets(&store, "b").unwrap(), vec!["gov1".to_string(), "gov2".to_string()]);
    assert_eq!(wallets(&store, "c").unwrap(), vec!["gov2".to_string()]);
    assert_eq!(wallets(&store, "d").unwrap(), vec!["gov2".to_string()]);
    assert_eq!(store.wallet_index.entries().len(), 4);
}

#[test]
fn failed_step_changes_nothing() {
    let mut store = Store::new();
    deploy_two_members(&mut store);
    store.pending_request = None;
    let r = multisig_created(&mut store, Some("gov2".to_string()));
    assert!(matches!(r, Err(ContractError::DeployData)));
    assert_eq!(wallets(&store, "addr1").unwrap(), vec!["gov1".to_string()]);
    assert_eq!(wallets(&store, "addr2").unwrap(), vec!["gov1".to_string()]);
    let r = multisig_created(&mut store, None);
    assert!(matches!(r, Err(ContractError::Data { .. })));
}

#[test]
fn registry_created_records_address() {
    let mut store = Store::new();
    execute(
        &mut store,
        SELF_ADDR.to_string(),
        ExecuteMsg::Deployer(request(&[("addr1", 5)], 3, 120)),
    );
    let actions = registry_created(&mut store, Some("regX".to_string())).unwrap();
    assert_eq!(store.registry_identity.as_deref(), Some("regX"));
    match &actions[0] {
        Action::InstantiateMultisig { registry, threshold_weight, max_voting_period, .. } => {
            assert_eq!(registry, "regX");
            assert_eq!(*threshold_weight, 3);
            assert_eq!(*max_voting_period, 120);
        }
        other => panic!("unexpected action {:?}", other),
    }
    let pending = store.pending_request.as_ref().unwrap();
    assert_eq!(pending.members[0].addr, "addr1");
    assert_eq!(pending.members[0].weight, 5);
}

#[test]
fn new_request_replaces_the_pending_one() {
    let mut store = Store::new();
    execute_deployer(&mut store, SELF_ADDR.to_string(), request(&[("a", 1)], 1, 10));
    execute_deployer(&mut store, SELF_ADDR.to_string(), request(&[("b", 2)], 2, 20));
    reply(&mut store, 1, instantiate_reply("reg")).unwrap();
    reply(&mut store, 2, instantiate_reply("gov")).unwrap();
    assert!(matches!(wallets(&store, "a"), Err(ContractError::NotFound { .. })));
    assert_eq!(wallets(&store, "b").unwrap(), vec!["gov".to_string()]);
}

#[test]
fn step_tags() {
    assert_eq!(Step::from_tag(1), Some(Step::RegistryCreated));
    assert_eq!(Step::from_tag(2), Some(Step::MultisigCreated));
    assert_eq!(Step::from_tag(3), None);
    assert_eq!(Step::MultisigCreated.tag(), 2);
}

#[test]
fn repeated_member_gets_the_multisig_once() {
    let mut store = Store::new();
    deploy(&mut store, &[("addr1", 1), ("addr2", 1), ("addr1", 2)], "reg1", "gov1");
    assert_eq!(wallets(&store, "addr1").unwrap(), vec!["gov1".to_string()]);
    assert_eq!(wallets(&store, "addr2").unwrap(), vec!["gov1".to_string()]);
    deploy(&mut store, &[("addr1", 1), ("addr1", 1)], "reg2", "gov2");
    assert_eq!(
        wallets(&store, "addr1").unwrap(),
        vec!["gov1".to_string(), "gov2".to_string()]
    );
    assert_eq!(store.wallet_index.entries().len(), 2);
}
