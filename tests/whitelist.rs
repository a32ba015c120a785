use marketplace::state::Coin;
use marketplace::whitelist::{
    instantiate, AddMembersMsg, QueryMsg, QueryResponse, Attribute, ConfigResponse, ExecuteMsg, InstantiateMsg,
    RemoveMembersMsg, Whitelist, CONTRACT_NAME, CONTRACT_VERSION,
};

const ADMIN: &str = "admin";
const NATIVE_DENOM: &str = "ujuno";
const UNIT_AMOUNT: u128 = 100_000_000;

// the block time of the test environment, in nanoseconds
const NOW: u64 = 1_571_797_419_879_305_533;
const START_TIME: u64 = 1_647_032_400_000_000_000;
const END_TIME: u64 = START_TIME + 1_000_000_000;

fn coin(amount: u128, denom: &str) -> Coin {
    Coin { denom: denom.to_string(), amount }
}

fn attr(key: &str, value: &str) -> Attribute {
    Attribute { key: key.to_string(), value: value.to_string() }
}

fn admin() -> String {
    ADMIN.to_string()
}

fn setup_contract() -> Whitelist {
    let msg = InstantiateMsg {
        members: vec!["adsfsa".to_string()],
        start_time: START_TIME,
        end_time: END_TIME,
        unit_price: coin(UNIT_AMOUNT, NATIVE_DENOM),
        per_address_limit: 1,
        member_limit: 1000,
    };
    let (wl, res) = instantiate(&admin(), NOW, msg).unwrap();
    assert!(res.attributes[0].eq(&attr("action", "instantiate")));
    assert!(res.attributes[1].eq(&attr("contract_name", CONTRACT_NAME)));
    assert!(res.attributes[2].eq(&attr("contract_version", CONTRACT_VERSION)));
    assert!(res.attributes[3].eq(&attr("sender", ADMIN)));
    wl
}

#[test]
fn proper_initialization() {
    setup_contract();
}

#[test]
fn improper_initialization() {
    let msg = InstantiateMsg {
        members: vec!["adsfsa".to_string()],
        start_time: END_TIME,
        end_time: END_TIME,
        unit_price: coin(1, NATIVE_DENOM),
        per_address_limit: 1,
        member_limit: 1000,
    };
    instantiate(&admin(), NOW, msg).unwrap_err();
}

#[test]
fn improper_initialization_dedup() {
    let msg = InstantiateMsg {
        members: vec!["adsfsa".to_string(), "adsfsa".to_string(), "adsfsa".to_string()],
        start_time: START_TIME,
        end_time: END_TIME,
        unit_price: coin(UNIT_AMOUNT, NATIVE_DENOM),
        per_address_limit: 1,
        member_limit: 1000,
    };
    let (wl, _res) = instantiate(&admin(), NOW, msg).unwrap();
    let res = wl.query_config(NOW);
    assert_eq!(1, res.num_members);
}

#[test]
fn check_start_time_after_end_time() {
    let msg = InstantiateMsg {
        members: vec!["adsfsa".to_string()],
        start_time: END_TIME,
        end_time: START_TIME,
        unit_price: coin(UNIT_AMOUNT, NATIVE_DENOM),
        per_address_limit: 1,
        member_limit: 1000,
    };
    instantiate(&admin(), NOW, msg).unwrap_err();
}

#[test]
fn update_start_time() {
    let mut wl = setup_contract();
    let new_start_time = START_TIME - 100;
    let msg = ExecuteMsg::UpdateStartTime(new_start_time);
    let res = wl.execute(&admin(), NOW, msg).unwrap();
    assert_eq!(res.attributes.len(), 3);
    let res = wl.query_config(NOW);
    assert_eq!(res.start_time, new_start_time);
}

#[test]
fn reported_values_are_formatted() {
    let mut wl = setup_contract();
    let res = wl.execute_update_start_time(&admin(), NOW, START_TIME - 100).unwrap();
    assert_eq!(res.attributes[1], attr("start_time", "1647032399.999999900"));
    let res = wl.execute_update_end_time(&admin(), NOW, START_TIME + 7).unwrap();
    assert_eq!(res.attributes[1], attr("end_time", "1647032400.000000007"));
    let res = wl.execute_update_per_address_limit(&admin(), 42).unwrap();
    assert_eq!(res.attributes[1], attr("per_address_limit", "42"));
    let res = wl.execute_increase_member_limit(1234).unwrap();
    assert_eq!(res.attributes[1], attr("member_limit", "1234"));
}

#[test]
fn update_end_time() {
    let mut wl = setup_contract();
    let new_end_time = START_TIME + 300;
    let msg = ExecuteMsg::UpdateEndTime(new_end_time);
    let res = wl.execute(&admin(), NOW, msg).unwrap();
    assert_eq!(res.attributes.len(), 3);
    let res = wl.query_config(NOW);
    assert_eq!(res.end_time, new_end_time);
}

#[test]
fn update_members() {
    let mut wl = setup_contract();

    // dedupe addrs
    let add_msg = AddMembersMsg { to_add: vec!["adsfsa1".to_string(), "adsfsa1".to_string()] };
    let msg = ExecuteMsg::AddMembers(add_msg.clone());
    let res = wl.execute(&admin(), NOW, msg).unwrap();
    assert_eq!(res.attributes.len(), 2);
    let res = wl.query_members(None, None);
    assert_eq!(res.len(), 2);

    wl.execute(&admin(), NOW, ExecuteMsg::AddMembers(add_msg)).unwrap_err();

    let remove_msg = RemoveMembersMsg { to_remove: vec!["adsfsa1".to_string()] };
    let msg = ExecuteMsg::RemoveMembers(remove_msg);
    let res = wl.execute(&admin(), NOW, msg).unwrap();
    assert_eq!(res.attributes.len(), 2);
    let res = wl.query_members(None, None);
    assert_eq!(res.len(), 1);
}

#[test]
fn update_per_address_limit() {
    let mut wl = setup_contract();

    let per_address_limit: u32 = 2;
    let msg = ExecuteMsg::UpdatePerAddressLimit(per_address_limit);
    let res = wl.execute(&admin(), NOW, msg).unwrap();
    assert_eq!(res.attributes.len(), 2);
    let wl_config: ConfigResponse = wl.query_config(NOW);
    assert_eq!(wl_config.per_address_limit, per_address_limit);
}

#[test]
fn query_members_pagination() {
    let mut members = vec![];
    for i in 0..150 {
        members.push(format!("juno1{}", i));
    }
    let msg = InstantiateMsg {
        members: members.clone(),
        start_time: START_TIME,
        end_time: END_TIME,
        unit_price: coin(UNIT_AMOUNT, NATIVE_DENOM),
        per_address_limit: 1,
        member_limit: 1000,
    };
    let (wl, _res) = instantiate(&admin(), NOW, msg).unwrap();

    let mut all_elements: Vec<String> = vec![];

    // enforcing a min
    let res = wl.query_members(None, None);
    assert_eq!(res.len(), 25);

    // enforcing a max
    let res = wl.query_members(None, Some(125));
    assert_eq!(res.len(), 100);

    // first fetch
    let res = wl.query_members(None, Some(50));
    assert_eq!(res.len(), 50);
    all_elements.append(&mut res.clone());

    // second
    let res = wl.query_members(Some(res[res.len() - 1].clone()), Some(50));
    assert_eq!(res.len(), 50);
    all_elements.append(&mut res.clone());

    // third
    let res = wl.query_members(Some(res[res.len() - 1].clone()), Some(50));
    all_elements.append(&mut res.clone());
    assert_eq!(res.len(), 50);

    // check fetched items
    assert_eq!(all_elements.len(), 150);
    members.sort();
    all_elements.sort();
    assert_eq!(members, all_elements);
}

#[test]
fn increase_member_limit() {
    let mut wl = setup_contract();
    let res = wl.query_config(NOW);
    assert_eq!(1000, res.member_limit);

    let msg = ExecuteMsg::IncreaseMemberLimit(1001);
    let res = wl.execute(&admin(), NOW, msg);
    assert!(res.is_ok());

    let msg = ExecuteMsg::IncreaseMemberLimit(1002);
    let res = wl.execute(&admin(), NOW, msg);
    assert!(res.is_ok());
}

#[test]
fn members_are_listed_in_byte_order() {
    let mut wl = setup_contract();
    let to_add = vec!["b".to_string(), "A".to_string(), "ab".to_string(), "a".to_string()];
    wl.execute_add_members(&admin(), AddMembersMsg { to_add }).unwrap();
    assert_eq!(wl.query_members(None, None), vec!["A", "a", "ab", "adsfsa", "b"]);
    assert_eq!(wl.query_members(Some("ab".to_string()), Some(2)), vec!["adsfsa", "b"]);
    assert!(wl.query_has_member(&"ab".to_string()));
    assert!(!wl.query_has_member(&"abc".to_string()));
}

#[test]
fn member_limit_and_duplicates_are_refused() {
    let msg = InstantiateMsg {
        members: vec!["a".to_string()],
        start_time: START_TIME,
        end_time: END_TIME,
        unit_price: coin(UNIT_AMOUNT, NATIVE_DENOM),
        per_address_limit: 1,
        member_limit: 2,
    };
    let (mut wl, _) = instantiate(&admin(), NOW, msg).unwrap();
    let r = wl.execute_add_members(&admin(), AddMembersMsg { to_add: vec!["b".to_string(), "c".to_string()] });
    assert_eq!(r.unwrap_err(), marketplace::whitelist::WhitelistError::MembersExceeded { expected: 2, actual: 2 });
    let r = wl.execute_add_members(&admin(), AddMembersMsg { to_add: vec!["a".to_string()] });
    assert_eq!(r.unwrap_err(), marketplace::whitelist::WhitelistError::DuplicateMember("a".to_string()));
    assert_eq!(wl.query_members(None, None), vec!["a"]);
    let r = wl.execute_remove_members(&admin(), NOW, RemoveMembersMsg { to_remove: vec!["a".to_string(), "a".to_string()] });
    assert_eq!(r.unwrap_err(), marketplace::whitelist::WhitelistError::NoMemberFound("a".to_string()));
    assert_eq!(wl.query_config(NOW).num_members, 1);
    let r = wl.execute_remove_members(&admin(), START_TIME, RemoveMembersMsg { to_remove: vec!["a".to_string()] });
    assert_eq!(r.unwrap_err(), marketplace::whitelist::WhitelistError::AlreadyStarted);
    let r = wl.execute_increase_member_limit(2);
    assert_eq!(r.unwrap_err(), marketplace::whitelist::WhitelistError::InvalidMemberLimit { min: 2, got: 2 });
    let r = wl.execute_update_per_address_limit(&"stranger".to_string(), 3);
    assert_eq!(r.unwrap_err(), marketplace::whitelist::WhitelistError::Unauthorized);
}

#[test]
fn activity_window() {
    let wl = setup_contract();
    assert!(!wl.query_has_started(NOW));
    assert!(wl.query_has_started(START_TIME));
    assert!(wl.query_is_active(START_TIME));
    assert!(!wl.query_is_active(END_TIME));
    assert!(wl.query_has_ended(END_TIME));
    assert!(wl.query_config(START_TIME).is_active);
}

#[test]
fn query_answers_each_message() {
    let wl = setup_contract();
    assert!(matches!(wl.query(START_TIME, QueryMsg::IsActive), QueryResponse::IsActive(true)));
    assert!(matches!(wl.query(NOW, QueryMsg::HasStarted), QueryResponse::HasStarted(false)));
    assert!(matches!(wl.query(END_TIME, QueryMsg::HasEnded), QueryResponse::HasEnded(true)));
    let q = QueryMsg::HasMember { member: "adsfsa".to_string() };
    assert!(matches!(wl.query(NOW, q), QueryResponse::HasMember(true)));
    match wl.query(NOW, QueryMsg::Members { start_after: None, limit: None }) {
        QueryResponse::Members(m) => assert_eq!(m, vec!["adsfsa"]),
        _ => panic!("wrong answer"),
    }
    match wl.query(NOW, QueryMsg::Config) {
        QueryResponse::Config(c) => assert_eq!(c.member_limit, 1000),
        _ => panic!("wrong answer"),
    }
}
