use balance_watcher::contract::{
    bind_query, execute, instantiate, query, query_config, query_count, query_objects,
    query_registered_queries, register_addr, reply, sudo, sudo_kv_query_result,
    REGISTER_BALANCES_ICQ_REPLY_ID,
};
use balance_watcher::error::ContractError;
use balance_watcher::msg::{ExecuteMsg, InstantiateMsg, QueryMsg, Reply, SudoMsg};
use balance_watcher::response::{
    QueryResponse, RegisterBalanceQuery, ReplyOn, Response, SubMsg,
};
use balance_watcher::state::{Config, Store};

fn init_msg() -> InstantiateMsg {
    InstantiateMsg {
        frequency: 10,
        connection_id: "conn-0".to_string(),
        asset_denom: "uatom".to_string(),
    }
}

fn initialized() -> Store {
    let mut store = Store::new();
    instantiate(&mut store, "creator".to_string(), init_msg()).unwrap();
    store
}

fn ack(id: u64) -> Reply {
    Reply {
        id: REGISTER_BALANCES_ICQ_REPLY_ID,
        result: Ok(Some(format!("{{\"id\":{}}}", id).into_bytes())),
    }
}

#[test]
fn new_store_has_every_slot_empty() {
    let store = Store::new();
    assert_eq!(store.config, None);
    assert_eq!(store.count, None);
    assert_eq!(store.last_registered_addr, None);
    assert_eq!(store.registered_queries, None);
    assert!(store.objects.is_empty());
}

#[test]
fn initialization_sets_zero_counter_and_empty_registry() {
    let mut store = Store::new();
    let response = instantiate(&mut store, "creator".to_string(), init_msg()).unwrap();
    assert_eq!(response, Response { messages: vec![] });
    assert_eq!(query_count(&store), Ok(0));
    assert_eq!(query_registered_queries(&store), Ok(vec![]));
    assert_eq!(
        query_config(&store),
        Ok(Config {
            owner: "creator".to_string(),
            asset_denom: "uatom".to_string(),
            frequency: 10,
            connection_id: "conn-0".to_string(),
        })
    );
    assert_eq!(store.last_registered_addr, None);
    assert!(store.objects.is_empty());
}

#[test]
fn initialization_keeps_pending_slot_and_bindings() {
    let mut store = initialized();
    register_addr(&mut store, "neutron1abc".to_string()).unwrap();
    reply(&mut store, ack(7)).unwrap();
    sudo_kv_query_result(&mut store, 7).unwrap();
    instantiate(&mut store, "other".to_string(), init_msg()).unwrap();
    assert_eq!(query_count(&store), Ok(0));
    assert_eq!(query_registered_queries(&store), Ok(vec![]));
    assert_eq!(query_objects(&store, 7), Ok("neutron1abc".to_string()));
    assert_eq!(store.last_registered_addr, Some("neutron1abc".to_string()));
    assert_eq!(query_config(&store).unwrap().owner, "other".to_string());
}

#[test]
fn registration_emits_one_tagged_request() {
    let mut store = initialized();
    let response = register_addr(&mut store, "neutron1abc".to_string()).unwrap();
    assert_eq!(
        response,
        Response {
            messages: vec![SubMsg {
                id: 1,
                msg: RegisterBalanceQuery {
                    connection_id: "conn-0".to_string(),
                    addr: "neutron1abc".to_string(),
                    denom: "uatom".to_string(),
                    update_period: 10,
                },
                gas_limit: None,
                reply_on: ReplyOn::Success,
            }],
        }
    );
    assert_eq!(store.last_registered_addr, Some("neutron1abc".to_string()));
    assert_eq!(query_count(&store), Ok(0));
    assert_eq!(query_registered_queries(&store), Ok(vec![]));
    assert!(store.objects.is_empty());
}

#[test]
fn registration_without_configuration_fails_and_changes_nothing() {
    let mut store = Store::new();
    let before = store.clone();
    assert_eq!(
        register_addr(&mut store, "neutron1abc".to_string()),
        Err(ContractError::ConfigurationMissing)
    );
    assert_eq!(store, before);
}

#[test]
fn execute_dispatches_registration() {
    let mut direct = initialized();
    let mut dispatched = initialized();
    let a = register_addr(&mut direct, "neutron1abc".to_string());
    let b = execute(
        &mut dispatched,
        ExecuteMsg::RegisterAddr { addr: "neutron1abc".to_string() },
    );
    assert_eq!(a, b);
    assert!(a.is_ok());
    assert_eq!(direct, dispatched);
}

#[test]
fn registration_then_acknowledgment_binds_the_subject_once() {
    let mut store = initialized();
    register_addr(&mut store, "cosmos1subject".to_string()).unwrap();
    let response = reply(&mut store, ack(42)).unwrap();
    assert_eq!(response, Response { messages: vec![] });
    let ids = query_registered_queries(&store).unwrap();
    assert_eq!(ids.iter().filter(|id| **id == 42).count(), 1);
    assert_eq!(ids, vec![42]);
    assert_eq!(query_objects(&store, 42), Ok("cosmos1subject".to_string()));
}

#[test]
fn second_registration_steals_the_acknowledgment() {
    let mut store = initialized();
    register_addr(&mut store, "subject-a".to_string()).unwrap();
    register_addr(&mut store, "subject-b".to_string()).unwrap();
    reply(&mut store, ack(5)).unwrap();
    assert_eq!(query_objects(&store, 5), Ok("subject-b".to_string()));
    assert_ne!(query_objects(&store, 5), Ok("subject-a".to_string()));
    assert_eq!(query_registered_queries(&store), Ok(vec![5]));
}

#[test]
fn pending_slot_survives_acknowledgment() {
    let mut store = initialized();
    register_addr(&mut store, "subject-a".to_string()).unwrap();
    reply(&mut store, ack(1)).unwrap();
    assert_eq!(store.last_registered_addr, Some("subject-a".to_string()));
    reply(&mut store, ack(2)).unwrap();
    assert_eq!(query_registered_queries(&store), Ok(vec![1, 2]));
    assert_eq!(query_objects(&store, 1), Ok("subject-a".to_string()));
    assert_eq!(query_objects(&store, 2), Ok("subject-a".to_string()));
}

#[test]
fn reassigned_id_appears_twice_and_reads_the_later_subject() {
    let mut store = initialized();
    register_addr(&mut store, "subject-a".to_string()).unwrap();
    reply(&mut store, ack(9)).unwrap();
    register_addr(&mut store, "subject-b".to_string()).unwrap();
    reply(&mut store, ack(9)).unwrap();
    assert_eq!(query_registered_queries(&store), Ok(vec![9, 9]));
    assert_eq!(query_objects(&store, 9), Ok("subject-b".to_string()));
}

#[test]
fn registry_keeps_acknowledgment_order() {
    let mut store = initialized();
    for id in [30u64, 10, 20] {
        register_addr(&mut store, format!("subject-{}", id)).unwrap();
        reply(&mut store, ack(id)).unwrap();
    }
    assert_eq!(query_registered_queries(&store), Ok(vec![30, 10, 20]));
    assert_eq!(query_objects(&store, 10), Ok("subject-10".to_string()));
    assert_eq!(query_objects(&store, 20), Ok("subject-20".to_string()));
    assert_eq!(query_objects(&store, 30), Ok("subject-30".to_string()));
}

#[test]
fn bind_query_matches_acknowledgment() {
    let mut by_reply = initialized();
    let mut by_bind = initialized();
    register_addr(&mut by_reply, "subject".to_string()).unwrap();
    register_addr(&mut by_bind, "subject".to_string()).unwrap();
    assert_eq!(reply(&mut by_reply, ack(77)), bind_query(&mut by_bind, 77));
    assert_eq!(by_reply, by_bind);
    assert_eq!(query_objects(&by_bind, 77), Ok("subject".to_string()));
}

#[test]
fn notifications_count_one_each_whatever_the_id() {
    let mut store = initialized();
    register_addr(&mut store, "subject".to_string()).unwrap();
    reply(&mut store, ack(7)).unwrap();
    let before = store.clone();
    let mut expected = 0u64;
    for id in [7u64, 7, 8, 0, u64::MAX, 7] {
        let response = sudo_kv_query_result(&mut store, id).unwrap();
        assert_eq!(response, Response { messages: vec![] });
        expected += 1;
        assert_eq!(query_count(&store), Ok(expected));
    }
    assert_eq!(query_count(&store), Ok(6));
    assert_eq!(store.config, before.config);
    assert_eq!(store.registered_queries, before.registered_queries);
    assert_eq!(store.objects, before.objects);
    assert_eq!(store.last_registered_addr, before.last_registered_addr);
}

#[test]
fn notification_reaches_the_top_of_the_range() {
    let mut store = initialized();
    store.count = Some(u64::MAX - 1);
    sudo_kv_query_result(&mut store, 1).unwrap();
    assert_eq!(query_count(&store), Ok(u64::MAX));
}

#[test]
fn notification_without_counter_fails_and_changes_nothing() {
    let mut store = Store::new();
    assert_eq!(
        sudo_kv_query_result(&mut store, 7),
        Err(ContractError::ConfigurationMissing)
    );
    assert_eq!(store, Store::new());
    assert_eq!(
        sudo(&mut store, SudoMsg::KVQueryResult { query_id: 7 }),
        Err(ContractError::ConfigurationMissing)
    );
    assert_eq!(store, Store::new());
}

#[test]
fn sudo_dispatches_refresh_and_ignores_the_rest() {
    let mut store = initialized();
    sudo(&mut store, SudoMsg::KVQueryResult { query_id: 3 }).unwrap();
    assert_eq!(query_count(&store), Ok(1));
    let before = store.clone();
    assert_eq!(sudo(&mut store, SudoMsg::Other), Ok(Response { messages: vec![] }));
    assert_eq!(store, before);
    let mut empty = Store::new();
    assert_eq!(sudo(&mut empty, SudoMsg::Other), Ok(Response { messages: vec![] }));
    assert_eq!(empty, Store::new());
}

#[test]
fn concrete_scenario() {
    let mut store = Store::new();
    instantiate(
        &mut store,
        "creator".to_string(),
        InstantiateMsg {
            frequency: 10,
            connection_id: "conn-0".to_string(),
            asset_denom: "uatom".to_string(),
        },
    )
    .unwrap();
    register_addr(&mut store, "neutron1abc".to_string()).unwrap();
    reply(
        &mut store,
        Reply {
            id: 1,
            result: Ok(Some(b"{\"id\":7}".to_vec())),
        },
    )
    .unwrap();
    assert_eq!(query_registered_queries(&store), Ok(vec![7]));
    assert_eq!(query_objects(&store, 7), Ok("neutron1abc".to_string()));
    for _ in 0..3 {
        sudo_kv_query_result(&mut store, 7).unwrap();
    }
    assert_eq!(query_count(&store), Ok(3));
    assert_eq!(
        query(&store, QueryMsg::Count {}, None),
        Ok(QueryResponse::Count(3))
    );
    assert_eq!(
        query(&store, QueryMsg::Queries {}, None),
        Ok(QueryResponse::Queries(vec![7]))
    );
    assert_eq!(
        query(&store, QueryMsg::Objects { query_id: 7 }, None),
        Ok(QueryResponse::Objects("neutron1abc".to_string()))
    );
}
