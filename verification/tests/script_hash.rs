use photon::limits::SCRIPT_HASH_LEN;
use photon::script_hash::{
    history_reply, parse_script_hash, same_script_hash, BusEvent, Delivery, HistoryRequest,
    ScriptHashService, StatusCode, SubscribeRequest,
};

fn service() -> ScriptHashService<&'static str, u8> {
    ScriptHashService::new("db", 7)
}

#[test]
fn new_keeps_its_handles() {
    let svc = service();
    assert_eq!(*svc.db(), "db");
    assert_eq!(*svc.script_hash_bus(), 7);
}

#[test]
fn script_hash_has_32_bytes() {
    assert_eq!(SCRIPT_HASH_LEN, 32);
    let bytes: Vec<u8> = (0..32u8).collect();
    let hash = parse_script_hash(&bytes).unwrap();
    assert_eq!(hash.to_vec(), bytes);
}

#[test]
fn other_lengths_are_invalid_arguments() {
    for len in [0usize, 1, 31, 33, 64] {
        let status = parse_script_hash(&vec![0u8; len]).unwrap_err();
        assert_eq!(status.code, StatusCode::InvalidArgument);
        assert_eq!(status.message, "incorrect script hash length");
    }
}

#[test]
fn history_rejects_a_wrong_length_whatever_is_asked() {
    let svc = service();
    for include_mempool_items in [false, true] {
        let request = HistoryRequest { script_hash: vec![0u8; 31], include_mempool_items };
        let status = svc.history(&request).unwrap_err();
        assert_eq!(status.code, StatusCode::InvalidArgument);
        assert_eq!(status.message, "incorrect script hash length");
    }
}

#[test]
fn history_without_mempool_is_not_implemented() {
    let svc = service();
    let request = HistoryRequest { script_hash: vec![0u8; 32], include_mempool_items: false };
    let status = svc.history(&request).unwrap_err();
    assert_eq!(status.code, StatusCode::Unimplemented);
    assert_eq!(status.message, "");
}

#[test]
fn history_with_mempool_asks_for_the_script_hash() {
    let svc = service();
    let request = HistoryRequest { script_hash: vec![9u8; 32], include_mempool_items: true };
    assert_eq!(svc.history(&request).unwrap(), [9u8; 32]);
}

#[test]
fn history_reply_lists_the_mempool_in_order() {
    let reply = history_reply(&vec![[1u8; 32], [2u8; 32], [1u8; 32]]);
    assert!(reply.confirmed_items.is_empty());
    assert!(reply.confirmed_continuation.is_none());
    assert_eq!(reply.mempool_items.len(), 3);
    assert_eq!(reply.mempool_items[0].tx_id, vec![1u8; 32]);
    assert_eq!(reply.mempool_items[1].tx_id, vec![2u8; 32]);
    assert_eq!(reply.mempool_items[2].tx_id, vec![1u8; 32]);
    for item in &reply.mempool_items {
        assert_eq!(item.fee, 0);
        assert!(!item.has_unconfirmed_parent);
    }
}

#[test]
fn history_reply_of_an_empty_mempool_is_empty() {
    let reply = history_reply(&vec![]);
    assert!(reply.mempool_items.is_empty());
    assert!(reply.confirmed_items.is_empty());
    assert!(reply.confirmed_continuation.is_none());
}

#[test]
fn same_script_hash_compares_every_byte() {
    let a = [5u8; 32];
    let mut b = [5u8; 32];
    assert!(same_script_hash(&a, &b));
    b[31] = 6;
    assert!(!same_script_hash(&a, &b));
    b[31] = 5;
    b[0] = 4;
    assert!(!same_script_hash(&a, &b));
}

#[test]
fn subscribe_rejects_a_wrong_length() {
    let svc = service();
    for len in [0usize, 31, 33] {
        let request = SubscribeRequest { script_hash: vec![0u8; len] };
        let status = match svc.subscribe(&request) {
            Err(status) => status,
            Ok(_) => panic!("a script hash of {} bytes was accepted", len),
        };
        assert_eq!(status.code, StatusCode::InvalidArgument);
        assert_eq!(status.message, "incorrect script hash length");
    }
}

#[test]
fn subscriber_receives_only_its_own_script_hash() {
    let svc = service();
    let f = [0xaau8; 32];
    let g = [0xbbu8; 32];
    let mut sub = svc.subscribe(&SubscribeRequest { script_hash: f.to_vec() }).ok().unwrap();
    assert_eq!(sub.script_hash(), f);
    let events: Vec<BusEvent> = vec![Ok((f, [1u8; 32])), Ok((g, [2u8; 32]))];
    let mut items = vec![];
    for event in &events {
        match sub.deliver(event) {
            Delivery::Emit(item) => items.push(item),
            Delivery::Skip => {}
            other => panic!("unexpected delivery {:?}", other),
        }
    }
    assert_eq!(items.len(), 1);
    assert_eq!(items[0].unconfirmed_status, vec![1u8; 32]);
    assert!(items[0].confirmed_status.is_empty());
    assert!(sub.is_open());
}

#[test]
fn a_delivery_failure_aborts_the_stream() {
    let svc = service();
    let f = [3u8; 32];
    let mut sub = svc.subscribe(&SubscribeRequest { script_hash: f.to_vec() }).ok().unwrap();
    match sub.deliver(&Err("subscriber lagged".to_string())) {
        Delivery::Abort(status) => {
            assert_eq!(status.code, StatusCode::Aborted);
            assert_eq!(status.message, "subscriber lagged");
        }
        other => panic!("unexpected delivery {:?}", other),
    }
    assert!(!sub.is_open());
    assert!(matches!(sub.deliver(&Ok((f, [1u8; 32]))), Delivery::Closed));
    assert!(matches!(sub.deliver(&Err("again".to_string())), Delivery::Closed));
}

#[test]
fn a_failure_on_the_bus_reaches_every_subscription() {
    let svc = service();
    let mut a = svc.subscribe(&SubscribeRequest { script_hash: vec![1u8; 32] }).ok().unwrap();
    let mut b = svc.subscribe(&SubscribeRequest { script_hash: vec![2u8; 32] }).ok().unwrap();
    assert!(matches!(a.deliver(&Err("x".to_string())), Delivery::Abort(_)));
    assert!(matches!(b.deliver(&Ok(([2u8; 32], [9u8; 32]))), Delivery::Emit(_)));
    assert!(b.is_open());
}
