use casper_node_core::queue::{EventQueues, QueueKind};
use casper_node_core::reactor::{step, Dispatched, Event, Reactor, ReactorState, Reply, Signal};
use casper_node_core::requests::{NetworkRequest, RestRequest, StorageRequest};
use casper_node_core::responder::{Delivery, Exchange, RespondError};
use casper_node_core::rest::{
    metrics_reply, status_reply, chainspec_reply, rpc_schema_reply, BodyKind, ProtocolVersion,
    StatusFeed,
};
use casper_node_core::storage::{Store, StoredValue};

fn block(id: u64) -> StoredValue {
    StoredValue::new(id, vec![1, 2, id as u8], vec![9, 9, 9, id as u8])
}

#[test]
fn fifo_within_one_queue() {
    let mut q: EventQueues<u32> = EventQueues::new();
    q.push(QueueKind::Api, 1);
    q.push(QueueKind::Api, 2);
    q.push(QueueKind::Api, 3);
    assert_eq!(q.pop(), Some((QueueKind::Api, 1)));
    assert_eq!(q.pop(), Some((QueueKind::Api, 2)));
    assert_eq!(q.pop(), Some((QueueKind::Api, 3)));
    assert_eq!(q.pop(), None);
}

#[test]
fn weighted_round_under_sustained_load() {
    let mut q: EventQueues<u32> = EventQueues::new();
    for i in 0..10u32 {
        q.push(QueueKind::Network, i);
        q.push(QueueKind::Regular, 100 + i);
        q.push(QueueKind::Api, 200 + i);
    }
    let kinds: Vec<QueueKind> = (0..7).map(|_| q.pop().unwrap().0).collect();
    assert_eq!(
        kinds,
        vec![
            QueueKind::Network,
            QueueKind::Regular,
            QueueKind::Network,
            QueueKind::Api,
            QueueKind::Network,
            QueueKind::Regular,
            QueueKind::Network,
        ]
    );
    assert_eq!(q.total_len(), 30 - 7);
}

#[test]
fn api_is_not_starved_by_network_flood() {
    let mut q: EventQueues<u32> = EventQueues::new();
    for i in 0..100u32 {
        q.push(QueueKind::Network, i);
    }
    q.push(QueueKind::Api, 7);
    let mut served_at = None;
    for n in 0..7 {
        if q.pop().unwrap().0 == QueueKind::Api {
            served_at = Some(n);
            break;
        }
    }
    assert_eq!(served_at, Some(2));
}

#[test]
fn lone_queue_is_served_every_time() {
    let mut q: EventQueues<u32> = EventQueues::new();
    q.push(QueueKind::Regular, 5);
    q.push(QueueKind::Regular, 6);
    assert_eq!(q.pop(), Some((QueueKind::Regular, 5)));
    assert_eq!(q.pop(), Some((QueueKind::Regular, 6)));
    assert_eq!(q.len_of(QueueKind::Regular), 0);
}

#[test]
fn responder_delivers_exactly_once() {
    let mut ex: Exchange<u32> = Exchange::new();
    let r = ex.open();
    let t = r.id();
    assert_eq!(ex.outcome(t), Some(&Delivery::Pending));
    assert_eq!(ex.respond(r, 42), Ok(()));
    assert_eq!(ex.outcome(t), Some(&Delivery::Fulfilled(42)));
    ex.close_all();
    assert_eq!(ex.outcome(t), Some(&Delivery::Fulfilled(42)));
    assert_eq!(ex.outcome(t + 1), None);
}

#[test]
fn dropped_responder_disconnects_and_refuses_fulfillment() {
    let mut ex: Exchange<u32> = Exchange::new();
    let first = ex.open();
    let t = first.id();
    ex.disconnect(first);
    assert_eq!(ex.outcome(t), Some(&Delivery::Disconnected));
    let mut other: Exchange<u32> = Exchange::new();
    let again = other.open();
    assert_eq!(again.id(), t);
    assert_eq!(ex.respond(again, 1), Err(RespondError::AlreadyResolved));
    assert_eq!(ex.outcome(t), Some(&Delivery::Disconnected));
}

#[test]
fn responder_from_elsewhere_is_unknown() {
    let mut ex: Exchange<u32> = Exchange::new();
    let mut other: Exchange<u32> = Exchange::new();
    let r = other.open();
    assert_eq!(ex.respond(r, 1), Err(RespondError::UnknownResponder));
    assert_eq!(ex.len(), 0);
}

#[test]
fn store_reports_absent_ids() {
    let mut s = Store::new();
    assert_eq!(s.get(7), None);
    assert!(s.put(block(3)));
    assert_eq!(s.get(7), None);
    assert_eq!(s.get_header(7), None);
    assert!(!s.contains(7));
}

#[test]
fn store_round_trip_and_first_write_wins() {
    let mut s = Store::new();
    assert!(s.put(block(3)));
    assert_eq!(s.get(3), Some(block(3)));
    assert_eq!(s.get_header(3), Some(vec![1, 2, 3]));
    let other = StoredValue::new(3, vec![0], vec![0]);
    assert!(!s.put(other));
    assert_eq!(s.get(3), Some(block(3)));
    assert_eq!(s.len(), 1);
}

#[test]
fn stored_value_accessors() {
    let v = block(4);
    assert_eq!(v.id(), 4);
    assert_eq!(v.header(), vec![1, 2, 4]);
    assert_eq!(v.duplicate(), v);
}

#[test]
fn put_block_then_get_block_through_reactor() {
    let mut reactor: Reactor<u64, Vec<u8>> = Reactor::new();
    let b = block(11);
    let put = reactor.make_request(
        |responder| Event::Storage(StorageRequest::PutBlock { block: b, responder }),
        QueueKind::Regular,
    );
    assert_eq!(reactor.queue_depth(QueueKind::Regular), 1);
    assert_eq!(reactor.outcome(put), Some(&Delivery::Pending));
    assert!(matches!(reactor.dispatch_next(), Dispatched::Storage));
    assert_eq!(reactor.outcome(put), Some(&Delivery::Fulfilled(Reply::Stored(true))));

    let get = reactor.make_request(
        |responder| Event::Storage(StorageRequest::GetBlock { block_hash: 11, responder }),
        QueueKind::Regular,
    );
    reactor.dispatch_next();
    assert_eq!(reactor.outcome(get), Some(&Delivery::Fulfilled(Reply::Value(Some(block(11))))));

    let missing = reactor.make_request(
        |responder| Event::Storage(StorageRequest::GetBlock { block_hash: 99, responder }),
        QueueKind::Regular,
    );
    reactor.dispatch_next();
    assert_eq!(reactor.outcome(missing), Some(&Delivery::Fulfilled(Reply::Value(None))));

    let header = reactor.make_request(
        |responder| Event::Storage(StorageRequest::GetBlockHeader { block_hash: 11, responder }),
        QueueKind::Regular,
    );
    reactor.dispatch_next();
    assert_eq!(reactor.outcome(header), Some(&Delivery::Fulfilled(Reply::Header(Some(vec![1, 2, 11])))));
    assert!(matches!(reactor.dispatch_next(), Dispatched::Idle));
}

#[test]
fn deploys_live_apart_from_blocks() {
    let mut reactor: Reactor<u64, Vec<u8>> = Reactor::new();
    let d = block(5);
    let put = reactor.make_request(
        |responder| Event::Storage(StorageRequest::PutDeploy { deploy: d, responder }),
        QueueKind::Regular,
    );
    let get_block = reactor.make_request(
        |responder| Event::Storage(StorageRequest::GetBlock { block_hash: 5, responder }),
        QueueKind::Regular,
    );
    let get_deploy = reactor.make_request(
        |responder| Event::Storage(StorageRequest::GetDeploy { deploy_hash: 5, responder }),
        QueueKind::Regular,
    );
    let header = reactor.make_request(
        |responder| Event::Storage(StorageRequest::GetDeployHeader { deploy_hash: 5, responder }),
        QueueKind::Regular,
    );
    for _ in 0..4 {
        reactor.dispatch_next();
    }
    assert_eq!(reactor.outcome(put), Some(&Delivery::Fulfilled(Reply::Stored(true))));
    assert_eq!(reactor.outcome(get_block), Some(&Delivery::Fulfilled(Reply::Value(None))));
    assert_eq!(reactor.outcome(get_deploy), Some(&Delivery::Fulfilled(Reply::Value(Some(block(5))))));
    assert_eq!(reactor.outcome(header), Some(&Delivery::Fulfilled(Reply::Header(Some(vec![1, 2, 5])))));
}

#[test]
fn network_request_is_routed_to_network_component() {
    let mut reactor: Reactor<u64, Vec<u8>> = Reactor::new();
    let t = reactor.make_request(
        |responder| Event::Network(NetworkRequest::SendMessage { dest: 8, payload: vec![1], responder }),
        QueueKind::Network,
    );
    match reactor.dispatch_next() {
        Dispatched::Network(NetworkRequest::SendMessage { dest, payload, responder }) => {
            assert_eq!(dest, 8);
            assert_eq!(payload, vec![1]);
            assert_eq!(reactor.respond(responder, Reply::Sent), Ok(()));
        }
        other => panic!("unexpected dispatch {:?}", other),
    }
    assert_eq!(reactor.outcome(t), Some(&Delivery::Fulfilled(Reply::Sent)));
}

#[test]
fn handler_dropping_responder_disconnects_waiter() {
    let mut reactor: Reactor<u64, Vec<u8>> = Reactor::new();
    let t = reactor.make_request(|responder| Event::Rest(RestRequest::GetMetrics { responder }), QueueKind::Api);
    match reactor.dispatch_next() {
        Dispatched::Rest(RestRequest::GetMetrics { responder }) => reactor.disconnect(responder),
        other => panic!("unexpected dispatch {:?}", other),
    }
    assert_eq!(reactor.outcome(t), Some(&Delivery::Disconnected));
}

#[test]
fn shutdown_disconnects_every_pending_responder() {
    let mut reactor: Reactor<u64, Vec<u8>> = Reactor::new();
    let a = reactor.make_request(|responder| Event::Rest(RestRequest::GetStatus { responder }), QueueKind::Api);
    let b = reactor.make_request(
        |responder| Event::Network(NetworkRequest::BroadcastMessage { payload: vec![2], responder }),
        QueueKind::Network,
    );
    reactor.shutdown();
    assert_eq!(reactor.state(), ReactorState::Shutdown);
    assert_eq!(reactor.outcome(a), Some(&Delivery::Disconnected));
    assert_eq!(reactor.outcome(b), Some(&Delivery::Disconnected));
}

#[test]
fn map_payload_keeps_destination_and_responder() {
    let mut ex: Exchange<u32> = Exchange::new();
    ex.open();
    let r = ex.open();
    let req: NetworkRequest<u64, u32> = NetworkRequest::SendMessage { dest: 4, payload: 20, responder: r };
    match req.map_payload(|p| vec![p as u8, 0]) {
        NetworkRequest::SendMessage { dest, payload, responder } => {
            assert_eq!(dest, 4);
            assert_eq!(payload, vec![20, 0]);
            assert_eq!(responder.id(), 1);
        }
        _ => panic!("variant changed"),
    }
    let r2 = ex.open();
    let b: NetworkRequest<u64, u32> = NetworkRequest::BroadcastMessage { payload: 3, responder: r2 };
    match b.map_payload(|p| p + 1) {
        NetworkRequest::BroadcastMessage { payload, responder } => {
            assert_eq!(payload, 4);
            assert_eq!(responder.id(), 2);
        }
        _ => panic!("variant changed"),
    }
}

#[test]
fn storage_request_descriptions() {
    let mut ex: Exchange<u32> = Exchange::new();
    let put = StorageRequest::PutBlock { block: block(120), responder: ex.open() };
    assert_eq!(put.describe(), "put 120");
    let get = StorageRequest::GetDeployHeader { deploy_hash: 0, responder: ex.open() };
    assert_eq!(get.describe(), "get 0");
    let get = StorageRequest::GetBlock { block_hash: u64::MAX, responder: ex.open() };
    assert_eq!(get.describe(), "get 18446744073709551615");
}

#[test]
fn status_endpoint_reports_protocol_version() {
    let feed = StatusFeed { peer_count: 3, last_added_block_height: Some(42) };
    let reply = status_reply(feed, ProtocolVersion { major: 1, minor: 4, patch: 13 });
    assert_eq!(reply.status, 200);
    assert_eq!(reply.kind, BodyKind::Json);
    assert_eq!(
        String::from_utf8(reply.body).unwrap(),
        "{\"api_version\":\"1.4.13\",\"peer_count\":3,\"last_added_block_height\":42}"
    );
    let empty = status_reply(
        StatusFeed { peer_count: 0, last_added_block_height: None },
        ProtocolVersion { major: 2, minor: 0, patch: 0 },
    );
    assert_eq!(
        String::from_utf8(empty.body).unwrap(),
        "{\"api_version\":\"2.0.0\",\"peer_count\":0,\"last_added_block_height\":null}"
    );
}

#[test]
fn metrics_endpoint_without_metrics_is_server_error() {
    let reply = metrics_reply(None);
    assert_eq!(reply.status, 500);
    assert_eq!(reply.body, b"metrics not available".to_vec());
    let ok = metrics_reply(Some(b"peers 3".to_vec()));
    assert_eq!(ok.status, 200);
    assert_eq!(ok.body, b"peers 3".to_vec());
}

#[test]
fn schema_and_chainspec_replies() {
    let s = rpc_schema_reply(b"{}".to_vec());
    assert_eq!((s.status, s.kind, s.body), (200, BodyKind::Json, b"{}".to_vec()));
    let c = chainspec_reply(vec![0, 1]);
    assert_eq!((c.status, c.kind, c.body), (200, BodyKind::Binary, vec![0, 1]));
}

#[test]
fn reactor_phase_transitions() {
    assert_eq!(step(ReactorState::Idle, Signal::EventQueued), ReactorState::Dispatching);
    assert_eq!(step(ReactorState::Dispatching, Signal::HandlerReturned), ReactorState::AwaitingEffects);
    assert_eq!(
        step(ReactorState::AwaitingEffects, Signal::EffectsCompleted { pending: 0, queued: false }),
        ReactorState::Idle
    );
    assert_eq!(
        step(ReactorState::AwaitingEffects, Signal::EffectsCompleted { pending: 2, queued: false }),
        ReactorState::AwaitingEffects
    );
    assert_eq!(
        step(ReactorState::AwaitingEffects, Signal::EffectsCompleted { pending: 1, queued: true }),
        ReactorState::Dispatching
    );
    assert_eq!(step(ReactorState::Dispatching, Signal::Stop), ReactorState::Shutdown);
    assert_eq!(step(ReactorState::Shutdown, Signal::EventQueued), ReactorState::Shutdown);
    let mut reactor: Reactor<u64, Vec<u8>> = Reactor::new();
    reactor.signal(Signal::EventQueued);
    assert_eq!(reactor.state(), ReactorState::Dispatching);
}

#[test]
fn network_request_descriptions() {
    let mut ex: Exchange<u32> = Exchange::new();
    let send: NetworkRequest<u64, StoredValue> =
        NetworkRequest::SendMessage { dest: 17, payload: block(250), responder: ex.open() };
    assert_eq!(send.describe(), "send to 17: 250");
    let all: NetworkRequest<u64, u64> = NetworkRequest::BroadcastMessage { payload: 9, responder: ex.open() };
    assert_eq!(all.describe(), "broadcast: 9");
}
