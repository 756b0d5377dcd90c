use peer_sync::clipboard_monitor::{ClipboardMonitor, ClipboardRead, PollAction};
use peer_sync::commands::{
    create_gossip_ticket, join_gossip, stored_topic, ConfigValue,
};
use peer_sync::fs_watcher::{handle_watcher, FsEventType, WatchKind, WatchMessage};
use peer_sync::gossip_ops::{
    announce_imported, handle_fs_payload, on_gossip_event, FsAction, GossipEvent, IgnoreReason,
    ReceiveAction,
};
use peer_sync::ids::{NodeAddress, NodeId};
use peer_sync::messages::Inbound;
use peer_sync::setup::{setup, KeyOrigin};
use peer_sync::state::AppState;
use peer_sync::tickets::GossipTicket;
use peer_sync::topic::topic_text;

fn id(b: u8) -> NodeId {
    NodeId::from_bytes([b; 32])
}

fn addr(b: u8) -> NodeAddress {
    NodeAddress { node_id: id(b), relay_url: None, direct_addresses: vec![] }
}

/// Peer A with its own ticket joined, and peer B joined to A's ticket.
fn two_peers() -> (AppState, AppState) {
    let mut a = AppState::started(id(0xa), "/tmp/a".to_string(), true);
    let mut b = AppState::started(id(0xb), "/tmp/b".to_string(), true);
    let topic = create_gossip_ticket(&a, &ConfigValue::Missing).unwrap();
    let ticket = GossipTicket::for_local(topic, addr(0xa));
    let plan_a = join_gossip(&a, Ok(ticket.clone())).unwrap();
    assert!(plan_a.peers.is_empty());
    a.record_join(plan_a.topic);
    let plan_b = join_gossip(&b, Ok(ticket)).unwrap();
    assert_eq!(plan_b.node_ids, vec![id(0xa)]);
    b.record_join(plan_b.topic);
    assert_eq!(a.gossip_topic(), b.gossip_topic());
    (a, b)
}

#[test]
fn file_created_on_one_peer_is_fetched_by_the_other() {
    let (a, b) = two_peers();
    let msg = WatchMessage::Event {
        kind: WatchKind::Create,
        paths: vec!["/tmp/a/docs/hello.txt".to_string()],
    };
    let event = handle_watcher(&msg, true);
    let path = match handle_fs_payload(&a, &event) {
        FsAction::Import { path } => path,
        other => panic!("unexpected action {:?}", other),
    };
    let announced = announce_imported(&a, &path, "ticket-of-hi".to_string()).unwrap();
    assert_eq!(announced.from, id(0xa));

    let received = GossipEvent::Received(Inbound::File(announced.clone()));
    match on_gossip_event(&b, false, received.clone()) {
        ReceiveAction::Download { payload } => {
            assert_eq!(payload.relative_path, "docs/hello.txt");
            assert_eq!(payload.file_name, "hello.txt");
            assert_eq!(payload.message_content, "ticket-of-hi");
        }
        other => panic!("unexpected action {:?}", other),
    }
    assert_eq!(on_gossip_event(&a, false, received), ReceiveAction::Ignore(IgnoreReason::SelfSent));
}

#[test]
fn deleting_a_file_announces_nothing() {
    let (a, _) = two_peers();
    let msg = WatchMessage::Event {
        kind: WatchKind::Remove,
        paths: vec!["/tmp/a/a/b.txt".to_string()],
    };
    let event = handle_watcher(&msg, false);
    assert_eq!(event.event_type, FsEventType::Remove);
    assert_eq!(
        handle_fs_payload(&a, &event),
        FsAction::LogRemoval { path: "/tmp/a/a/b.txt".to_string() }
    );
}

#[test]
fn clipboard_text_is_mirrored_and_not_sent_back() {
    let (a, b) = two_peers();
    let monitor_a = ClipboardMonitor::new();
    let mut monitor_b = ClipboardMonitor::new();

    let payload = match monitor_a.start_monitoring(&a, true, ClipboardRead::Text("abc".into())) {
        PollAction::Broadcast { topic, payload } => {
            assert_eq!(Some(topic), a.gossip_topic());
            payload
        }
        other => panic!("unexpected action {:?}", other),
    };
    let received = GossipEvent::Received(Inbound::Clipboard(payload));
    let content = match on_gossip_event(&b, true, received.clone()) {
        ReceiveAction::ApplyClipboard { content } => content,
        other => panic!("unexpected action {:?}", other),
    };
    assert_eq!(content, "abc");
    monitor_b.set_local_clipboard_content(content, true);
    assert_eq!(
        monitor_b.start_monitoring(&b, true, ClipboardRead::Text("abc".into())),
        PollAction::Skip
    );
    assert_eq!(on_gossip_event(&a, true, received), ReceiveAction::Ignore(IgnoreReason::SelfSent));
}

#[test]
fn identical_clipboard_content_stays_quiet() {
    let (a, _) = two_peers();
    let mut monitor = ClipboardMonitor::new();
    monitor.broadcast_finished("abc".to_string(), true);
    for _ in 0..3 {
        assert_eq!(
            monitor.start_monitoring(&a, true, ClipboardRead::Text("abc".into())),
            PollAction::Skip
        );
    }
}

#[test]
fn joined_topic_survives_restart() {
    let (_, b) = two_peers();
    let persisted = ConfigValue::Text(topic_text(&b.gossip_topic().unwrap()));
    let restarted = AppState::started(id(0xb), "/tmp/b".to_string(), true);
    assert_eq!(restarted.gossip_topic(), None);
    assert_eq!(stored_topic(&persisted), b.gossip_topic());
    assert_eq!(create_gossip_ticket(&restarted, &persisted).ok(), b.gossip_topic());
}

#[test]
fn created_topic_survives_restart() {
    let a = AppState::started(id(0xa), "/tmp/a".to_string(), true);
    let first = create_gossip_ticket(&a, &ConfigValue::Missing).unwrap();
    let persisted = ConfigValue::Text(topic_text(&first));
    let restarted = AppState::started(id(0xa), "/tmp/a".to_string(), true);
    assert_eq!(create_gossip_ticket(&restarted, &persisted), Ok(first));
}

#[test]
fn file_written_before_a_join_is_not_announced_later() {
    let mut a = AppState::started(id(0xa), "/tmp/a".to_string(), true);
    let early = announce_imported(&a, "/tmp/a/x", "ticket-of-1".to_string());
    assert!(early.is_err());
    let topic = create_gossip_ticket(&a, &ConfigValue::Missing).unwrap();
    let plan = join_gossip(&a, Ok(GossipTicket::for_local(topic, addr(0xa)))).unwrap();
    a.record_join(plan.topic);
    assert!(plan.peers.is_empty() && plan.node_ids.is_empty());
}

#[test]
fn identity_is_stable_over_two_cold_starts() {
    let first = setup(None).unwrap();
    assert_eq!(first.origin, KeyOrigin::Generated);
    let key_file = first.key.to_vec();
    let second = setup(Some(&key_file)).unwrap();
    let third = setup(Some(&key_file)).unwrap();
    assert_eq!(second.key, third.key);
    assert_eq!(second.key, first.key);
}
