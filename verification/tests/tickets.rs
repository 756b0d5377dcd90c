use peer_sync::commands::{
    choose_topic, create_gossip_ticket, create_ticket, disable_clipboard_sharing,
    enable_clipboard_sharing, get_blob, get_node_info, handle_setup,
    is_clipboard_sharing_enabled, join_gossip, join_iroh_gossip, stored_topic, ConfigValue,
};
use peer_sync::errors::{CommandError, Component, IrohError};
use peer_sync::gossip_ops::{node_ids_of, remote_peers};
use peer_sync::ids::{bytes32_eq, NodeAddress, NodeId, Topic};
use peer_sync::setup::{resolve_secret_key, secret_key_from_file, setup, KeyOrigin};
use peer_sync::state::AppState;
use peer_sync::tickets::{
    decode_ticket_text, encode_ticket_text, ticket_text, GossipTicket, TicketError,
};
use peer_sync::topic::{parse_topic, topic_text};

fn id(b: u8) -> NodeId {
    NodeId::from_bytes([b; 32])
}

fn addr(b: u8) -> NodeAddress {
    NodeAddress {
        node_id: id(b),
        relay_url: Some("https://relay.example".to_string()),
        direct_addresses: vec!["127.0.0.1:4000".to_string()],
    }
}

#[test]
fn ticket_text_is_lowercase_unpadded_base32() {
    assert_eq!(encode_ticket_text(b"hello"), "nbswy3dp");
    assert_eq!(encode_ticket_text(b"f"), "my");
    assert_eq!(encode_ticket_text(b""), "");
}

#[test]
fn ticket_text_reads_back_in_either_case() {
    assert_eq!(decode_ticket_text("nbswy3dp"), Ok(b"hello".to_vec()));
    assert_eq!(decode_ticket_text("NBSWY3DP"), Ok(b"hello".to_vec()));
    assert_eq!(decode_ticket_text("NbSwY3dP"), Ok(b"hello".to_vec()));
    assert_eq!(decode_ticket_text(""), Ok(vec![]));
}

#[test]
fn ticket_text_round_trips() {
    let json = br#"{"topic":[1,2,3],"nodes":[]}"#;
    let text = encode_ticket_text(json);
    assert_eq!(decode_ticket_text(&text), Ok(json.to_vec()));
}

#[test]
fn ticket_text_of_short_bytes_is_given() {
    assert_eq!(ticket_text(b"hello"), Ok("nbswy3dp".to_string()));
    assert_eq!(ticket_text(&[0xff, 0x00]), Ok("74aa".to_string()));
}

#[test]
fn malformed_ticket_text_is_rejected() {
    assert_eq!(decode_ticket_text("not a ticket!"), Err(TicketError::Malformed));
    assert_eq!(decode_ticket_text("nbswy3d="), Err(TicketError::Malformed));
    assert_eq!(decode_ticket_text("a"), Err(TicketError::Malformed));
    assert_eq!(decode_ticket_text("1"), Err(TicketError::Malformed));
}

#[test]
fn topic_text_is_lowercase_hex() {
    let mut bytes = [0u8; 32];
    bytes[0] = 0x01;
    bytes[1] = 0xab;
    bytes[31] = 0xf0;
    let text = topic_text(&Topic::from_bytes(bytes));
    assert_eq!(text.len(), 64);
    assert_eq!(&text[..4], "01ab");
    assert_eq!(&text[62..], "f0");
    assert_eq!(&text[4..62], "0".repeat(58));
}

#[test]
fn topic_text_reads_back() {
    let t = Topic::from_bytes([0x7e; 32]);
    let text = topic_text(&t);
    assert_eq!(text, "7e".repeat(32));
    assert_eq!(parse_topic(&text), Some(t));
    assert_eq!(parse_topic(&"7E".repeat(32)), Some(t));
    assert_eq!(parse_topic(&"A0".repeat(32)), Some(Topic::from_bytes([0xa0; 32])));
}

#[test]
fn text_of_other_shape_is_no_topic() {
    assert_eq!(parse_topic("7e7e"), None);
    assert_eq!(parse_topic(""), None);
    assert_eq!(parse_topic(&"7".repeat(63)), None);
    assert_eq!(parse_topic(&"7".repeat(65)), None);
    assert_eq!(parse_topic(&"7e".repeat(33)), None);
    assert_eq!(parse_topic(&"g0".repeat(32)), None);
    assert_eq!(parse_topic(&"\u{e9}".repeat(32)), None);
    assert_eq!(parse_topic(&"\u{e9}".repeat(64)), None);
}

#[test]
fn stored_topic_is_reused() {
    let t = Topic::from_bytes([7; 32]);
    let stored = ConfigValue::Text(topic_text(&t));
    assert_eq!(stored_topic(&stored), Some(t));
    assert_eq!(choose_topic(&stored, Topic::from_bytes([8; 32])), t);
    let s = AppState::started(id(1), "/tmp/a".to_string(), true);
    assert_eq!(create_gossip_ticket(&s, &stored), Ok(t));
    assert_eq!(create_gossip_ticket(&s, &stored), Ok(t));
}

#[test]
fn unreadable_stored_topic_is_replaced() {
    let fresh = Topic::from_bytes([8; 32]);
    assert_eq!(choose_topic(&ConfigValue::Missing, fresh), fresh);
    assert_eq!(choose_topic(&ConfigValue::Text("junk".to_string()), fresh), fresh);
    assert_eq!(choose_topic(&ConfigValue::Bool(true), fresh), fresh);
    assert_eq!(choose_topic(&ConfigValue::Other, fresh), fresh);
    let s = AppState::started(id(1), "/tmp/a".to_string(), true);
    assert!(create_gossip_ticket(&s, &ConfigValue::Missing).is_ok());
}

#[test]
fn ticket_needs_an_endpoint() {
    let s = AppState::unset("/tmp/a".to_string());
    assert_eq!(
        create_gossip_ticket(&s, &ConfigValue::Missing),
        Err(CommandError::IrohClientNotInitialized(Component::Endpoint))
    );
}

#[test]
fn local_ticket_names_the_local_node_only() {
    let t = GossipTicket::for_local(Topic::from_bytes([7; 32]), addr(1));
    assert_eq!(t.topic, Topic::from_bytes([7; 32]));
    assert_eq!(t.nodes, vec![addr(1)]);
}

#[test]
fn join_drops_the_local_node_and_keeps_order() {
    let ticket = GossipTicket {
        topic: Topic::from_bytes([7; 32]),
        nodes: vec![addr(3), addr(1), addr(2), addr(1), addr(4)],
    };
    let plan = join_iroh_gossip(&id(1), ticket);
    assert_eq!(plan.topic, Topic::from_bytes([7; 32]));
    assert_eq!(plan.peers, vec![addr(3), addr(2), addr(4)]);
    assert_eq!(plan.node_ids, vec![id(3), id(2), id(4)]);
}

#[test]
fn join_of_own_ticket_has_no_peers() {
    let ticket = GossipTicket::for_local(Topic::from_bytes([7; 32]), addr(1));
    let plan = join_iroh_gossip(&id(1), ticket);
    assert!(plan.peers.is_empty());
    assert!(plan.node_ids.is_empty());
    assert_eq!(remote_peers(vec![], &id(1)), vec![]);
    assert_eq!(node_ids_of(&vec![addr(5)]), vec![id(5)]);
}

#[test]
fn join_checks_handles_and_ticket_in_order() {
    let ticket = || GossipTicket { topic: Topic::from_bytes([7; 32]), nodes: vec![addr(2)] };
    let unset = AppState::unset("/tmp/a".to_string());
    assert_eq!(
        join_gossip(&unset, Err(TicketError::Malformed)),
        Err(CommandError::IrohClientNotInitialized(Component::Endpoint))
    );
    let no_gossip = AppState::with_handles(Some(id(1)), true, false, "/r".to_string(), true);
    assert_eq!(
        join_gossip(&no_gossip, Ok(ticket())),
        Err(CommandError::IrohClientNotInitialized(Component::Gossip))
    );
    let started = AppState::started(id(1), "/r".to_string(), true);
    assert_eq!(
        join_gossip(&started, Err(TicketError::Malformed)),
        Err(CommandError::TicketParseError(TicketError::Malformed))
    );
    let no_blobs = AppState::with_handles(Some(id(1)), false, true, "/r".to_string(), true);
    assert_eq!(
        join_gossip(&no_blobs, Ok(ticket())),
        Err(CommandError::IrohClientNotInitialized(Component::Blobs))
    );
    let plan = join_gossip(&started, Ok(ticket())).unwrap();
    assert_eq!(plan.topic, Topic::from_bytes([7; 32]));
    assert_eq!(plan.node_ids, vec![id(2)]);
}

#[test]
fn join_sets_topic_and_sender_together() {
    let mut s = AppState::started(id(1), "/r".to_string(), true);
    assert_eq!(s.gossip_topic(), None);
    assert!(!s.sender_ready());
    s.record_join(Topic::from_bytes([7; 32]));
    assert_eq!(s.gossip_topic(), Some(Topic::from_bytes([7; 32])));
    assert!(s.sender_ready());
    assert_eq!(s.local_node_id(), Some(id(1)));
    assert_eq!(s.sync_folder(), "/r");
    assert!(s.blobs_ready() && s.gossip_ready() && s.monitor_ready());
}

#[test]
fn joined_topic_is_the_persisted_topic() {
    let t = Topic::from_bytes([5; 32]);
    let started = AppState::started(id(2), "/tmp/b".to_string(), true);
    let plan = join_gossip(&started, Ok(GossipTicket::for_local(t, addr(1)))).unwrap();
    let persisted = ConfigValue::Text(topic_text(&plan.topic));
    assert_eq!(stored_topic(&persisted), Some(t));
}

#[test]
fn secret_key_file_must_hold_32_bytes() {
    assert_eq!(secret_key_from_file(&[3u8; 32]), Ok([3u8; 32]));
    assert_eq!(
        secret_key_from_file(&[3u8; 31]),
        Err(IrohError::SecretKeySize { found: 31 })
    );
    assert_eq!(
        secret_key_from_file(&[3u8; 33]),
        Err(IrohError::SecretKeySize { found: 33 })
    );
    assert_eq!(secret_key_from_file(&[]), Err(IrohError::SecretKeySize { found: 0 }));
}

#[test]
fn bad_size_key_file_is_not_regenerated() {
    let short = [3u8; 31];
    assert_eq!(setup(Some(&short)), Err(IrohError::SecretKeySize { found: 31 }));
    assert_eq!(
        resolve_secret_key(Some(&short), [4u8; 32]),
        Err(IrohError::SecretKeySize { found: 31 })
    );
}

#[test]
fn identity_survives_restart() {
    let first = setup(None).unwrap();
    assert_eq!(first.origin, KeyOrigin::Generated);
    let file = first.key.to_vec();
    let second = setup(Some(&file)).unwrap();
    assert_eq!(second.origin, KeyOrigin::Loaded);
    assert_eq!(second.key, first.key);
    let third = setup(Some(&file)).unwrap();
    assert_eq!(third.key, first.key);
}

#[test]
fn missing_key_file_uses_fresh_key() {
    let plan = resolve_secret_key(None, [4u8; 32]).unwrap();
    assert_eq!(plan.key, [4u8; 32]);
    assert_eq!(plan.origin, KeyOrigin::Generated);
}

#[test]
fn generated_keys_differ() {
    let a = setup(None).unwrap();
    let b = setup(None).unwrap();
    assert_ne!(a.key, b.key);
}

#[test]
fn clipboard_preference_defaults_to_off() {
    assert!(!is_clipboard_sharing_enabled(&ConfigValue::Missing));
    assert!(!is_clipboard_sharing_enabled(&ConfigValue::Other));
    assert!(!is_clipboard_sharing_enabled(&ConfigValue::Text("true".to_string())));
    assert!(!is_clipboard_sharing_enabled(&ConfigValue::Bool(false)));
    assert!(is_clipboard_sharing_enabled(&ConfigValue::Bool(true)));
    assert!(is_clipboard_sharing_enabled(&enable_clipboard_sharing()));
    assert!(!is_clipboard_sharing_enabled(&disable_clipboard_sharing()));
}

#[test]
fn sync_folder_comes_from_the_store() {
    assert_eq!(handle_setup(&ConfigValue::Text("/tmp/a".to_string())), Ok("/tmp/a".to_string()));
    assert_eq!(handle_setup(&ConfigValue::Missing), Err(CommandError::StoreError));
    assert_eq!(handle_setup(&ConfigValue::Bool(true)), Err(CommandError::InitializationError));
    assert_eq!(handle_setup(&ConfigValue::Other), Err(CommandError::InitializationError));
}

#[test]
fn blob_commands_need_their_handles() {
    let unset = AppState::unset("/r".to_string());
    let started = AppState::started(id(1), "/r".to_string(), false);
    let no_endpoint = AppState::with_handles(None, true, true, "/r".to_string(), false);
    assert_eq!(get_blob(&started), Ok(()));
    assert_eq!(get_blob(&unset), Err(CommandError::IrohClientNotInitialized(Component::Blobs)));
    assert_eq!(create_ticket(&started, true), Ok(()));
    assert_eq!(create_ticket(&started, false), Err(CommandError::PathError));
    assert_eq!(create_ticket(&unset, false), Err(CommandError::PathError));
    assert_eq!(
        create_ticket(&unset, true),
        Err(CommandError::IrohClientNotInitialized(Component::Blobs))
    );
    assert_eq!(
        create_ticket(&no_endpoint, true),
        Err(CommandError::IrohClientNotInitialized(Component::Endpoint))
    );
}

#[test]
fn node_info_reports_the_endpoint_identity() {
    assert_eq!(get_node_info(&AppState::unset("/r".to_string())).node_id, None);
    let s = AppState::started(id(1), "/r".to_string(), false);
    assert_eq!(get_node_info(&s).node_id, Some(id(1)));
    assert_eq!(get_node_info(&s).node_id, get_node_info(&s).node_id);
}

#[test]
fn identifiers_compare_by_bytes() {
    assert!(id(1).same(&id(1)));
    assert!(!id(1).same(&id(2)));
    let mut other = [1u8; 32];
    other[31] = 0;
    assert!(!bytes32_eq(&[1u8; 32], &other));
    assert!(bytes32_eq(&other, &other));
    assert!(Topic::from_bytes([1; 32]).same(&Topic::from_bytes([1; 32])));
    assert!(!Topic::from_bytes([1; 32]).same(&Topic::from_bytes(other)));
    assert_eq!(CommandError::from_iroh(IrohError::RandomSource),
        CommandError::IrohError(IrohError::RandomSource));
}
