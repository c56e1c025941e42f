use warp_app::sync_ids::{ClientId, HashableId, ServerId, SyncId};

#[test]
fn server_id_of_22_characters_is_kept() {
    let id = ServerId::from_string_lossy("abcdefghijklmnopqrstuv");
    assert_eq!(id.uid(), "abcdefghijklmnopqrstuv");
}

#[test]
fn short_server_id_is_left_padded_with_zeros() {
    let id = ServerId::from_string_lossy("123");
    assert_eq!(id.uid(), "0000000000000000000123");
}

#[test]
fn long_server_id_keeps_its_last_22_bytes() {
    let id = ServerId::from_string_lossy("xxxxabcdefghijklmnopqrstuv");
    assert_eq!(id.uid(), "abcdefghijklmnopqrstuv");
}

#[test]
fn server_id_with_wide_characters_counts_bytes() {
    // 21 ASCII characters and one two-byte character: 22 characters, kept as they are.
    let id = ServerId::from_string_lossy("aaaaaaaaaaaaaaaaaaaaaé");
    assert_eq!(id.uid(), "aaaaaaaaaaaaaaaaaaaaaé");
    // 10 two-byte characters take 20 bytes: padded to 22 characters.
    let id = ServerId::from_string_lossy("éééééééééé");
    assert_eq!(id.uid(), "000000000000éééééééééé");
    // 12 two-byte characters take 24 bytes: the last 22 bytes are 11 characters.
    let id = ServerId::from_string_lossy("éééééééééééé");
    assert_eq!(id.uid(), "00000000000ééééééééééé");
}

#[test]
fn try_from_str_needs_22_characters() {
    assert!(ServerId::try_from_str("short").is_err());
    assert!(ServerId::try_from_str("abcdefghijklmnopqrstuv").is_ok());
}

#[test]
fn client_id_text_round_trips() {
    let id = ClientId::new();
    let text = id.to_hash();
    assert!(text.starts_with("Client-"));
    assert_eq!(text.len(), 43);
    assert_eq!(ClientId::from_hash(&text), Some(id));
    assert_eq!(id.sqlite_hash(), text);
}

#[test]
fn client_id_text_is_lower_case_hyphenated_uuid() {
    let id = ClientId([
        0x55, 0x0e, 0x84, 0x00, 0xe2, 0x9b, 0x41, 0xd4, 0xa7, 0x16, 0x44, 0x66, 0x55, 0x44, 0x00,
        0x00,
    ]);
    assert_eq!(id.to_text(), "Client-550e8400-e29b-41d4-a716-446655440000");
}

#[test]
fn client_id_from_hash_rejects_other_text() {
    assert_eq!(ClientId::from_hash("550e8400-e29b-41d4-a716-446655440000"), None);
    assert_eq!(ClientId::from_hash("Client-not-a-uuid"), None);
    assert_eq!(ClientId::from_hash("Cl"), None);
}

#[test]
fn client_id_from_text_falls_back_to_new_id() {
    let known = ClientId::from_text_or_new("Client-550e8400-e29b-41d4-a716-446655440000");
    assert_eq!(known.to_text(), "Client-550e8400-e29b-41d4-a716-446655440000");
    let fresh = ClientId::from_text_or_new("garbage");
    assert!(fresh.to_text().starts_with("Client-"));
}

#[test]
fn sync_id_serialization_round_trips() {
    let client = SyncId::ClientId(ClientId::new());
    assert_eq!(SyncId::from_serialized_text(&client.serialized_text()), client);
    let server = SyncId::from_server_id(ServerId::from_string_lossy("abcdefghijklmnopqrstuv"));
    assert_eq!(SyncId::from_serialized_text(&server.serialized_text()), server);
}

#[test]
fn sync_id_deserializes_other_text_as_server_id() {
    let id = SyncId::from_serialized_text("42");
    assert_eq!(id.uid(), "0000000000000000000042");
    assert!(id.into_client().is_none());
    assert_eq!(id.into_server().unwrap().uid(), "0000000000000000000042");
}

#[test]
fn sync_id_into_client_and_server() {
    let c = ClientId::new();
    let id = SyncId::ClientId(c);
    assert_eq!(id.into_client(), Some(c));
    assert_eq!(id.into_server(), None);
    assert_eq!(id.uid(), c.to_text());
}

#[test]
fn new_client_ids_are_random_v4_uuids() {
    let a = ClientId::new();
    let b = ClientId::default();
    assert_ne!(a, b);
    for id in [a, b] {
        assert_eq!(id.0[6] & 0xf0, 0x40);
        assert_eq!(id.0[8] & 0xc0, 0x80);
    }
}
