use chessagon::auth::{format_time, parse_time, Auth, AuthData, AuthInfo, AuthMetadata, GRACE_PERIOD};
use chessagon::db::{random_string, BucketInfo, Data, KeySearch, MetaError, Metadata};
use chessagon::meta::MetaMap;
use chessagon::poll::Killable;
use chessagon::room::{PeerMetadata, Room, RoomInfo, RoomMetadata};
use chessagon::text::{join, split_joined, starts_with};

fn pairs(entries: &[(&str, &str)]) -> MetaMap {
    MetaMap::from_pairs(
        entries
            .iter()
            .map(|(k, v)| (k.to_string(), v.to_string()))
            .collect(),
    )
}

fn is_key_text(key: &str, len: usize) -> bool {
    key.chars().count() == len
        && key
            .chars()
            .all(|c| c.is_ascii_uppercase() || c.is_ascii_digit())
}

#[test]
fn meta_map_get_returns_what_was_set() {
    let mut map = MetaMap::new();
    assert_eq!(map.get("kill_at"), None);
    map.insert("kill_at".to_string(), "12".to_string());
    map.insert("other".to_string(), "x".to_string());
    assert_eq!(map.get("kill_at"), Some(&"12".to_string()));
    assert_eq!(map.get("other"), Some(&"x".to_string()));
    assert_eq!(map.get("missing"), None);
}

#[test]
fn meta_map_later_entry_replaces_earlier() {
    let mut map = pairs(&[("a", "1"), ("b", "2"), ("a", "3")]);
    assert_eq!(map.get("a"), Some(&"3".to_string()));
    map.insert("a".to_string(), "4".to_string());
    assert_eq!(map.get("a"), Some(&"4".to_string()));
    assert_eq!(map.get("b"), Some(&"2".to_string()));
    assert_eq!(map.into_pairs().len(), 4);
}

#[test]
fn text_join_and_split() {
    assert_eq!(join("auth", "ABC"), "auth:ABC");
    assert_eq!(join("", ""), ":");
    assert_eq!(split_joined("auth", "auth:ABC"), Some("ABC".to_string()));
    assert_eq!(split_joined("auth", "auth:"), Some("".to_string()));
    assert_eq!(split_joined("auth", "auth"), None);
    assert_eq!(split_joined("auth", "authABC"), None);
    assert_eq!(split_joined("auth", "room:ABC"), None);
    assert_eq!(split_joined("room", "room:a:b"), Some("a:b".to_string()));
    assert!(starts_with("auth:x", "auth"));
    assert!(starts_with("auth", "auth"));
    assert!(starts_with("anything", ""));
    assert!(!starts_with("aut", "auth"));
    assert!(!starts_with("room:x", "auth"));
}

#[test]
fn text_handles_characters_of_several_bytes() {
    assert_eq!(join("é", "ü"), "é:ü");
    assert_eq!(split_joined("é", "é:ü漢"), Some("ü漢".to_string()));
    assert!(starts_with("éa", "é"));
    assert!(!starts_with("ea", "é"));
}

#[test]
fn kinds_have_their_prefix_and_key_length() {
    assert_eq!(AuthInfo::PREFIX, "auth");
    assert_eq!(AuthInfo::KEY_LENGTH, 32);
    assert_eq!(RoomInfo::PREFIX, "room");
    assert_eq!(RoomInfo::KEY_LENGTH, 6);
    assert_eq!(GRACE_PERIOD, 20);
}

#[test]
fn key_search_proposes_keys_of_the_kind() {
    let mut search = KeySearch::<AuthInfo>::new(1_700_000_000);
    let probe = search.probe();
    assert!(probe.starts_with("auth:"));
    assert!(is_key_text(&probe[5..], 32));
    assert_eq!(search.resolve(true), None);
    let second = search.probe();
    assert!(is_key_text(&second[5..], 32));
    let key = search.resolve(false).expect("the candidate is the key");
    assert_eq!(format!("auth:{}", key), second);
    assert!(is_key_text(&key, 32));
}

#[test]
fn key_search_for_rooms_proposes_six_characters() {
    let mut search = KeySearch::<RoomInfo>::new(7);
    let probe = search.probe();
    assert!(probe.starts_with("room:"));
    let key = search.resolve(false).unwrap();
    assert!(is_key_text(&key, 6));
    assert_eq!(probe, format!("room:{}", key));
}

#[test]
fn key_search_goes_on_with_other_candidates() {
    let mut search = KeySearch::<AuthInfo>::new(42);
    let mut seen = vec![search.probe()];
    for _ in 0..5 {
        assert_eq!(search.resolve(true), None);
        seen.push(search.probe());
    }
    seen.sort();
    seen.dedup();
    assert!(seen.len() > 1);
}

#[test]
fn random_string_has_the_length_asked_for() {
    let mut rng = <rand::rngs::SmallRng as rand::SeedableRng>::seed_from_u64(3);
    assert_eq!(random_string(&mut rng, 0), "");
    let long = random_string(&mut rng, 255);
    assert!(is_key_text(&long, 255));
    let letters: std::collections::HashSet<char> = long.chars().collect();
    assert!(letters.len() > 10);
}

#[test]
fn record_create_load_write() {
    let created: Auth = Data::create(
        "TOKEN".to_string(),
        AuthData { room: None },
        AuthMetadata { kill_at: Some(5) },
    );
    assert!(created.modified);
    assert_eq!(created.key, "TOKEN");
    assert_eq!(created.storage_key(), "auth:TOKEN");
    let request = created.write().expect("a new record is stored");
    assert_eq!(request.key, "auth:TOKEN");
    assert_eq!(request.data.room, None);
    assert_eq!(request.attributes.get("kill_at"), Some(&"5".to_string()));

    let loaded = Auth::load(
        "TOKEN".to_string(),
        Some(AuthData { room: Some("ROOM01".to_string()) }),
        &pairs(&[("kill_at", "")]),
    )
    .unwrap();
    assert!(!loaded.modified);
    assert_eq!(loaded.key, "TOKEN");
    assert_eq!(loaded.meta.kill_at, None);
    assert_eq!(loaded.get_room(), Some(&"ROOM01".to_string()));
    assert!(loaded.write().is_none());
}

#[test]
fn record_remove_prefix() {
    assert_eq!(Auth::remove_prefix("auth:ABC"), Some("ABC".to_string()));
    assert_eq!(Room::remove_prefix("room:XYZ123"), Some("XYZ123".to_string()));
    assert_eq!(Auth::remove_prefix("room:XYZ123"), None);
    assert_eq!(Room::remove_prefix("room"), None);
}

#[test]
fn times_are_stored_as_decimal_text_or_nothing() {
    assert_eq!(format_time(None), "");
    assert_eq!(format_time(Some(0)), "0");
    assert_eq!(format_time(Some(1_700_000_020)), "1700000020");
    assert_eq!(parse_time(""), Ok(None));
    assert_eq!(parse_time("0"), Ok(Some(0)));
    assert_eq!(parse_time("1700000020"), Ok(Some(1_700_000_020)));
    assert_eq!(parse_time("soon"), Err(MetaError::Malformed));
    assert_eq!(parse_time("-1"), Err(MetaError::Malformed));
    assert_eq!(parse_time("99999999999999999999"), Err(MetaError::Malformed));
}

#[test]
fn auth_metadata_round_trip() {
    for kill_at in [None, Some(0), Some(1_700_000_020), Some(u64::MAX)] {
        let meta = AuthMetadata { kill_at };
        let map = meta.to_map();
        assert_eq!(AuthMetadata::from_map(&map), Ok(meta));
    }
}

#[test]
fn auth_metadata_errors() {
    assert_eq!(AuthMetadata::from_map(&MetaMap::new()), Err(MetaError::Missing));
    assert_eq!(
        AuthMetadata::from_map(&pairs(&[("kill_at", "x")])),
        Err(MetaError::Malformed)
    );
    assert_eq!(
        AuthMetadata::from_map(&pairs(&[("kill_at", "")])),
        Ok(AuthMetadata { kill_at: None })
    );
}

fn room_meta(offer: (&str, u64), answer: Option<(&str, u64)>) -> RoomMetadata {
    RoomMetadata {
        offer: PeerMetadata { token: offer.0.to_string(), next_poll: offer.1 },
        answer: answer.map(|(token, next_poll)| PeerMetadata { token: token.to_string(), next_poll }),
    }
}

#[test]
fn room_metadata_is_written_as_four_attributes() {
    let map = room_meta(("A", 11), None).to_map();
    assert_eq!(map.get("offer_token"), Some(&"A".to_string()));
    assert_eq!(map.get("offer_next_poll"), Some(&"11".to_string()));
    assert_eq!(map.get("answer_token"), Some(&"".to_string()));
    assert_eq!(map.get("answer_next_poll"), Some(&"".to_string()));

    let map = room_meta(("A", 11), Some(("B", 12))).to_map();
    assert_eq!(map.get("answer_token"), Some(&"B".to_string()));
    assert_eq!(map.get("answer_next_poll"), Some(&"12".to_string()));
}

#[test]
fn room_metadata_round_trip() {
    for meta in [
        room_meta(("A", 11), None),
        room_meta(("A", 0), Some(("B", u64::MAX))),
    ] {
        let read = RoomMetadata::from_map(&meta.to_map()).unwrap();
        assert_eq!(read.offer.token, meta.offer.token);
        assert_eq!(read.offer.next_poll, meta.offer.next_poll);
        assert_eq!(
            read.answer.as_ref().map(|s| (s.token.clone(), s.next_poll)),
            meta.answer.as_ref().map(|s| (s.token.clone(), s.next_poll))
        );
    }
}

#[test]
fn room_metadata_errors() {
    assert!(matches!(RoomMetadata::from_map(&MetaMap::new()), Err(MetaError::Missing)));
    // A room whose offerer is not bound is stored with an empty token, and
    // cannot be read back.
    assert!(matches!(
        RoomMetadata::from_map(&room_meta(("", 11), None).to_map()),
        Err(MetaError::Missing)
    ));
    assert!(matches!(
        RoomMetadata::from_map(&pairs(&[("offer_token", "A"), ("offer_next_poll", "1x")])),
        Err(MetaError::Malformed)
    ));
    assert!(matches!(
        RoomMetadata::from_map(&pairs(&[
            ("offer_token", "A"),
            ("offer_next_poll", "1"),
            ("answer_token", "B"),
            ("answer_next_poll", "later"),
        ])),
        Err(MetaError::Malformed)
    ));
    // The answerer is read before the offerer is missed.
    assert!(matches!(
        RoomMetadata::from_map(&pairs(&[("answer_token", "B"), ("answer_next_poll", "later")])),
        Err(MetaError::Malformed)
    ));
    let read = RoomMetadata::from_map(&pairs(&[
        ("offer_token", "A"),
        ("offer_next_poll", "1"),
        ("answer_token", "B"),
    ]))
    .unwrap();
    assert!(read.answer.is_none());
}

#[test]
fn auth_issue_join_and_expiry() {
    let mut auth = Auth::issue("TOKEN".to_string(), 1000);
    assert!(auth.modified);
    assert_eq!(auth.get_room(), None);
    assert_eq!(auth.meta.kill_at, Some(1020));
    assert!(!auth.is_expired(1019));
    assert!(auth.is_expired(1020));
    assert!(auth.is_expired(5000));
    assert_eq!(auth.get_keys_to_kill(1019), Vec::<String>::new());
    assert_eq!(auth.get_keys_to_kill(1020), vec!["auth:TOKEN".to_string()]);

    auth.modified = false;
    auth.join_room("ROOM01");
    assert!(auth.modified);
    assert_eq!(auth.get_room(), Some(&"ROOM01".to_string()));
    assert_eq!(auth.meta.kill_at, None);
    assert!(!auth.is_expired(u64::MAX));
    assert_eq!(auth.get_keys_to_kill(u64::MAX), Vec::<String>::new());
}
