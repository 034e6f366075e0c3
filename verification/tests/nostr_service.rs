use magic_carpet::event::{Event, PublicKey, Tag};
use magic_carpet::nostr_lib::error::NostrLibError;
use magic_carpet::nostr_lib::filters::{
    bounties_filter, event_id_filter, list_headers_filter, list_items_filter, profile_filter,
    relay_list_filter, zap_receipts_filter, Filter,
};
use magic_carpet::nostr_lib::profile::{first_profile_event, lud16_of, relay_list_of};
use magic_carpet::nostr_lib::service::{
    header_kind, header_not_found, item_event_template, marketplace_header_query,
    marketplace_list_from, published_event_missing, relay_connection_error, EventPager,
    FETCH_PAGE_SIZE,
};
use magic_carpet::nostr_lib::types::ProfileMetadata;

fn key(byte: u8) -> PublicKey {
    PublicKey { bytes: [byte; 32] }
}

fn event(id: u8, created_at: u64, tags: Vec<Vec<&str>>) -> Event {
    Event {
        id: [id; 32],
        pubkey: key(7),
        created_at,
        kind: 39998,
        tags: tags
            .into_iter()
            .map(|t| Tag { parts: t.into_iter().map(String::from).collect() })
            .collect(),
        content: String::new(),
        sig: [0u8; 64],
    }
}

#[test]
fn pager_dedupes_and_pages_back() {
    let mut pager = EventPager::new(Filter::new().kind(1));
    let first = pager.next_filter();
    assert_eq!(first.limit, Some(FETCH_PAGE_SIZE));
    assert_eq!(first.until, None);
    assert_eq!(first.kinds, vec![1]);

    let mut batch: Vec<Event> = (0..FETCH_PAGE_SIZE).map(|i| event((i % 200) as u8, 1000 + i as u64, vec![])).collect();
    batch.push(event(0, 999, vec![]));
    let more = pager.accept_batch(batch);
    assert!(more);
    assert_eq!(pager.next_filter().until, Some(998));

    let more = pager.accept_batch(vec![event(250, 5, vec![]), event(1, 4, vec![])]);
    assert!(!more);
    let events = pager.into_events();
    assert_eq!(events.len(), 201);
    let mut ids: Vec<u8> = events.iter().map(|e| e.id[0]).collect();
    ids.sort();
    ids.dedup();
    assert_eq!(ids.len(), 201);
}

#[test]
fn pager_stops_on_time_zero_and_repeated_bound() {
    let mut pager = EventPager::new(Filter::new());
    let full: Vec<Event> = (0..FETCH_PAGE_SIZE).map(|i| event(1, i as u64, vec![])).collect();
    assert!(!pager.accept_batch(full));
    let mut pager = EventPager::new(Filter::new());
    let batch = |t: u64| -> Vec<Event> { (0..FETCH_PAGE_SIZE).map(|_| event(2, t, vec![])).collect() };
    assert!(pager.accept_batch(batch(10)));
    assert!(!pager.accept_batch(batch(10)));
    assert!(!pager.accept_batch(vec![]));
}

#[test]
fn header_query_for_coordinate() {
    let pk = key(3);
    let coordinate = format!("39998:{}:list", pk.to_hex());
    let (filter, curator) = marketplace_header_query(&coordinate).unwrap();
    assert_eq!(curator, pk);
    assert_eq!(filter.kinds, vec![39998]);
    assert_eq!(filter.authors, vec![pk]);
    assert_eq!(filter.tags, vec![('d', "list".to_string())]);
    assert_eq!(filter.limit, Some(1));
    assert!(matches!(marketplace_header_query("bad"), Err(NostrLibError::Protocol(_))));
}

#[test]
fn list_assembled_from_header() {
    let header = event(1, 10, vec![vec!["names", "book", "books"], vec!["t", "Books"], vec!["description", "Good"], vec!["t", "Reading"]]);
    let items = vec![event(2, 11, vec![])];
    let profile = ProfileMetadata { name: Some("c".into()), about: None, picture: None, nip05: None, lud16: None, display_name: None };
    let list = marketplace_list_from("c:o:d", header, items, key(7), Some(profile.clone()));
    assert_eq!(list.name, "book");
    assert_eq!(list.plural_name.as_deref(), Some("books"));
    assert_eq!(list.description.as_deref(), Some("Good"));
    assert_eq!(list.categories, vec!["Books", "Reading"]);
    assert_eq!(list.coordinate, "c:o:d");
    assert_eq!(list.zap_count, 0);
    assert_eq!(list.items.len(), 1);
    assert_eq!(list.curator_profile, Some(profile));
}

#[test]
fn list_without_name_is_unknown() {
    let list = marketplace_list_from("x", event(1, 1, vec![]), vec![], key(1), None);
    assert_eq!(list.name, "Unknown");
    assert!(list.categories.is_empty());
}

#[test]
fn published_item_template() {
    let fields = vec!["a=b".to_string()];
    let t = item_event_template("z1", "https://r", &fields, None, Some("d1"));
    assert_eq!(t.kind, 39999);
    assert_eq!(t.content, "");
    let tags: Vec<Vec<String>> = t.tags.iter().map(|t| t.parts.clone()).collect();
    assert_eq!(
        tags,
        vec![
            vec!["z".to_string(), "z1".to_string()],
            vec!["r".to_string(), "https://r".to_string()],
            vec!["client".to_string(), "magic-carpet".to_string()],
            vec!["a".to_string(), "b".to_string()],
            vec!["d".to_string(), "d1".to_string()],
        ]
    );
    assert_eq!(item_event_template("z", "r", &[], Some("hi"), None).content, "hi");
}

#[test]
fn header_kinds_and_errors() {
    assert_eq!(header_kind(true), 39998);
    assert_eq!(header_kind(false), 9998);
    assert_eq!(header_not_found("c").message(), "Nostr SDK error: Header not found for coordinate: c");
    assert_eq!(published_event_missing().message(), "Event publish failed: Event published but not found on relay");
    assert_eq!(relay_connection_error("wss://x").message(), "Relay connection failed: wss://x");
}

#[test]
fn filters_match_the_queries() {
    let pk = key(9);
    let f = list_headers_filter(Some(pk), Some("books"));
    assert_eq!(f.kinds, vec![9998, 39998]);
    assert_eq!(f.authors, vec![pk]);
    assert_eq!(f.tags, vec![('t', "books".to_string())]);
    let f = list_items_filter("39998:x:y");
    assert_eq!(f.kinds, vec![9999, 39999]);
    assert_eq!(f.tags, vec![('z', "39998:x:y".to_string())]);
    let f = bounties_filter(Some("c"));
    assert_eq!(f.kinds, vec![30402]);
    assert_eq!(f.tags, vec![('t', "bounty".to_string()), ('a', "c".to_string())]);
    let f = zap_receipts_filter(pk);
    assert_eq!(f.kinds, vec![9735]);
    assert_eq!(f.tags, vec![('p', pk.to_hex())]);
    let f = profile_filter(pk);
    assert_eq!((f.kinds, f.limit), (vec![0], Some(1)));
    let f = relay_list_filter(pk);
    assert_eq!((f.kinds, f.limit), (vec![10002], Some(1)));
    let f = event_id_filter([5; 32]);
    assert_eq!((f.ids, f.limit), (vec![[5u8; 32]], Some(1)));
}

#[test]
fn profiles_and_relay_lists() {
    let pk = key(4);
    match first_profile_event(vec![], &pk) {
        Err(e) => assert_eq!(e.message(), format!("Profile not found for pubkey: {}", pk.to_hex())),
        Ok(_) => panic!("expected an error"),
    }
    let e = first_profile_event(vec![event(8, 1, vec![]), event(9, 2, vec![])], &pk).unwrap();
    assert_eq!(e.id, [8; 32]);
    let profile = ProfileMetadata { name: None, about: None, picture: None, nip05: None, lud16: Some("a@b".into()), display_name: None };
    assert_eq!(lud16_of(profile.clone(), &pk).unwrap(), "a@b");
    let without = ProfileMetadata { lud16: None, ..profile };
    assert!(matches!(lud16_of(without, &pk), Err(NostrLibError::MissingLud16 { .. })));
    let relays = relay_list_of(&[event(1, 1, vec![vec!["r", "wss://a"], vec!["p", "x"], vec!["r", "wss://b", "read"]])]);
    assert_eq!(relays, vec!["wss://a", "wss://b"]);
    assert!(relay_list_of(&[]).is_empty());
}
