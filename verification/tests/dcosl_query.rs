use magic_carpet::dcosl::query::{
    event_to_json, header_d_tag, paginate, sort_event_json_desc, sort_events_desc, EventJson,
};
use magic_carpet::event::{Event, PublicKey, Tag};

fn sign(keys: &nostr::Keys, kind: u16, content: &str, tags: Vec<Vec<&str>>) -> Event {
    let tags: Vec<nostr::Tag> = tags.into_iter().map(|t| nostr::Tag::parse(t).unwrap()).collect();
    let e = nostr::EventBuilder::new(nostr::Kind::from_u16(kind), content)
        .tags(tags)
        .sign_with_keys(keys)
        .unwrap();
    Event {
        id: e.id.to_bytes(),
        pubkey: PublicKey { bytes: e.pubkey.to_bytes() },
        created_at: e.created_at.as_secs(),
        kind: e.kind.as_u16(),
        tags: e.tags.iter().map(|t| Tag { parts: t.as_slice().to_vec() }).collect(),
        content: e.content.clone(),
        sig: e.sig.serialize(),
    }
}

fn make_event(kind: u16, content: &str, tags: Vec<Vec<&str>>) -> Event {
    sign(&nostr::Keys::generate(), kind, content, tags)
}

#[test]
fn event_to_json_basic_fields() {
    let event = make_event(9998, "hello", vec![]);
    let j = event_to_json(&event);
    assert_eq!(j.event_id.len(), 64);
    assert_eq!(j.kind, 9998);
    assert_eq!(j.pubkey.len(), 64);
    assert_eq!(j.created_at, event.created_at);
    assert_eq!(j.sig.len(), 128);
    assert_eq!(j.content, "hello");
    assert!(j.tags.is_empty());
}

#[test]
fn event_to_json_names_tag_extracts_singular_and_plural() {
    let event = make_event(9998, "", vec![vec!["names", "mylist", "mylists"]]);
    let j = event_to_json(&event);
    assert_eq!(j.name.as_deref(), Some("mylist"));
    assert_eq!(j.plural_name.as_deref(), Some("mylists"));
    assert_eq!(j.names, Some(("mylist".to_string(), "mylists".to_string())));
}

#[test]
fn event_to_json_titles_tag_extracted() {
    let event = make_event(9998, "", vec![vec!["titles", "My List", "My Lists"]]);
    let j = event_to_json(&event);
    assert_eq!(j.title.as_deref(), Some("My List"));
    assert_eq!(j.plural_title.as_deref(), Some("My Lists"));
    assert_eq!(j.titles, Some(("My List".to_string(), "My Lists".to_string())));
}

#[test]
fn event_to_json_description_extracted() {
    let event = make_event(9998, "", vec![vec!["description", "A description"]]);
    let j = event_to_json(&event);
    assert_eq!(j.description.as_deref(), Some("A description"));
}

#[test]
fn event_to_json_d_tag_creates_coordinate() {
    let keys = nostr::Keys::generate();
    let event = sign(&keys, 39998, "", vec![vec!["d", "my-list"]]);
    let j = event_to_json(&event);
    let coord = j.coordinate.unwrap();
    assert!(coord.starts_with("39998:"));
    assert!(coord.ends_with(":my-list"));
    assert!(coord.contains(&keys.public_key().to_hex()));
}

#[test]
fn event_to_json_unknown_tags_dont_pollute_top_level() {
    let event = make_event(9998, "", vec![vec!["weird", "val"]]);
    let j = event_to_json(&event);
    assert!(j.name.is_none());
    assert!(j.title.is_none());
    assert!(j.description.is_none());
    assert!(j.coordinate.is_none());
    assert_eq!(j.tags, vec![vec!["weird".to_string(), "val".to_string()]]);
}

#[test]
fn event_to_json_names_without_plural_sets_only_name() {
    let event = make_event(9998, "", vec![vec!["names", "solo"]]);
    let j = event_to_json(&event);
    assert_eq!(j.name.as_deref(), Some("solo"));
    assert!(j.plural_name.is_none());
    assert!(j.names.is_none());
}

#[test]
fn event_to_json_later_tag_wins() {
    let event = make_event(9998, "", vec![vec!["description", "first"], vec!["description", "second"]]);
    let j = event_to_json(&event);
    assert_eq!(j.description.as_deref(), Some("second"));
}

#[test]
fn header_d_tag_takes_first() {
    let event = make_event(39998, "", vec![vec!["d", "one"], vec!["d", "two"]]);
    assert_eq!(header_d_tag(&event).as_deref(), Some("one"));
    let plain = make_event(9998, "", vec![]);
    assert!(header_d_tag(&plain).is_none());
}

#[test]
fn paginate_returns_expected_window() {
    let values = vec![1, 2, 3, 4, 5];
    assert_eq!(paginate(&values, 1, 2), vec![2, 3]);
}

#[test]
fn paginate_returns_empty_when_offset_out_of_range() {
    let values = vec![1, 2, 3];
    assert!(paginate(&values, 3, 10).is_empty());
}

#[test]
fn paginate_returns_empty_when_limit_zero() {
    let values = vec![1, 2, 3];
    assert!(paginate(&values, 0, 0).is_empty());
}

#[test]
fn paginate_clips_at_the_end() {
    let values = vec![1, 2, 3];
    assert_eq!(paginate(&values, 1, 10), vec![2, 3]);
}

fn row(id: &str, created_at: u64) -> EventJson {
    EventJson {
        event_id: id.to_string(),
        kind: 1,
        pubkey: String::new(),
        created_at,
        tags: vec![],
        content: String::new(),
        sig: String::new(),
        name: None,
        plural_name: None,
        names: None,
        title: None,
        plural_title: None,
        titles: None,
        description: None,
        coordinate: None,
    }
}

#[test]
fn sort_event_json_orders_by_created_at_desc_then_id() {
    let mut rows = vec![row("b", 100), row("a", 100), row("c", 120)];

    sort_event_json_desc(&mut rows);

    assert_eq!(rows[0].event_id, "c");
    assert_eq!(rows[1].event_id, "a");
    assert_eq!(rows[2].event_id, "b");
}

#[test]
fn sort_event_json_keeps_order_of_equal_keys() {
    let mut first = row("x", 50);
    first.content = "first".to_string();
    let mut second = row("x", 50);
    second.content = "second".to_string();
    let mut third = row("x", 50);
    third.content = "third".to_string();
    let mut rows = vec![first, row("a", 10), second, row("z", 90), third];

    sort_event_json_desc(&mut rows);

    let order: Vec<(String, String)> =
        rows.iter().map(|r| (r.event_id.clone(), r.content.clone())).collect();
    assert_eq!(
        order,
        vec![
            ("z".to_string(), String::new()),
            ("x".to_string(), "first".to_string()),
            ("x".to_string(), "second".to_string()),
            ("x".to_string(), "third".to_string()),
            ("a".to_string(), String::new()),
        ]
    );
}

#[test]
fn sort_events_desc_newest_first() {
    let keys = nostr::Keys::generate();
    let mut a = sign(&keys, 1, "a", vec![]);
    let mut b = sign(&keys, 1, "b", vec![]);
    let mut c = sign(&keys, 1, "c", vec![]);
    a.created_at = 10;
    b.created_at = 30;
    c.created_at = 20;
    let mut events = vec![a, b, c];
    sort_events_desc(&mut events);
    let order: Vec<u64> = events.iter().map(|e| e.created_at).collect();
    assert_eq!(order, vec![30, 20, 10]);
}

#[test]
fn consecutive_pages_concatenate() {
    let values: Vec<u32> = (0..10).collect();
    for (o, a, b) in [(0usize, 3usize, 4usize), (2, 0, 5), (8, 1, 5), (12, 1, 1), (4, 6, 0)] {
        let mut joined = paginate(&values, o, a);
        joined.extend(paginate(&values, o + a, b));
        assert_eq!(joined, paginate(&values, o, a + b));
    }
}

#[test]
fn item_d_tag_is_found_again() {
    let fields = vec!["color=red".to_string(), "plain".to_string()];
    let tags = magic_carpet::dcosl::item::build_item_tags("z", "r", &fields, Some("my-item"), Some("c"));
    let e = Event { id: [0; 32], pubkey: PublicKey { bytes: [1; 32] }, created_at: 0, kind: 39999, tags, content: String::new(), sig: [0; 64] };
    assert_eq!(header_d_tag(&e).as_deref(), Some("my-item"));
    let tags = magic_carpet::dcosl::item::build_item_tags("z", "r", &fields, None, None);
    let e = Event { tags, ..e };
    assert!(header_d_tag(&e).is_none());
}
