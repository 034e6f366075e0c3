//! Event queries: rendering for output, ordering, paging and tag lookup.
use vstd::prelude::*;

use crate::dcosl::item::{field_tags, item_tags};
use crate::event::{strings_view, tags_view, Event, Tag};
use crate::text::{
    concat2, decimal, hex_encode, lemma_lex_lt_irreflexive, lemma_lex_lt_transitive, lex_lt,
    push_decimal, split_once, str_eq, str_lt,
};

verus! {

// ---------------------------------------------------------------------------
// Copies of plain values
// ---------------------------------------------------------------------------

/// The views of rows of strings.
pub open spec fn rows_view(v: Seq<Vec<String>>) -> Seq<Seq<Seq<char>>> {
    Seq::new(v.len(), |i: int| strings_view(v[i]@))
}

/// A copy of a list of strings.
pub fn copy_strings(v: &[String]) -> (r: Vec<String>)
    ensures
        strings_view(r@) == strings_view(v@),
{
    let mut r: Vec<String> = Vec::new();
    let mut i: usize = 0;
    while i < v.len()
        invariant
            i <= v@.len(),
            r@.len() == i,
            strings_view(r@) == strings_view(v@.take(i as int)),
        decreases v@.len() - i,
    {
        let ghost before = r@;
        let c = v[i].clone();
        assert(c == v@[i as int]);
        r.push(c);
        assert(r@ =~= before.push(c));
        assert(v@.take(i + 1) =~= v@.take(i as int).push(v@[i as int]));
        proof {
            let a = strings_view(r@);
            let b = strings_view(v@.take(i + 1));
            let a0 = strings_view(before);
            let b0 = strings_view(v@.take(i as int));
            assert forall|k: int| 0 <= k < a.len() implies a[k] == b[k] by {
                if k < i {
                    assert(a[k] == a0[k]);
                    assert(b[k] == b0[k]);
                }
            }
            assert(a =~= b);
        }
        i = i + 1;
    }
    assert(v@.take(v@.len() as int) =~= v@);
    r
}

/// The parts of each tag, copied.
pub fn tag_parts(tags: &[Tag]) -> (r: Vec<Vec<String>>)
    ensures
        rows_view(r@) == tags_view(tags@),
{
    let mut r: Vec<Vec<String>> = Vec::new();
    let mut i: usize = 0;
    while i < tags.len()
        invariant
            i <= tags@.len(),
            r@.len() == i,
            rows_view(r@) == tags_view(
                tags@.take(i as int),
            ),
        decreases tags@.len() - i,
    {
        let ghost before = r@;
        let c = copy_strings(tags[i].parts.as_slice());
        r.push(c);
        assert(r@ =~= before.push(c));
        assert(tags@.take(i + 1) =~= tags@.take(i as int).push(tags@[i as int]));
        proof {
            let a = rows_view(r@);
            let b = tags_view(tags@.take(i + 1));
            let a0 = rows_view(before);
            let b0 = tags_view(tags@.take(i as int));
            assert forall|k: int| 0 <= k < a.len() implies a[k] == b[k] by {
                assert(r@[k] == before.push(c)[k]);
                assert(tags@.take(i + 1)[k] == tags@.take(i as int).push(tags@[i as int])[k]);
                if k < i {
                    assert(a[k] == a0[k]);
                    assert(b[k] == b0[k]);
                } else {
                    assert(a[k] == strings_view(c@));
                }
            }
            assert(a =~= b);
        }
        i = i + 1;
        assert(rows_view(r@) =~= tags_view(
            tags@.take(i as int),
        ));
    }
    assert(tags@.take(tags@.len() as int) =~= tags@);
    r
}

// ---------------------------------------------------------------------------
// Tag lookup
// ---------------------------------------------------------------------------

/// Whether a tag has the given kind and at least one value.
pub open spec fn tag_has(t: Seq<Seq<char>>, key: Seq<char>) -> bool {
    t.len() >= 2 && t[0] == key
}

/// `i` is the first tag of kind `key` that has a value.
pub open spec fn is_first_tag(tags: Seq<Seq<Seq<char>>>, key: Seq<char>, i: int) -> bool {
    0 <= i < tags.len() && tag_has(tags[i], key) && forall|j: int|
        0 <= j < i ==> !tag_has(#[trigger] tags[j], key)
}

/// The first value of the first tag of kind `key` that has one.
pub open spec fn first_tag_value(tags: Seq<Seq<Seq<char>>>, key: Seq<char>) -> Option<Seq<char>> {
    if exists|i: int| is_first_tag(tags, key, i) {
        let i = choose|i: int| is_first_tag(tags, key, i);
        Some(tags[i][1])
    } else {
        None
    }
}

/// The first values of all tags of kind `key` that have one, in order.
pub open spec fn tag_values(tags: Seq<Seq<Seq<char>>>, key: Seq<char>) -> Seq<Seq<char>>
    decreases tags.len(),
{
    if tags.len() == 0 {
        seq![]
    } else {
        tag_values(tags.drop_last(), key) + if tag_has(tags.last(), key) {
            seq![tags.last()[1]]
        } else {
            seq![]
        }
    }
}

proof fn lemma_first_tag_unique(tags: Seq<Seq<Seq<char>>>, key: Seq<char>, i: int)
    requires
        is_first_tag(tags, key, i),
    ensures
        first_tag_value(tags, key) == Some(tags[i][1]),
{
    let k = choose|k: int| is_first_tag(tags, key, k);
    assert(is_first_tag(tags, key, k));
    if k < i {
        assert(!tag_has(tags[k], key));
    } else if i < k {
        assert(!tag_has(tags[i], key));
    }
}

/// Whether a tag has kind `key` and at least one value.
fn tag_is(t: &Tag, key: &str) -> (r: bool)
    ensures
        r == tag_has(t@, key@),
{
    t.parts.len() >= 2 && str_eq(t.parts[0].as_str(), key)
}

/// The first value of the first tag of kind `key` that has one.
pub fn find_tag_value(tags: &[Tag], key: &str) -> (r: Option<String>)
    ensures
        match r {
            Some(v) => first_tag_value(tags_view(tags@), key@) == Some(v@),
            None => first_tag_value(tags_view(tags@), key@) is None,
        },
{
    let ghost tv = tags_view(tags@);
    let mut i: usize = 0;
    while i < tags.len()
        invariant
            i <= tags@.len(),
            tv == tags_view(tags@),
            forall|j: int| 0 <= j < i ==> !tag_has(#[trigger] tv[j], key@),
        decreases tags@.len() - i,
    {
        if tag_is(&tags[i], key) {
            proof {
                lemma_first_tag_unique(tv, key@, i as int);
            }
            return Some(tags[i].parts[1].clone());
        }
        i = i + 1;
    }
    proof {
        if exists|k: int| is_first_tag(tv, key@, k) {
            let k = choose|k: int| is_first_tag(tv, key@, k);
            assert(!tag_has(tv[k], key@));
        }
    }
    None
}

/// The first values of all tags of kind `key` that have one, in order.
pub fn collect_tag_values(tags: &[Tag], key: &str) -> (r: Vec<String>)
    ensures
        strings_view(r@) == tag_values(tags_view(tags@), key@),
{
    let mut r: Vec<String> = Vec::new();
    let mut i: usize = 0;
    while i < tags.len()
        invariant
            i <= tags@.len(),
            strings_view(r@) == tag_values(tags_view(tags@.take(i as int)), key@),
        decreases tags@.len() - i,
    {
        let ghost before = strings_view(r@);
        proof {
            assert(tags_view(tags@.take(i + 1)).drop_last() =~= tags_view(tags@.take(i as int)));
            assert(tags_view(tags@.take(i + 1)).last() == tags@[i as int]@);
        }
        if tag_is(&tags[i], key) {
            r.push(tags[i].parts[1].clone());
            assert(strings_view(r@) =~= before.push(tags@[i as int]@[1]));
        } else {
            assert(strings_view(r@) =~= before);
        }
        i = i + 1;
        assert(strings_view(r@) =~= tag_values(tags_view(tags@.take(i as int)), key@));
    }
    assert(tags@.take(tags@.len() as int) =~= tags@);
    r
}

/// The key of a `key=value` field, if it has one.
pub open spec fn field_key(field: Seq<char>) -> Option<Seq<char>> {
    match split_once(field, '=') {
        Some((key, _)) => Some(key),
        None => None,
    }
}

/// No field is written `d=...`.
pub open spec fn no_d_field(fields: Seq<Seq<char>>) -> bool {
    forall|i: int| 0 <= i < fields.len() ==> #[trigger] field_key(fields[i]) != Some("d"@)
}

proof fn lemma_field_tags_no_d(fields: Seq<Seq<char>>)
    requires
        no_d_field(fields),
    ensures
        forall|j: int| 0 <= j < field_tags(fields).len() ==> !tag_has(#[trigger] field_tags(fields)[j], "d"@),
    decreases fields.len(),
{
    if fields.len() > 0 {
        let prev = fields.drop_last();
        assert(no_d_field(prev)) by {
            assert forall|i: int| 0 <= i < prev.len() implies #[trigger] field_key(prev[i]) != Some(
                "d"@,
            ) by {
                assert(prev[i] == fields[i]);
            }
        }
        lemma_field_tags_no_d(prev);
        let last = fields[fields.len() - 1];
        assert(last == fields.last());
        let ft = field_tags(fields);
        assert forall|j: int| 0 <= j < ft.len() implies !tag_has(#[trigger] ft[j], "d"@) by {
            if j < field_tags(prev).len() {
                assert(ft[j] == field_tags(prev)[j]);
            } else {
                assert(field_key(fields[fields.len() - 1]) != Some("d"@));
            }
        }
    }
}

/// The d-tag found in the tags of a list item is the d-tag it was built
/// with, provided no `key=value` field has the key `d`.
pub proof fn lemma_item_d_tag_found(
    parent_z_ref: Seq<char>,
    resource: Seq<char>,
    fields: Seq<Seq<char>>,
    d_tag: Option<Seq<char>>,
    client_name: Option<Seq<char>>,
)
    requires
        no_d_field(fields),
    ensures
        first_tag_value(item_tags(parent_z_ref, resource, fields, d_tag, client_name), "d"@) == d_tag,
{
    reveal_strlit("d");
    reveal_strlit("z");
    reveal_strlit("r");
    reveal_strlit("client");
    lemma_field_tags_no_d(fields);
    let tags = item_tags(parent_z_ref, resource, fields, d_tag, client_name);
    let head = seq![seq!["z"@, parent_z_ref], seq!["r"@, resource]] + match client_name {
        Some(c) => seq![seq!["client"@, c]],
        None => seq![],
    };
    let ft = field_tags(fields);
    assert("z"@[0] != "d"@[0]);
    assert("r"@[0] != "d"@[0]);
    assert("client"@.len() != "d"@.len());
    assert forall|j: int| 0 <= j < head.len() implies !tag_has(#[trigger] head[j], "d"@) by {
        if j == 0 {
            assert(head[j][0] == "z"@);
        } else if j == 1 {
            assert(head[j][0] == "r"@);
        } else {
            assert(head[j][0] == "client"@);
        }
    }
    assert forall|j: int| 0 <= j < head.len() + ft.len() implies !tag_has(#[trigger] tags[j], "d"@) by {
        if j < head.len() {
            assert(tags[j] == head[j]);
        } else {
            assert(tags[j] == ft[j - head.len()]);
        }
    }
    match d_tag {
        Some(d) => {
            let p = head.len() + ft.len();
            assert(tags[p as int] == seq!["d"@, d]);
            assert(is_first_tag(tags, "d"@, p as int));
            lemma_first_tag_unique(tags, "d"@, p as int);
        },
        None => {
            assert(tags.len() == head.len() + ft.len());
            if exists|i: int| is_first_tag(tags, "d"@, i) {
                let i = choose|i: int| is_first_tag(tags, "d"@, i);
                assert(!tag_has(tags[i], "d"@));
            }
        },
    }
}

/// Extract the d-tag value from a header event's tags.
pub fn header_d_tag(event: &Event) -> (r: Option<String>)
    ensures
        match r {
            Some(v) => first_tag_value(tags_view(event.tags@), "d"@) == Some(v@),
            None => first_tag_value(tags_view(event.tags@), "d"@) is None,
        },
{
    find_tag_value(event.tags.as_slice(), "d")
}

// ---------------------------------------------------------------------------
// Rendering
// ---------------------------------------------------------------------------

/// An event rendered for output, with the list fields taken from its tags.
#[derive(Debug)]
pub struct EventJson {
    pub event_id: String,
    pub kind: u16,
    pub pubkey: String,
    pub created_at: u64,
    pub tags: Vec<Vec<String>>,
    pub content: String,
    pub sig: String,
    pub name: Option<String>,
    pub plural_name: Option<String>,
    pub names: Option<(String, String)>,
    pub title: Option<String>,
    pub plural_title: Option<String>,
    pub titles: Option<(String, String)>,
    pub description: Option<String>,
    pub coordinate: Option<String>,
}

/// The list fields that tags contribute to a rendered event.
pub struct ListFields {
    pub name: Option<Seq<char>>,
    pub plural_name: Option<Seq<char>>,
    pub names: Option<(Seq<char>, Seq<char>)>,
    pub title: Option<Seq<char>>,
    pub plural_title: Option<Seq<char>>,
    pub titles: Option<(Seq<char>, Seq<char>)>,
    pub description: Option<Seq<char>>,
    pub coordinate: Option<Seq<char>>,
}

/// No list fields.
pub open spec fn no_list_fields() -> ListFields {
    ListFields {
        name: None,
        plural_name: None,
        names: None,
        title: None,
        plural_title: None,
        titles: None,
        description: None,
        coordinate: None,
    }
}

/// What one tag sets: `names` and `titles` set the singular form and, with a
/// third part, the plural form and the pair; `description` sets the
/// description; `d` sets the coordinate `prefix + d`. Tags with fewer than two
/// parts and other kinds change nothing.
pub open spec fn apply_list_tag(f: ListFields, t: Seq<Seq<char>>, prefix: Seq<char>) -> ListFields {
    if t.len() < 2 {
        f
    } else if t[0] == "names"@ {
        ListFields {
            name: Some(t[1]),
            plural_name: if t.len() >= 3 {
                Some(t[2])
            } else {
                f.plural_name
            },
            names: if t.len() >= 3 {
                Some((t[1], t[2]))
            } else {
                f.names
            },
            ..f
        }
    } else if t[0] == "titles"@ {
        ListFields {
            title: Some(t[1]),
            plural_title: if t.len() >= 3 {
                Some(t[2])
            } else {
                f.plural_title
            },
            titles: if t.len() >= 3 {
                Some((t[1], t[2]))
            } else {
                f.titles
            },
            ..f
        }
    } else if t[0] == "description"@ {
        ListFields { description: Some(t[1]), ..f }
    } else if t[0] == "d"@ {
        ListFields { coordinate: Some(prefix + t[1]), ..f }
    } else {
        f
    }
}

/// The list fields after reading the tags in order (later tags win).
pub open spec fn list_fields(tags: Seq<Seq<Seq<char>>>, prefix: Seq<char>) -> ListFields
    decreases tags.len(),
{
    if tags.len() == 0 {
        no_list_fields()
    } else {
        apply_list_tag(list_fields(tags.drop_last(), prefix), tags.last(), prefix)
    }
}

/// No tags give no list fields.
pub proof fn lemma_list_fields_empty(prefix: Seq<char>)
    ensures
        list_fields(seq![], prefix) == (ListFields {
            name: None,
            plural_name: None,
            names: None,
            title: None,
            plural_title: None,
            titles: None,
            description: None,
            coordinate: None,
        }),
{
}

/// A last tag with fewer than two parts, or of another kind than `names`,
/// `titles`, `description` and `d`, changes no list field.
pub proof fn lemma_list_fields_other_tag(tags: Seq<Seq<Seq<char>>>, t: Seq<Seq<char>>, prefix: Seq<char>)
    requires
        t.len() < 2 || (t[0] != "names"@ && t[0] != "titles"@ && t[0] != "description"@ && t[0] != "d"@),
    ensures
        list_fields(tags.push(t), prefix) == list_fields(tags, prefix),
{
    assert(tags.push(t).drop_last() =~= tags);
}

/// A last `names` tag with at least two parts sets the name to its first
/// value and, with a third part, the plural name to it and the pair to both;
/// without one they stay as they were. Nothing else changes.
pub proof fn lemma_list_fields_names_tag(tags: Seq<Seq<Seq<char>>>, t: Seq<Seq<char>>, prefix: Seq<char>)
    requires
        t.len() >= 2,
        t[0] == "names"@,
    ensures
        ({
            let before = list_fields(tags, prefix);
            let after = list_fields(tags.push(t), prefix);
            &&& after.name == Some(t[1])
            &&& t.len() >= 3 ==> after.plural_name == Some(t[2]) && after.names == Some((t[1], t[2]))
            &&& t.len() < 3 ==> after.plural_name == before.plural_name && after.names == before.names
            &&& after.title == before.title
            &&& after.plural_title == before.plural_title
            &&& after.titles == before.titles
            &&& after.description == before.description
            &&& after.coordinate == before.coordinate
        }),
{
    assert(tags.push(t).drop_last() =~= tags);
}

proof fn lemma_list_keys_distinct()
    ensures
        "names"@ != "titles"@,
        "names"@ != "description"@,
        "names"@ != "d"@,
        "titles"@ != "description"@,
        "titles"@ != "d"@,
        "description"@ != "d"@,
{
    reveal_strlit("names");
    reveal_strlit("titles");
    reveal_strlit("description");
    reveal_strlit("d");
    assert("names"@.len() == 5);
    assert("titles"@.len() == 6);
    assert("description"@.len() == 11);
    assert("d"@.len() == 1);
}

/// A last `titles` tag with at least two parts sets the title to its first
/// value and, with a third part, the plural title to it and the pair to
/// both; without one they stay as they were. Nothing else changes.
pub proof fn lemma_list_fields_titles_tag(tags: Seq<Seq<Seq<char>>>, t: Seq<Seq<char>>, prefix: Seq<char>)
    requires
        t.len() >= 2,
        t[0] == "titles"@,
    ensures
        ({
            let before = list_fields(tags, prefix);
            let after = list_fields(tags.push(t), prefix);
            &&& after.title == Some(t[1])
            &&& t.len() >= 3 ==> after.plural_title == Some(t[2]) && after.titles == Some((t[1], t[2]))
            &&& t.len() < 3 ==> after.plural_title == before.plural_title && after.titles == before.titles
            &&& after.name == before.name
            &&& after.plural_name == before.plural_name
            &&& after.names == before.names
            &&& after.description == before.description
            &&& after.coordinate == before.coordinate
        }),
{
    lemma_list_keys_distinct();
    assert(tags.push(t).drop_last() =~= tags);
}

/// A last `description` tag with at least two parts sets the description to
/// its first value; a last `d` tag sets the coordinate to the prefix
/// followed by its value. Nothing else changes.
pub proof fn lemma_list_fields_description_and_d_tags(
    tags: Seq<Seq<Seq<char>>>,
    t: Seq<Seq<char>>,
    prefix: Seq<char>,
)
    requires
        t.len() >= 2,
        t[0] == "description"@ || t[0] == "d"@,
    ensures
        ({
            let before = list_fields(tags, prefix);
            let after = list_fields(tags.push(t), prefix);
            &&& t[0] == "description"@ ==> after == ListFields { description: Some(t[1]), ..before }
            &&& t[0] == "d"@ ==> after == ListFields { coordinate: Some(prefix + t[1]), ..before }
        }),
{
    lemma_list_keys_distinct();
    assert(tags.push(t).drop_last() =~= tags);
}

/// The coordinate of an event with d-tag `d`: `kind:pubkey:d`.
pub open spec fn coordinate_of(kind: u16, pubkey: Seq<u8>, d: Seq<char>) -> Seq<char> {
    decimal(kind as nat) + ":"@ + hex_encode(pubkey) + ":"@ + d
}

/// The view of an optional string.
pub open spec fn opt_view(o: Option<String>) -> Option<Seq<char>> {
    match o {
        Some(s) => Some(s@),
        None => None,
    }
}

/// The view of an optional pair of strings.
pub open spec fn opt_pair_view(o: Option<(String, String)>) -> Option<(Seq<char>, Seq<char>)> {
    match o {
        Some((a, b)) => Some((a@, b@)),
        None => None,
    }
}

impl EventJson {
    /// The list fields this rendering holds.
    pub open spec fn fields(&self) -> ListFields {
        ListFields {
            name: opt_view(self.name),
            plural_name: opt_view(self.plural_name),
            names: opt_pair_view(self.names),
            title: opt_view(self.title),
            plural_title: opt_view(self.plural_title),
            titles: opt_pair_view(self.titles),
            description: opt_view(self.description),
            coordinate: opt_view(self.coordinate),
        }
    }
}

fn copy_opt(o: &Option<String>) -> (r: Option<String>)
    ensures
        opt_view(r) == opt_view(*o),
{
    match o {
        Some(s) => Some(s.clone()),
        None => None,
    }
}

/// Reads one tag into the rendering (see `apply_list_tag`).
fn apply_tag(j: &mut EventJson, t: &Tag, prefix: &str)
    ensures
        final(j).fields() == apply_list_tag(old(j).fields(), t@, prefix@),
        final(j).event_id == old(j).event_id,
        final(j).kind == old(j).kind,
        final(j).pubkey == old(j).pubkey,
        final(j).created_at == old(j).created_at,
        final(j).tags == old(j).tags,
        final(j).content == old(j).content,
        final(j).sig == old(j).sig,
{
    let parts = &t.parts;
    if parts.len() < 2 {
        return ;
    }
    let key = parts[0].as_str();
    if str_eq(key, "names") {
        j.name = Some(parts[1].clone());
        if parts.len() >= 3 {
            j.plural_name = Some(parts[2].clone());
            j.names = Some((parts[1].clone(), parts[2].clone()));
        }
    } else if str_eq(key, "titles") {
        j.title = Some(parts[1].clone());
        if parts.len() >= 3 {
            j.plural_title = Some(parts[2].clone());
            j.titles = Some((parts[1].clone(), parts[2].clone()));
        }
    } else if str_eq(key, "description") {
        j.description = Some(parts[1].clone());
    } else if str_eq(key, "d") {
        j.coordinate = Some(concat2(prefix, parts[1].as_str()));
    }
}

/// Convert an event into its output rendering with the list fields extracted.
pub fn event_to_json(event: &Event) -> (j: EventJson)
    ensures
        j.event_id@ == hex_encode(event.id@),
        j.kind == event.kind,
        j.pubkey@ == hex_encode(event.pubkey@),
        j.created_at == event.created_at,
        rows_view(j.tags@) == tags_view(
            event.tags@,
        ),
        j.content@ == event.content@,
        j.sig@ == hex_encode(event.sig@),
        j.fields() == list_fields(
            tags_view(event.tags@),
            coordinate_of(event.kind, event.pubkey@, seq![]),
        ),
{
    let pubkey_hex = event.pubkey.to_hex();
    let mut prefix = String::new();
    push_decimal(&mut prefix, event.kind as u64);
    prefix.append(":");
    prefix.append(pubkey_hex.as_str());
    prefix.append(":");
    assert(prefix@ =~= coordinate_of(event.kind, event.pubkey@, seq![]));
    let mut j = EventJson {
        event_id: event.id_hex(),
        kind: event.kind,
        pubkey: pubkey_hex,
        created_at: event.created_at,
        tags: tag_parts(event.tags.as_slice()),
        content: event.content.clone(),
        sig: event.sig_hex(),
        name: None,
        plural_name: None,
        names: None,
        title: None,
        plural_title: None,
        titles: None,
        description: None,
        coordinate: None,
    };
    let ghost tv = tags_view(event.tags@);
    let mut i: usize = 0;
    while i < event.tags.len()
        invariant
            i <= event.tags@.len(),
            tv == tags_view(event.tags@),
            j.fields() == list_fields(tv.take(i as int), prefix@),
            j.event_id@ == hex_encode(event.id@),
            j.kind == event.kind,
            j.pubkey@ == hex_encode(event.pubkey@),
            j.created_at == event.created_at,
            rows_view(j.tags@) == tv,
            j.content@ == event.content@,
            j.sig@ == hex_encode(event.sig@),
        decreases event.tags@.len() - i,
    {
        apply_tag(&mut j, &event.tags[i], prefix.as_str());
        proof {
            assert(tv.take(i + 1).drop_last() =~= tv.take(i as int));
            assert(tv.take(i + 1).last() == event.tags@[i as int]@);
        }
        i = i + 1;
    }
    assert(tv.take(event.tags@.len() as int) =~= tv);
    j
}

// ---------------------------------------------------------------------------
// Ordering: newest first, then by id
// ---------------------------------------------------------------------------

/// Something with a creation time and an identifier, ordered newest first
/// and then by identifier.
pub trait Chronological {
    spec fn spec_created_at(&self) -> u64;

    spec fn spec_ident(&self) -> Seq<char>;

    fn created_at_secs(&self) -> (r: u64)
        ensures
            r == self.spec_created_at(),
    ;

    fn ident(&self) -> (r: String)
        ensures
            r@ == self.spec_ident(),
    ;
}

impl Chronological for Event {
    open spec fn spec_created_at(&self) -> u64 {
        self.created_at
    }

    open spec fn spec_ident(&self) -> Seq<char> {
        hex_encode(self.id@)
    }

    fn created_at_secs(&self) -> (r: u64) {
        self.created_at
    }

    fn ident(&self) -> (r: String) {
        self.id_hex()
    }
}

impl Chronological for EventJson {
    open spec fn spec_created_at(&self) -> u64 {
        self.created_at
    }

    open spec fn spec_ident(&self) -> Seq<char> {
        self.event_id@
    }

    fn created_at_secs(&self) -> (r: u64) {
        self.created_at
    }

    fn ident(&self) -> (r: String) {
        self.event_id.clone()
    }
}

/// `a` comes strictly before `b`: it is newer, or as new with a smaller id.
pub open spec fn comes_before(c1: u64, id1: Seq<char>, c2: u64, id2: Seq<char>) -> bool {
    c1 > c2 || (c1 == c2 && lex_lt(id1, id2))
}

/// `a` must come strictly before `b`.
pub open spec fn before<T: Chronological>(a: T, b: T) -> bool {
    comes_before(a.spec_created_at(), a.spec_ident(), b.spec_created_at(), b.spec_ident())
}

/// Newest first, then by id: no element must come before an earlier one.
pub open spec fn newest_first<T: Chronological>(s: Seq<T>) -> bool {
    forall|i: int, j: int| 0 <= i < j < s.len() ==> !before(#[trigger] s[j], #[trigger] s[i])
}

proof fn lemma_before_transitive<T: Chronological>(a: T, b: T, c: T)
    requires
        before(a, b),
        before(b, c),
    ensures
        before(a, c),
{
    if a.spec_created_at() == b.spec_created_at() && b.spec_created_at() == c.spec_created_at() {
        lemma_lex_lt_transitive(a.spec_ident(), b.spec_ident(), c.spec_ident());
    }
}

proof fn lemma_before_irreflexive<T: Chronological>(a: T)
    ensures
        !before(a, a),
{
    lemma_lex_lt_irreflexive(a.spec_ident());
}

/// `a` and `b` have the same creation time and the same identifier: neither
/// must come before the other.
pub open spec fn same_key<T: Chronological>(a: T, b: T) -> bool {
    a.spec_created_at() == b.spec_created_at() && a.spec_ident() == b.spec_ident()
}

/// The elements of `s` with the key of `k`, in order.
pub open spec fn with_key<T: Chronological>(s: Seq<T>, k: T) -> Seq<T>
    decreases s.len(),
{
    if s.len() == 0 {
        seq![]
    } else {
        with_key(s.drop_last(), k) + if same_key(s.last(), k) {
            seq![s.last()]
        } else {
            seq![]
        }
    }
}

proof fn lemma_with_key_add<T: Chronological>(a: Seq<T>, b: Seq<T>, k: T)
    ensures
        with_key(a + b, k) == with_key(a, k) + with_key(b, k),
    decreases b.len(),
{
    if b.len() == 0 {
        assert(a + b =~= a);
        assert(with_key(a, k) + with_key(b, k) =~= with_key(a, k));
    } else {
        lemma_with_key_add(a, b.drop_last(), k);
        assert((a + b).drop_last() =~= a + b.drop_last());
        assert((a + b).last() == b.last());
        assert(with_key(a + b, k) =~= with_key(a, k) + with_key(b, k));
    }
}

proof fn lemma_with_key_none<T: Chronological>(s: Seq<T>, k: T)
    requires
        forall|i: int| 0 <= i < s.len() ==> !same_key(#[trigger] s[i], k),
    ensures
        with_key(s, k) == Seq::<T>::empty(),
    decreases s.len(),
{
    if s.len() > 0 {
        assert(s.last() == s[s.len() - 1]);
        lemma_with_key_none(s.drop_last(), k);
    }
}

proof fn lemma_with_key_one<T: Chronological>(x: T, k: T)
    ensures
        with_key(seq![x], k) == (if same_key(x, k) {
            seq![x]
        } else {
            Seq::<T>::empty()
        }),
{
    let empty = Seq::<T>::empty();
    assert(seq![x].drop_last() =~= empty);
    assert(seq![x].last() == x);
    assert(with_key(empty, k) =~= empty);
    assert(with_key(seq![x], k) =~= with_key(empty, k) + if same_key(x, k) {
        seq![x]
    } else {
        empty
    });
}

fn is_before<T: Chronological>(a: &T, b: &T) -> (r: bool)
    ensures
        r == before(*a, *b),
{
    let ca = a.created_at_secs();
    let cb = b.created_at_secs();
    if ca != cb {
        ca > cb
    } else {
        let ia = a.ident();
        let ib = b.ident();
        str_lt(ia.as_str(), ib.as_str())
    }
}

/// Sorts newest first, then by ascending id. Elements with the same time
/// and id keep their relative order.
pub fn sort_newest_first<T: Chronological>(items: &mut Vec<T>)
    ensures
        final(items)@.to_multiset() == old(items)@.to_multiset(),
        newest_first(final(items)@),
        forall|k: T| #[trigger] with_key(final(items)@, k) == with_key(old(items)@, k),
{
    let mut sorted: Vec<T> = Vec::new();
    broadcast use vstd::seq_lib::group_to_multiset_ensures;

    let ghost start_items = items@;
    while items.len() > 0
        invariant
            sorted@.to_multiset().add(items@.to_multiset()) == start_items.to_multiset(),
            newest_first(sorted@),
            forall|kk: T| #[trigger] with_key(start_items, kk) == with_key(sorted@, kk) + with_key(items@, kk),
        decreases items@.len(),
    {
        let ghost rest = items@;
        let x = items.remove(0);
        assert(rest =~= seq![x] + items@);
        proof {
            vstd::seq_lib::lemma_multiset_commutative(seq![x], items@);
            assert(seq![x] =~= Seq::<T>::empty().push(x));
        }
        // the first position whose element must come after `x`
        let mut k: usize = 0;
        while k < sorted.len() && !is_before(&x, &sorted[k])
            invariant
                k <= sorted@.len(),
                forall|i: int| 0 <= i < k ==> !before(x, #[trigger] sorted@[i]),
            decreases sorted@.len() - k,
        {
            k = k + 1;
        }
        let ghost old_sorted = sorted@;
        proof {
            assert forall|i: int| k <= i < old_sorted.len() implies !before(
                #[trigger] old_sorted[i],
                x,
            ) by {
                if before(old_sorted[i], x) {
                    assert(before(x, old_sorted[k as int]));
                    if i == k {
                        lemma_before_transitive(old_sorted[i], x, old_sorted[i]);
                        lemma_before_irreflexive(old_sorted[i]);
                    } else {
                        lemma_before_transitive(old_sorted[i], x, old_sorted[k as int]);
                    }
                }
            }
        }
        sorted.insert(k, x);
        proof {
            assert(sorted@ =~= old_sorted.insert(k as int, x));
            assert forall|i: int, j: int| 0 <= i < j < sorted@.len() implies !before(
                #[trigger] sorted@[j],
                #[trigger] sorted@[i],
            ) by {
                if i < k && j < k {
                    assert(sorted@[i] == old_sorted[i]);
                    assert(sorted@[j] == old_sorted[j]);
                } else if i < k && j == k {
                    assert(sorted@[i] == old_sorted[i]);
                } else if i < k && j > k {
                    assert(sorted@[i] == old_sorted[i]);
                    assert(sorted@[j] == old_sorted[j - 1]);
                } else if i == k {
                    assert(sorted@[j] == old_sorted[j - 1]);
                } else {
                    assert(sorted@[i] == old_sorted[i - 1]);
                    assert(sorted@[j] == old_sorted[j - 1]);
                }
            }
            vstd::seq_lib::lemma_multiset_commutative(old_sorted.take(k as int), old_sorted.skip(k as int));
            assert(old_sorted =~= old_sorted.take(k as int) + old_sorted.skip(k as int));
            assert(sorted@ =~= old_sorted.take(k as int) + seq![x] + old_sorted.skip(k as int));
            vstd::seq_lib::lemma_multiset_commutative(old_sorted.take(k as int) + seq![x], old_sorted.skip(k as int));
            vstd::seq_lib::lemma_multiset_commutative(old_sorted.take(k as int), seq![x]);
            let left = old_sorted.take(k as int);
            let right = old_sorted.skip(k as int);
            assert forall|kk: T| #[trigger] with_key(start_items, kk) == with_key(sorted@, kk) + with_key(items@, kk) by {
                lemma_with_key_add(seq![x], items@, kk);
                lemma_with_key_add(left, right, kk);
                lemma_with_key_add(left + seq![x], right, kk);
                lemma_with_key_add(left, seq![x], kk);
                lemma_with_key_one(x, kk);
                if same_key(x, kk) {
                    assert forall|i: int| 0 <= i < right.len() implies !same_key(#[trigger] right[i], kk) by {
                        if same_key(right[i], kk) {
                            assert(right[i] == old_sorted[k + i]);
                            assert(before(x, old_sorted[k as int]));
                            if i == 0 {
                                lemma_lex_lt_irreflexive(x.spec_ident());
                            } else {
                                assert(!before(old_sorted[k + i], old_sorted[k as int]));
                            }
                        }
                    }
                    lemma_with_key_none(right, kk);
                }
                assert(with_key(sorted@, kk) + with_key(items@, kk) =~= with_key(start_items, kk));
            }
        }
    }
    assert(items@ =~= Seq::<T>::empty());
    proof {
        assert forall|kk: T| #[trigger] with_key(sorted@, kk) == with_key(start_items, kk) by {
            assert(with_key(items@, kk) =~= Seq::<T>::empty());
            assert(with_key(sorted@, kk) + with_key(items@, kk) =~= with_key(sorted@, kk));
        }
    }
    *items = sorted;
}

/// Sort events by `created_at` descending, then id ascending; events with
/// the same time and id keep their order.
pub fn sort_events_desc(events: &mut Vec<Event>)
    ensures
        final(events)@.to_multiset() == old(events)@.to_multiset(),
        newest_first(final(events)@),
        forall|k: Event| #[trigger] with_key(final(events)@, k) == with_key(old(events)@, k),
{
    sort_newest_first(events);
}

/// Sort rendered events by `created_at` descending, then `event_id`
/// ascending; rows with the same time and id keep their order.
pub fn sort_event_json_desc(events: &mut Vec<EventJson>)
    ensures
        final(events)@.to_multiset() == old(events)@.to_multiset(),
        newest_first(final(events)@),
        forall|k: EventJson| #[trigger] with_key(final(events)@, k) == with_key(old(events)@, k),
{
    sort_newest_first(events);
}

/// Sorted events are newest first; among events created at the same second,
/// the lowercase hex forms of their ids ascend.
pub proof fn lemma_sorted_events_order(s: Seq<Event>)
    requires
        newest_first(s),
    ensures
        forall|i: int, j: int|
            0 <= i < j < s.len() ==> #[trigger] s[i].created_at >= #[trigger] s[j].created_at,
        forall|i: int, j: int|
            0 <= i < j < s.len() && #[trigger] s[i].created_at == #[trigger] s[j].created_at
                ==> !lex_lt(hex_encode(s[j].id@), hex_encode(s[i].id@)),
{
    assert forall|i: int, j: int| 0 <= i < j < s.len() implies #[trigger] s[i].created_at
        >= #[trigger] s[j].created_at by {
        assert(!before(s[j], s[i]));
    }
    assert forall|i: int, j: int|
        0 <= i < j < s.len() && #[trigger] s[i].created_at == #[trigger] s[j].created_at implies !lex_lt(
        hex_encode(s[j].id@),
        hex_encode(s[i].id@),
    ) by {
        assert(!before(s[j], s[i]));
    }
}

/// Sorted rendered events are newest first; among those created at the
/// same second, their `event_id` texts ascend.
pub proof fn lemma_sorted_event_json_order(s: Seq<EventJson>)
    requires
        newest_first(s),
    ensures
        forall|i: int, j: int|
            0 <= i < j < s.len() ==> #[trigger] s[i].created_at >= #[trigger] s[j].created_at,
        forall|i: int, j: int|
            0 <= i < j < s.len() && #[trigger] s[i].created_at == #[trigger] s[j].created_at
                ==> !lex_lt(s[j].event_id@, s[i].event_id@),
{
    assert forall|i: int, j: int| 0 <= i < j < s.len() implies #[trigger] s[i].created_at
        >= #[trigger] s[j].created_at by {
        assert(!before(s[j], s[i]));
    }
    assert forall|i: int, j: int|
        0 <= i < j < s.len() && #[trigger] s[i].created_at == #[trigger] s[j].created_at implies !lex_lt(
        s[j].event_id@,
        s[i].event_id@,
    ) by {
        assert(!before(s[j], s[i]));
    }
}

// ---------------------------------------------------------------------------
// Paging
// ---------------------------------------------------------------------------

/// The page of `len` values starting at `offset` asks for: empty when the
/// offset is past the end or the limit is zero.
pub open spec fn page_end(len: nat, offset: nat, limit: nat) -> nat {
    if offset >= len || limit == 0 {
        offset
    } else if offset + limit <= len {
        offset + limit
    } else {
        len
    }
}

/// `r` is the page of `values` at `offset` with at most `limit` entries:
/// clones of `values[offset..]`, as many as fit.
pub open spec fn is_page<T: Clone>(values: Seq<T>, offset: nat, limit: nat, r: Seq<T>) -> bool {
    &&& r.len() == page_end(values.len(), offset, limit) - offset
    &&& forall|i: int| 0 <= i < r.len() ==> cloned(values[offset + i], #[trigger] r[i])
}

/// Two consecutive pages, of `a` and then `b` entries, hold clones of the
/// same values, in the same order, as the one page of `a + b` entries at the
/// first offset: paging leaves no gap and repeats nothing. Where cloning
/// gives back an equal value, the two pages joined are that one page.
pub proof fn lemma_pages_concatenate<T: Clone>(
    values: Seq<T>,
    offset: nat,
    a: nat,
    b: nat,
    first: Seq<T>,
    second: Seq<T>,
    whole: Seq<T>,
)
    requires
        is_page(values, offset, a, first),
        is_page(values, offset + a, b, second),
        is_page(values, offset, a + b, whole),
    ensures
        (first + second).len() == whole.len(),
        forall|i: int|
            0 <= i < whole.len() ==> cloned(values[offset + i], #[trigger] (first + second)[i])
                && cloned(values[offset + i], whole[i]),
        (forall|x: T, y: T| #[trigger] cloned(x, y) ==> x == y) ==> first + second == whole,
{
    assert forall|i: int| 0 <= i < whole.len() implies cloned(
        values[offset + i],
        #[trigger] (first + second)[i],
    ) && cloned(values[offset + i], whole[i]) by {
        if i < first.len() {
            assert((first + second)[i] == first[i]);
        } else {
            let k = i - first.len();
            assert((first + second)[i] == second[k]);
            assert(offset + a + k == offset + i);
        }
    }
    if forall|x: T, y: T| #[trigger] cloned(x, y) ==> x == y {
        assert forall|i: int| 0 <= i < whole.len() implies (first + second)[i] == whole[i] by {
            assert(cloned(values[offset + i], (first + second)[i]));
            assert(cloned(values[offset + i], whole[i]));
        }
        assert(first + second =~= whole);
    }
}

/// Return a page of items from a slice.
pub fn paginate<T: Clone>(values: &[T], offset: usize, limit: usize) -> (r: Vec<T>)
    ensures
        offset >= values@.len() || limit == 0 ==> r@.len() == 0,
        is_page(values@, offset as nat, limit as nat, r@),
{
    if offset >= values.len() || limit == 0 {
        return Vec::new();
    }
    let end: usize = if limit > values.len() - offset {
        values.len()
    } else {
        offset + limit
    };
    let mut r: Vec<T> = Vec::new();
    let mut i: usize = offset;
    while i < end
        invariant
            offset <= i <= end <= values@.len(),
            r@.len() == i - offset,
            forall|k: int| 0 <= k < r@.len() ==> cloned(values@[offset + k], #[trigger] r@[k]),
        decreases end - i,
    {
        r.push(values[i].clone());
        i = i + 1;
    }
    r
}

} // verus!
