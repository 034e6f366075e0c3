//! How amounts, bounty states and wallet cards are written on screen.
use vstd::prelude::*;

use crate::text::{chars_of, decimal, lemma_decimal, push_char, string_from_chars, u64_to_decimal, is_digit};
use crate::ui::types::{BountyStatus, WalletVariant};

verus! {

/// Decimal digits with a comma between each group of three, counted from
/// the right.
pub open spec fn group_thousands(d: Seq<char>) -> Seq<char>
    decreases d.len(),
{
    if d.len() <= 3 {
        d
    } else {
        group_thousands(d.take(d.len() - 3)) + seq![','] + d.skip(d.len() - 3)
    }
}

fn group_digits(d: &[char], end: usize) -> (s: String)
    requires
        end <= d@.len(),
    ensures
        s@ == group_thousands(d@.take(end as int)),
    decreases end,
{
    if end <= 3 {
        string_from_chars(d, 0, end)
    } else {
        let mut s = group_digits(d, end - 3);
        push_char(&mut s, ',');
        let tail = string_from_chars(d, end - 3, end);
        s.append(tail.as_str());
        assert(d@.take(end as int).take(end - 3) =~= d@.take(end - 3));
        assert(d@.take(end as int).skip(end - 3) =~= d@.subrange(end - 3, end as int));
        s
    }
}

/// An amount of satoshis with thousands separators, e.g. `1,250,000`.
pub fn format_sats(sats: u64) -> (s: String)
    ensures
        s@ == group_thousands(decimal(sats as nat)),
{
    let digits = u64_to_decimal(sats);
    let v = chars_of(digits.as_str());
    assert(v@.take(v@.len() as int) =~= v@);
    group_digits(v.as_slice(), v.len())
}

/// `s` without any comma.
pub open spec fn without_commas(s: Seq<char>) -> Seq<char>
    decreases s.len(),
{
    if s.len() == 0 {
        s
    } else if s.last() == ',' {
        without_commas(s.drop_last())
    } else {
        without_commas(s.drop_last()).push(s.last())
    }
}

proof fn lemma_without_commas_add(a: Seq<char>, b: Seq<char>)
    ensures
        without_commas(a + b) == without_commas(a) + without_commas(b),
    decreases b.len(),
{
    if b.len() == 0 {
        assert(a + b =~= a);
        assert(without_commas(a) + without_commas(b) =~= without_commas(a));
    } else {
        lemma_without_commas_add(a, b.drop_last());
        assert((a + b).drop_last() =~= a + b.drop_last());
        assert((a + b).last() == b.last());
        if b.last() != ',' {
            assert(without_commas(a) + without_commas(b.drop_last()).push(b.last()) =~= (without_commas(a)
                + without_commas(b.drop_last())).push(b.last()));
        }
    }
}

proof fn lemma_without_commas_none(s: Seq<char>)
    requires
        !s.contains(','),
    ensures
        without_commas(s) == s,
    decreases s.len(),
{
    if s.len() > 0 {
        assert(s[s.len() - 1] == s.last());
        assert(!s.drop_last().contains(',')) by {
            if s.drop_last().contains(',') {
                let i = choose|i: int| 0 <= i < s.drop_last().len() && s.drop_last()[i] == ',';
                assert(s[i] == ',');
            }
        }
        lemma_without_commas_none(s.drop_last());
        assert(s.drop_last().push(s.last()) =~= s);
    }
}

proof fn lemma_group_thousands_digits(d: Seq<char>)
    requires
        !d.contains(','),
    ensures
        without_commas(group_thousands(d)) == d,
    decreases d.len(),
{
    if d.len() <= 3 {
        lemma_without_commas_none(d);
    } else {
        let a = d.take(d.len() - 3);
        let b = d.skip(d.len() - 3);
        assert(!a.contains(',')) by {
            if a.contains(',') {
                let i = choose|i: int| 0 <= i < a.len() && a[i] == ',';
                assert(d[i] == ',');
            }
        }
        assert(!b.contains(',')) by {
            if b.contains(',') {
                let i = choose|i: int| 0 <= i < b.len() && b[i] == ',';
                assert(d[d.len() - 3 + i] == ',');
            }
        }
        lemma_group_thousands_digits(a);
        lemma_without_commas_add(group_thousands(a) + seq![','], b);
        lemma_without_commas_add(group_thousands(a), seq![',']);
        assert(seq![','].drop_last() =~= Seq::<char>::empty());
        let comma = seq![','];
        assert(comma.len() == 1 && comma.last() == ',');
        assert(without_commas(comma) == without_commas(comma.drop_last()));
        assert(without_commas(Seq::<char>::empty()) == Seq::<char>::empty());
        assert(without_commas(seq![',']) =~= Seq::<char>::empty());
        lemma_without_commas_none(b);
        assert(group_thousands(d) == group_thousands(a) + seq![','] + b);
        assert(without_commas(group_thousands(a)) + without_commas(seq![',']) =~= a);
        assert(a + b =~= d);
    }
}

/// Removing the separators from a formatted amount gives the amount's
/// decimal digits back.
pub proof fn lemma_format_sats_digits(sats: u64)
    ensures
        without_commas(group_thousands(decimal(sats as nat))) == decimal(sats as nat),
{
    lemma_decimal(sats as nat);
    let d = decimal(sats as nat);
    assert(!d.contains(',')) by {
        if d.contains(',') {
            let i = choose|i: int| 0 <= i < d.len() && d[i] == ',';
            assert(is_digit(d[i]));
        }
    }
    lemma_group_thousands_digits(d);
}

/// Grouping `n` digits writes one comma for each full group of three after
/// the first group: the text is `n + (n - 1) / 3` long, starts and ends
/// with the first and last digit, and a character is a comma exactly when a
/// multiple of four characters, counted from the end, stands from it to the
/// end (so each comma is followed by exactly three digits).
proof fn lemma_group_thousands_shape(d: Seq<char>)
    requires
        d.len() > 0,
        !d.contains(','),
    ensures
        group_thousands(d).len() == d.len() + (d.len() - 1) / 3,
        group_thousands(d)[0] == d[0],
        group_thousands(d).last() == d.last(),
        forall|i: int|
            0 <= i < group_thousands(d).len() ==> (#[trigger] group_thousands(d)[i] == ','
                <==> (group_thousands(d).len() - i) % 4 == 0),
    decreases d.len(),
{
    let g = group_thousands(d);
    let n = d.len();
    if n <= 3 {
        assert forall|i: int| 0 <= i < g.len() implies (#[trigger] g[i] == ',' <==> (g.len() - i) % 4
            == 0) by {
            assert(g[i] == d[i]);
            if d[i] == ',' {
                assert(d.contains(','));
            }
        }
    } else {
        let a = d.take(n - 3);
        let b = d.skip(n - 3);
        assert(!a.contains(',')) by {
            if a.contains(',') {
                let k = choose|k: int| 0 <= k < a.len() && a[k] == ',';
                assert(d[k] == ',');
            }
        }
        lemma_group_thousands_shape(a);
        let ga = group_thousands(a);
        assert(g == ga + seq![','] + b);
        assert(g.len() == ga.len() + 4);
        assert((n - 4) / 3 + 1 == (n - 1) / 3);
        assert forall|i: int| 0 <= i < g.len() implies (#[trigger] g[i] == ',' <==> (g.len() - i) % 4
            == 0) by {
            if i < ga.len() {
                assert(g[i] == ga[i]);
                assert((g.len() - i) % 4 == (ga.len() - i) % 4);
            } else if i == ga.len() {
                assert(g[i] == ',');
            } else {
                let k = i - ga.len() - 1;
                assert(g[i] == b[k]);
                assert(b[k] == d[n - 3 + k]);
                if d[n - 3 + k] == ',' {
                    assert(d.contains(','));
                }
            }
        }
        assert(g[0] == ga[0]);
        assert(g.last() == b.last());
    }
}

/// A formatted amount is the amount's decimal digits with a comma before
/// each group of three counted from the right: it starts with the first
/// digit, ends with the last, is `n + (n - 1) / 3` long for `n` digits, has
/// a comma exactly where a multiple of four characters stands from it to
/// the end, and gives back the digits with its commas taken out.
pub proof fn lemma_format_sats_grouping(sats: u64)
    ensures
        ({
            let d = decimal(sats as nat);
            let g = group_thousands(d);
            &&& g.len() == d.len() + (d.len() - 1) / 3
            &&& g[0] == d[0]
            &&& g.last() == d.last()
            &&& forall|i: int| 0 <= i < g.len() ==> (#[trigger] g[i] == ',' <==> (g.len() - i) % 4 == 0)
            &&& without_commas(g) == d
        }),
{
    lemma_decimal(sats as nat);
    let d = decimal(sats as nat);
    assert(!d.contains(',')) by {
        if d.contains(',') {
            let i = choose|i: int| 0 <= i < d.len() && d[i] == ',';
            assert(is_digit(d[i]));
        }
    }
    lemma_group_thousands_shape(d);
    lemma_group_thousands_digits(d);
}

/// The badge of a bounty state: its style classes and its label.
pub open spec fn badge_of(status: BountyStatus) -> (Seq<char>, Seq<char>) {
    match status {
        BountyStatus::Open => (
            "bg-emerald-400/10 text-emerald-400 border border-emerald-400/20"@,
            "Open"@,
        ),
        BountyStatus::Fulfilled => (
            "bg-blue-400/10 text-blue-400 border border-blue-400/20"@,
            "Fulfilled"@,
        ),
        BountyStatus::Expired => (
            "bg-gray-400/10 text-gray-400 border border-gray-400/20"@,
            "Expired"@,
        ),
    }
}

/// A badge's label names the state it shows (`Open`, `Fulfilled`,
/// `Expired`), so distinct states show distinct labels, and distinct styles.
pub proof fn lemma_badge_names_state(a: BountyStatus, b: BountyStatus)
    ensures
        badge_of(BountyStatus::Open).1 == "Open"@,
        badge_of(BountyStatus::Fulfilled).1 == "Fulfilled"@,
        badge_of(BountyStatus::Expired).1 == "Expired"@,
        badge_of(a).1 == badge_of(b).1 ==> a == b,
        badge_of(a).0 == badge_of(b).0 ==> a == b,
{
    reveal_strlit("Open");
    reveal_strlit("Fulfilled");
    reveal_strlit("Expired");
    reveal_strlit("bg-emerald-400/10 text-emerald-400 border border-emerald-400/20");
    reveal_strlit("bg-blue-400/10 text-blue-400 border border-blue-400/20");
    reveal_strlit("bg-gray-400/10 text-gray-400 border border-gray-400/20");
    assert("Open"@.len() == 4);
    assert("Fulfilled"@.len() == 9);
    assert("Expired"@.len() == 7);
    let e = "bg-emerald-400/10 text-emerald-400 border border-emerald-400/20"@;
    let bl = "bg-blue-400/10 text-blue-400 border border-blue-400/20"@;
    let gr = "bg-gray-400/10 text-gray-400 border border-gray-400/20"@;
    assert(e[3] == 'e' && bl[3] == 'b' && gr[3] == 'g');
}

/// The badge of a bounty state: its style classes and its label.
pub fn bounty_badge(status: BountyStatus) -> (r: (&'static str, &'static str))
    ensures
        (r.0@, r.1@) == badge_of(status),
{
    match status {
        BountyStatus::Open => (
            "bg-emerald-400/10 text-emerald-400 border border-emerald-400/20",
            "Open",
        ),
        BountyStatus::Fulfilled => (
            "bg-blue-400/10 text-blue-400 border border-blue-400/20",
            "Fulfilled",
        ),
        BountyStatus::Expired => (
            "bg-gray-400/10 text-gray-400 border border-gray-400/20",
            "Expired",
        ),
    }
}

/// The icon, label and accent colour of a wallet card.
pub open spec fn card_style_of(variant: WalletVariant) -> (Seq<char>, Seq<char>, Seq<char>) {
    match variant {
        WalletVariant::Bitcoin => ("ph ph-currency-btc"@, "Bitcoin (on-chain)"@, "text-orange-500"@),
        WalletVariant::Lightning => ("ph ph-lightning"@, "Lightning"@, "text-amber-400"@),
    }
}

/// The icon, label and accent colour of a wallet card.
pub fn wallet_card_style(variant: WalletVariant) -> (r: (&'static str, &'static str, &'static str))
    ensures
        (r.0@, r.1@, r.2@) == card_style_of(variant),
{
    match variant {
        WalletVariant::Bitcoin => ("ph ph-currency-btc", "Bitcoin (on-chain)", "text-orange-500"),
        WalletVariant::Lightning => ("ph ph-lightning", "Lightning", "text-amber-400"),
    }
}

/// The number of bytes UTF-8 takes for a character.
pub open spec fn utf8_width(c: char) -> nat {
    if (c as u32) < 0x80 {
        1
    } else if (c as u32) < 0x800 {
        2
    } else if (c as u32) < 0x10000 {
        3
    } else {
        4
    }
}

/// The number of bytes UTF-8 takes for a text.
pub open spec fn utf8_len(s: Seq<char>) -> nat
    decreases s.len(),
{
    if s.len() == 0 {
        0
    } else {
        utf8_len(s.drop_last()) + utf8_width(s.last())
    }
}

/// The first `i` characters of `s` take exactly `b` bytes.
pub open spec fn boundary_at(s: Seq<char>, b: nat, i: int) -> bool {
    0 <= i <= s.len() && utf8_len(s.take(i)) == b
}

/// Byte offset `b` of `s` falls between two characters.
pub open spec fn is_char_boundary(s: Seq<char>, b: nat) -> bool {
    exists|i: int| boundary_at(s, b, i)
}

/// The number of characters before byte offset `b`.
pub open spec fn char_index(s: Seq<char>, b: nat) -> int {
    choose|i: int| boundary_at(s, b, i)
}

/// A key written for the profile screen: longer than 20 bytes, it is cut to
/// its first 12 bytes, `...`, and its last 8 bytes.
pub open spec fn shortened_key(s: Seq<char>) -> Seq<char> {
    if utf8_len(s) > 20 {
        s.take(char_index(s, 12)) + "..."@ + s.skip(char_index(s, (utf8_len(s) - 8) as nat))
    } else {
        s
    }
}

/// The key line of the profile screen.
pub open spec fn key_display(npub: Option<Seq<char>>) -> Seq<char> {
    match npub {
        Some(n) => shortened_key(n),
        None => "Not connected"@,
    }
}

/// The cut of a long key falls between characters (slicing a `str` at
/// any other byte fails).
pub open spec fn key_cuttable(s: Seq<char>) -> bool {
    utf8_len(s) > 20 ==> is_char_boundary(s, 12) && is_char_boundary(s, (utf8_len(s) - 8) as nat)
}

proof fn lemma_utf8_len_grows(s: Seq<char>, i: int, j: int)
    requires
        0 <= i < j <= s.len(),
    ensures
        utf8_len(s.take(i)) < utf8_len(s.take(j)),
    decreases j - i,
{
    assert(s.take(j).drop_last() =~= s.take(j - 1));
    if i < j - 1 {
        lemma_utf8_len_grows(s, i, j - 1);
    }
}

proof fn lemma_boundary_unique(s: Seq<char>, b: nat, i: int)
    requires
        boundary_at(s, b, i),
    ensures
        char_index(s, b) == i,
{
    let k = char_index(s, b);
    assert(boundary_at(s, b, k));
    if k < i {
        lemma_utf8_len_grows(s, k, i);
    } else if i < k {
        lemma_utf8_len_grows(s, i, k);
    }
}

fn width(c: char) -> (w: usize)
    ensures
        w == utf8_width(c),
{
    if (c as u32) < 0x80 {
        1
    } else if (c as u32) < 0x800 {
        2
    } else if (c as u32) < 0x10000 {
        3
    } else {
        4
    }
}

fn byte_len(v: &[char]) -> (n: usize)
    requires
        utf8_len(v@) <= usize::MAX,
    ensures
        n == utf8_len(v@),
{
    let mut n: usize = 0;
    let mut i: usize = 0;
    while i < v.len()
        invariant
            i <= v@.len(),
            n == utf8_len(v@.take(i as int)),
            utf8_len(v@) <= usize::MAX,
        decreases v@.len() - i,
    {
        assert(v@.take(i + 1).drop_last() =~= v@.take(i as int));
        proof {
            if i + 1 < v@.len() {
                lemma_utf8_len_grows(v@, i + 1, v@.len() as int);
            }
            assert(v@.take(v@.len() as int) =~= v@);
        }
        n = n + width(v[i]);
        i = i + 1;
    }
    assert(v@.take(v@.len() as int) =~= v@);
    n
}

fn index_of_byte(v: &[char], b: usize) -> (i: usize)
    requires
        is_char_boundary(v@, b as nat),
    ensures
        i == char_index(v@, b as nat),
        boundary_at(v@, b as nat, i as int),
{
    let ghost p = char_index(v@, b as nat);
    assert(boundary_at(v@, b as nat, p));
    let mut n: usize = 0;
    let mut i: usize = 0;
    while n < b
        invariant
            boundary_at(v@, b as nat, p),
            0 <= i <= p,
            n == utf8_len(v@.take(i as int)),
        decreases p - i,
    {
        assert(i < p);
        proof {
            lemma_utf8_len_grows(v@, i as int, p);
        }
        assert(v@.take(i + 1).drop_last() =~= v@.take(i as int));
        proof {
            if i + 1 < p {
                lemma_utf8_len_grows(v@, i + 1, p);
            }
        }
        n = n + width(v[i]);
        i = i + 1;
    }
    proof {
        if i < p {
            lemma_utf8_len_grows(v@, i as int, p);
        }
        lemma_boundary_unique(v@, b as nat, i as int);
    }
    i
}

/// The key line of the profile screen: `Not connected` without a key, and
/// a long key shortened to its ends.
pub fn npub_display(npub: Option<&str>) -> (r: String)
    requires
        npub is Some ==> key_cuttable(npub->0@) && utf8_len(npub->0@) <= usize::MAX,
    ensures
        r@ == key_display(
            match npub {
                Some(n) => Some(n@),
                None => None,
            },
        ),
{
    match npub {
        None => String::from_str("Not connected"),
        Some(n) => {
            let v = chars_of(n);
            let total = byte_len(v.as_slice());
            if total > 20 {
                let head_end = index_of_byte(v.as_slice(), 12);
                let tail_start = index_of_byte(v.as_slice(), total - 8);
                let mut r = string_from_chars(v.as_slice(), 0, head_end);
                r.append("...");
                let tail = string_from_chars(v.as_slice(), tail_start, v.len());
                r.append(tail.as_str());
                assert(v@.subrange(0, head_end as int) =~= v@.take(head_end as int));
                assert(v@.subrange(tail_start as int, v@.len() as int) =~= v@.skip(tail_start as int));
                r
            } else {
                String::from_str(n)
            }
        },
    }
}

/// The category filters of the marketplace screen, in order.
pub open spec fn category_names() -> Seq<Seq<char>> {
    seq!["All"@, "Books"@, "Wallets"@, "Nostr"@, "Podcasts"@, "Privacy"@, "Development"@]
}

/// The category filters of the marketplace screen, in order.
pub fn marketplace_categories() -> (r: Vec<&'static str>)
    ensures
        r@.len() == 7,
        forall|i: int| 0 <= i < 7 ==> #[trigger] r@[i]@ == category_names()[i],
{
    vec!["All", "Books", "Wallets", "Nostr", "Podcasts", "Privacy", "Development"]
}

/// The style of a category filter: `All` is highlighted.
pub open spec fn chip_class_of(category: Seq<char>) -> Seq<char> {
    if category == "All"@ {
        "px-4 py-1.5 text-sm rounded-full bg-orange-500 text-white font-medium cursor-pointer"@
    } else {
        "px-4 py-1.5 text-sm rounded-full bg-gray-900 text-gray-400 hover:bg-gray-800 hover:text-gray-200 transition-colors border border-gray-800 cursor-pointer"@
    }
}

/// The style of a category filter: `All` is highlighted.
pub fn category_chip_class(category: &str) -> (r: &'static str)
    ensures
        r@ == chip_class_of(category@),
{
    if crate::text::str_eq(category, "All") {
        "px-4 py-1.5 text-sm rounded-full bg-orange-500 text-white font-medium cursor-pointer"
    } else {
        "px-4 py-1.5 text-sm rounded-full bg-gray-900 text-gray-400 hover:bg-gray-800 hover:text-gray-200 transition-colors border border-gray-800 cursor-pointer"
    }
}

} // verus!
