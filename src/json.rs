//! A small writer for JSON text: objects made of members whose values are
//! already rendered, arrays of rendered items, booleans and unsigned integers.
//! Escaping of string contents is left to serde_json.
use vstd::prelude::*;

verus! {

/// The characters of a JSON string literal for `s`, as serde_json escapes it.
pub uninterp spec fn json_str(s: Seq<char>) -> Seq<char>;

/// Whether JSON writes `c` as it is inside a string: serde_json escapes only
/// the double quote, the backslash and the control characters below U+0020.
pub open spec fn plain_char(c: char) -> bool {
    c != '"' && c != '\\' && (c as u32) >= 0x20
}

/// Whether no character of `s` is escaped inside a JSON string.
pub open spec fn plain_text(s: Seq<char>) -> bool {
    forall|i: int| 0 <= i < s.len() ==> plain_char(#[trigger] s[i])
}

/// Relies on `serde_json::to_string` on a `&str`: it writes the contents of
/// `s` as one JSON string, quotes and escapes included. It writes into a
/// `Vec<u8>`, whose writes do not fail, so it always returns `Ok`; between its
/// quotes it copies every character that needs no escape.
#[verifier::external_body]
pub(crate) fn quote_json(s: &str) -> (r: Result<String, serde_json::Error>)
    ensures
        r is Ok,
        r matches Ok(j) ==> j@ == json_str(s@),
        r matches Ok(j) ==> (plain_text(s@) ==> j@ == quoted(s@)),
{
    serde_json::to_string(s)
}

/// serde_json's error type, carried through as an opaque value.
#[verifier::external_type_specification]
#[verifier::external_body]
pub struct ExJsonError(serde_json::Error);

/// `s` between double quotes, with nothing escaped.
pub open spec fn quoted(s: Seq<char>) -> Seq<char> {
    seq!['"'] + s + seq!['"']
}

/// One member of an object: the key between quotes, a colon, the value.
pub open spec fn member_text(key: Seq<char>, value: Seq<char>) -> Seq<char> {
    quoted(key) + seq![':'] + value
}

/// The members, each written by `member_text`, separated by commas.
pub open spec fn members_text(ms: Seq<(Seq<char>, Seq<char>)>) -> Seq<char>
    decreases ms.len(),
{
    if ms.len() == 0 {
        seq![]
    } else if ms.len() == 1 {
        member_text(ms[0].0, ms[0].1)
    } else {
        members_text(ms.drop_last()) + seq![','] + member_text(ms.last().0, ms.last().1)
    }
}

/// A JSON object with the given members, in the given order.
pub open spec fn object_text(ms: Seq<(Seq<char>, Seq<char>)>) -> Seq<char> {
    seq!['{'] + members_text(ms) + seq!['}']
}

/// The items separated by commas.
pub open spec fn items_text(items: Seq<Seq<char>>) -> Seq<char>
    decreases items.len(),
{
    if items.len() == 0 {
        seq![]
    } else if items.len() == 1 {
        items[0]
    } else {
        items_text(items.drop_last()) + seq![','] + items.last()
    }
}

/// A JSON array of already rendered items.
pub open spec fn array_text(items: Seq<Seq<char>>) -> Seq<char> {
    seq!['['] + items_text(items) + seq![']']
}

/// The JSON literal of a boolean.
pub open spec fn bool_text(b: bool) -> Seq<char> {
    if b {
        seq!['t', 'r', 'u', 'e']
    } else {
        seq!['f', 'a', 'l', 's', 'e']
    }
}

/// The decimal digit for `d`, which is below ten.
pub open spec fn digit_char(d: nat) -> char {
    if d == 0 {
        '0'
    } else if d == 1 {
        '1'
    } else if d == 2 {
        '2'
    } else if d == 3 {
        '3'
    } else if d == 4 {
        '4'
    } else if d == 5 {
        '5'
    } else if d == 6 {
        '6'
    } else if d == 7 {
        '7'
    } else if d == 8 {
        '8'
    } else {
        '9'
    }
}

/// The decimal notation of `n`, without leading zeros.
pub open spec fn decimal_text(n: nat) -> Seq<char>
    decreases n,
{
    if n < 10 {
        seq![digit_char(n)]
    } else {
        decimal_text(n / 10) + seq![digit_char(n % 10)]
    }
}


/// Writes `s` between double quotes, with nothing escaped: for names and
/// tags of this library, which hold no character that JSON escapes.
pub fn quote_plain(s: &str) -> (r: String)
    ensures
        r@ == quoted(s@),
{
    proof {
        reveal_strlit("\"");
    }
    let mut r = String::from_str("\"");
    r.append(s);
    r.append("\"");
    r
}

/// Writes a JSON object whose members are the given keys and rendered values.
pub fn render_object(members: &Vec<(String, String)>) -> (r: String)
    ensures
        r@ == object_text(members.deep_view()),
{
    proof {
        reveal_strlit("{");
        reveal_strlit("}");
        reveal_strlit(",");
        reveal_strlit(":");
    }
    let ghost ms = members.deep_view();
    let mut r = String::from_str("{");
    let mut i: usize = 0;
    while i < members.len()
        invariant
            i <= members.len(),
            ms == members.deep_view(),
            r@ == seq!['{'] + members_text(ms.subrange(0, i as int)),
        decreases members.len() - i,
    {
        proof {
            reveal_strlit(",");
            reveal_strlit(":");
        }
        if i > 0 {
            r.append(",");
        }
        let key = quote_plain(members[i].0.as_str());
        r.append(key.as_str());
        r.append(":");
        r.append(members[i].1.as_str());
        proof {
            let next = ms.subrange(0, i + 1);
            assert(ms[i as int] == (members@[i as int].0@, members@[i as int].1@));
            assert(next.drop_last() =~= ms.subrange(0, i as int));
            assert(next.last() == ms[i as int]);
            let m = member_text(ms[i as int].0, ms[i as int].1);
            if i == 0 {
                assert(next[0] == ms[0]);
                assert(members_text(next) == m);
                assert(r@ =~= seq!['{'] + members_text(next));
            } else {
                assert(members_text(next) == members_text(ms.subrange(0, i as int)) + seq![','] + m);
                assert(r@ =~= seq!['{'] + members_text(next));
            }
        }
        i = i + 1;
    }
    r.append("}");
    assert(ms.subrange(0, ms.len() as int) =~= ms);
    assert(r@ =~= object_text(ms));
    r
}

/// Writes a JSON array of already rendered items.
pub fn render_array(items: &Vec<String>) -> (r: String)
    ensures
        r@ == array_text(items.deep_view()),
{
    proof {
        reveal_strlit("[");
        reveal_strlit("]");
        reveal_strlit(",");
    }
    let ghost its = items.deep_view();
    let mut r = String::from_str("[");
    let mut i: usize = 0;
    while i < items.len()
        invariant
            i <= items.len(),
            its == items.deep_view(),
            r@ == seq!['['] + items_text(its.subrange(0, i as int)),
        decreases items.len() - i,
    {
        proof {
            reveal_strlit(",");
        }
        if i > 0 {
            r.append(",");
        }
        r.append(items[i].as_str());
        proof {
            let next = its.subrange(0, i + 1);
            assert(its[i as int] == items@[i as int]@);
            assert(next.drop_last() =~= its.subrange(0, i as int));
            assert(next.last() == its[i as int]);
            if i == 0 {
                assert(next[0] == its[0]);
                assert(items_text(next) == its[0]);
                assert(r@ =~= seq!['['] + items_text(next));
            } else {
                assert(items_text(next) == items_text(its.subrange(0, i as int)) + seq![','] + its[i as int]);
                assert(r@ =~= seq!['['] + items_text(next));
            }
        }
        i = i + 1;
    }
    r.append("]");
    assert(its.subrange(0, its.len() as int) =~= its);
    assert(r@ =~= array_text(its));
    r
}

/// Writes the JSON literal of a boolean.
pub fn render_bool(b: bool) -> (r: String)
    ensures
        r@ == bool_text(b),
{
    proof {
        reveal_strlit("true");
        reveal_strlit("false");
    }
    if b {
        String::from_str("true")
    } else {
        String::from_str("false")
    }
}

/// The one-character string of the decimal digit `d`.
fn digit_str(d: u32) -> (r: &'static str)
    requires
        d < 10,
    ensures
        r@ == seq![digit_char(d as nat)],
{
    proof {
        reveal_strlit("0");
        reveal_strlit("1");
        reveal_strlit("2");
        reveal_strlit("3");
        reveal_strlit("4");
        reveal_strlit("5");
        reveal_strlit("6");
        reveal_strlit("7");
        reveal_strlit("8");
        reveal_strlit("9");
    }
    match d {
        0 => "0",
        1 => "1",
        2 => "2",
        3 => "3",
        4 => "4",
        5 => "5",
        6 => "6",
        7 => "7",
        8 => "8",
        _ => "9",
    }
}

/// Writes an unsigned integer as a JSON number.
pub fn render_u32(n: u32) -> (r: String)
    ensures
        r@ == decimal_text(n as nat),
    decreases n,
{
    if n < 10 {
        String::from_str(digit_str(n))
    } else {
        let mut r = render_u32(n / 10);
        r.append(digit_str(n % 10));
        r
    }
}

} // verus!
