//! Construction of the outbound JSON envelope.
//!
//! Every request to the remote service is one flat JSON object merging three
//! namespaces: the operation's `method` name, the authentication `token`,
//! and the operation's own fields. `method` and `token` take precedence when
//! a field name collides with them. Members are written in ascending key
//! order, so an envelope is a canonical function of its inputs.

use vstd::prelude::*;
use crate::num::digit_char;
use crate::num::push_u32_digits;
use crate::num::spec_u32_digits;
use crate::text::str_eq;

verus! {

// ---------------------------------------------------------------------------
// JSON string escaping
// ---------------------------------------------------------------------------

pub open spec fn hex_digit(d: int) -> char {
    if d < 10 {
        digit_char(d)
    } else if d == 10 {
        'a'
    } else if d == 11 {
        'b'
    } else if d == 12 {
        'c'
    } else if d == 13 {
        'd'
    } else if d == 14 {
        'e'
    } else {
        'f'
    }
}

/// How one character is written inside a JSON string literal: the two-character
/// short escapes for quote, backslash and the common control characters, a
/// `\u00..` escape for the remaining control characters, and the character
/// itself otherwise.
pub open spec fn escape_char(c: char) -> Seq<char> {
    if c == '"' {
        seq!['\\', '"']
    } else if c == '\\' {
        seq!['\\', '\\']
    } else if c == '\u{8}' {
        seq!['\\', 'b']
    } else if c == '\t' {
        seq!['\\', 't']
    } else if c == '\n' {
        seq!['\\', 'n']
    } else if c == '\u{c}' {
        seq!['\\', 'f']
    } else if c == '\r' {
        seq!['\\', 'r']
    } else if (c as u32) < 32 {
        seq!['\\', 'u', '0', '0', hex_digit(c as u32 as int / 16), hex_digit(c as u32 as int % 16)]
    } else {
        seq![c]
    }
}

pub open spec fn spec_escape(s: Seq<char>) -> Seq<char>
    decreases s.len(),
{
    if s.len() == 0 {
        Seq::empty()
    } else {
        spec_escape(s.drop_last()) + escape_char(s.last())
    }
}

/// A JSON string literal: quote, escaped characters, quote.
pub open spec fn spec_json_string(s: Seq<char>) -> Seq<char> {
    seq!['"'] + spec_escape(s) + seq!['"']
}

fn append_hex_digit(out: &mut String, d: u32)
    requires
        d < 16,
    ensures
        final(out)@ == old(out)@ + seq![hex_digit(d as int)],
{
    let ds: &str = if d == 0 {
        "0"
    } else if d == 1 {
        "1"
    } else if d == 2 {
        "2"
    } else if d == 3 {
        "3"
    } else if d == 4 {
        "4"
    } else if d == 5 {
        "5"
    } else if d == 6 {
        "6"
    } else if d == 7 {
        "7"
    } else if d == 8 {
        "8"
    } else if d == 9 {
        "9"
    } else if d == 10 {
        "a"
    } else if d == 11 {
        "b"
    } else if d == 12 {
        "c"
    } else if d == 13 {
        "d"
    } else if d == 14 {
        "e"
    } else {
        "f"
    };
    proof {
        reveal_strlit("0");
        reveal_strlit("1");
        reveal_strlit("2");
        reveal_strlit("3");
        reveal_strlit("4");
        reveal_strlit("5");
        reveal_strlit("6");
        reveal_strlit("7");
        reveal_strlit("8");
        reveal_strlit("9");
        reveal_strlit("a");
        reveal_strlit("b");
        reveal_strlit("c");
        reveal_strlit("d");
        reveal_strlit("e");
        reveal_strlit("f");
        assert(ds@ =~= seq![hex_digit(d as int)]);
    }
    out.append(ds);
}

/// Append the escaped form of `s` (without the surrounding quotes).
fn json_escape_into(out: &mut String, s: &str)
    ensures
        final(out)@ == old(out)@ + spec_escape(s@),
{
    let n = s.unicode_len();
    let mut i: usize = 0;
    proof {
        assert(s@.take(0) =~= Seq::<char>::empty());
        assert(out@ =~= out@ + spec_escape(s@.take(0)));
    }
    while i < n
        invariant
            n == s@.len(),
            0 <= i <= n,
            out@ == old(out)@ + spec_escape(s@.take(i as int)),
        decreases n - i,
    {
        let c = s.get_char(i);
        proof {
            assert(s@.take(i + 1).drop_last() =~= s@.take(i as int));
            assert(s@.take(i + 1).last() == s@[i as int]);
        }
        if c == '"' {
            proof {
                reveal_strlit("\\\"");
            }
            out.append("\\\"");
        } else if c == '\\' {
            proof {
                reveal_strlit("\\\\");
            }
            out.append("\\\\");
        } else if c == '\u{8}' {
            proof {
                reveal_strlit("\\b");
            }
            out.append("\\b");
        } else if c == '\t' {
            proof {
                reveal_strlit("\\t");
            }
            out.append("\\t");
        } else if c == '\n' {
            proof {
                reveal_strlit("\\n");
            }
            out.append("\\n");
        } else if c == '\u{c}' {
            proof {
                reveal_strlit("\\f");
            }
            out.append("\\f");
        } else if c == '\r' {
            proof {
                reveal_strlit("\\r");
            }
            out.append("\\r");
        } else if (c as u32) < 32 {
            proof {
                reveal_strlit("\\u00");
            }
            out.append("\\u00");
            let cu = c as u32;
            append_hex_digit(out, cu / 16);
            append_hex_digit(out, cu % 16);
        } else {
            let piece = s.substring_char(i, i + 1);
            proof {
                assert(piece@ =~= seq![s@[i as int]]);
            }
            out.append(piece);
        }
        i = i + 1;
    }
    proof {
        assert(s@.take(n as int) =~= s@);
    }
}

/// Append `s` as a JSON string literal, quotes included.
fn append_json_string(out: &mut String, s: &str)
    ensures
        final(out)@ == old(out)@ + spec_json_string(s@),
{
    proof {
        reveal_strlit("\"");
    }
    out.append("\"");
    json_escape_into(out, s);
    out.append("\"");
}

// ---------------------------------------------------------------------------
// Field values
// ---------------------------------------------------------------------------

/// One value of an envelope member: the service's commands only ever carry
/// strings, unsigned counts and booleans.
#[derive(Debug)]
pub enum FieldValue {
    Str(String),
    UInt(u32),
    Bool(bool),
}

/// The mathematical shadow of a `FieldValue`.
pub ghost enum FieldV {
    Str(Seq<char>),
    UInt(int),
    Bool(bool),
}

pub open spec fn field_view(v: FieldValue) -> FieldV {
    match v {
        FieldValue::Str(s) => FieldV::Str(s@),
        FieldValue::UInt(n) => FieldV::UInt(n as int),
        FieldValue::Bool(b) => FieldV::Bool(b),
    }
}

/// The views of a sequence of keyed field values.
pub open spec fn pair_views(f: Seq<(String, FieldValue)>) -> Seq<(Seq<char>, FieldV)> {
    Seq::new(f.len(), |i: int| (f[i].0@, field_view(f[i].1)))
}

pub open spec fn spec_field_json(v: FieldV) -> Seq<char> {
    match v {
        FieldV::Str(s) => spec_json_string(s),
        FieldV::UInt(n) => spec_u32_digits(n),
        FieldV::Bool(b) => if b {
            seq!['t', 'r', 'u', 'e']
        } else {
            seq!['f', 'a', 'l', 's', 'e']
        },
    }
}

fn append_field_json(out: &mut String, v: &FieldValue)
    ensures
        final(out)@ == old(out)@ + spec_field_json(field_view(*v)),
{
    match v {
        FieldValue::Str(s) => {
            append_json_string(out, s.as_str());
        },
        FieldValue::UInt(n) => {
            push_u32_digits(out, *n);
        },
        FieldValue::Bool(b) => {
            if *b {
                proof {
                    reveal_strlit("true");
                }
                out.append("true");
            } else {
                proof {
                    reveal_strlit("false");
                }
                out.append("false");
            }
        },
    }
}

// ---------------------------------------------------------------------------
// Key order
// ---------------------------------------------------------------------------

/// Strict lexicographic order on character sequences, by scalar value.
pub open spec fn lex_lt(a: Seq<char>, b: Seq<char>) -> bool
    decreases a.len(),
{
    if b.len() == 0 {
        false
    } else if a.len() == 0 {
        true
    } else if (a[0] as u32) < (b[0] as u32) {
        true
    } else if a[0] == b[0] {
        lex_lt(a.skip(1), b.skip(1))
    } else {
        false
    }
}

/// Character-wise lexicographic comparison.
pub fn str_lt(a: &str, b: &str) -> (r: bool)
    ensures
        r == lex_lt(a@, b@),
{
    let an = a.unicode_len();
    let bn = b.unicode_len();
    let mut i: usize = 0;
    proof {
        assert(a@.skip(0) =~= a@);
        assert(b@.skip(0) =~= b@);
    }
    while i < an && i < bn
        invariant
            an == a@.len(),
            bn == b@.len(),
            0 <= i <= an,
            0 <= i <= bn,
            lex_lt(a@, b@) == lex_lt(a@.skip(i as int), b@.skip(i as int)),
        decreases an - i,
    {
        let ca = a.get_char(i);
        let cb = b.get_char(i);
        if (ca as u32) < (cb as u32) {
            return true;
        }
        if ca != cb {
            return false;
        }
        proof {
            assert(a@.skip(i as int).skip(1) =~= a@.skip(i + 1));
            assert(b@.skip(i as int).skip(1) =~= b@.skip(i + 1));
        }
        i = i + 1;
    }
    if i >= an {
        i < bn
    } else {
        false
    }
}

// ---------------------------------------------------------------------------
// Sorting entries by key
// ---------------------------------------------------------------------------

pub open spec fn spec_insert_entry(
    e: (Seq<char>, FieldV),
    s: Seq<(Seq<char>, FieldV)>,
) -> Seq<(Seq<char>, FieldV)>
    decreases s.len(),
{
    if s.len() == 0 {
        seq![e]
    } else if lex_lt(e.0, s[0].0) {
        seq![e] + s
    } else {
        seq![s[0]] + spec_insert_entry(e, s.skip(1))
    }
}

/// Insertion sort of envelope entries, stable and deterministic.
pub open spec fn spec_sort_entries(s: Seq<(Seq<char>, FieldV)>) -> Seq<(Seq<char>, FieldV)>
    decreases s.len(),
{
    if s.len() == 0 {
        Seq::empty()
    } else {
        spec_insert_entry(s.last(), spec_sort_entries(s.drop_last()))
    }
}

proof fn lemma_insert_entry_at(
    e: (Seq<char>, FieldV),
    s: Seq<(Seq<char>, FieldV)>,
    j: int,
)
    requires
        0 <= j <= s.len(),
        forall|k: int| 0 <= k < j ==> !lex_lt(e.0, #[trigger] s[k].0),
        j < s.len() ==> lex_lt(e.0, s[j].0),
    ensures
        spec_insert_entry(e, s) =~= s.take(j) + seq![e] + s.skip(j),
    decreases s.len(),
{
    if s.len() == 0 {
    } else if j == 0 {
        if s.len() > 0 {
            assert(lex_lt(e.0, s[0].0));
        }
    } else {
        assert(!lex_lt(e.0, s[0].0));
        assert forall|k: int| 0 <= k < j - 1 implies !lex_lt(e.0, #[trigger] s.skip(1)[k].0) by {
            assert(s.skip(1)[k] == s[k + 1]);
        }
        assert(j - 1 < s.skip(1).len() ==> s.skip(1)[j - 1] == s[j]);
        lemma_insert_entry_at(e, s.skip(1), j - 1);
        assert(s.skip(1).take(j - 1) =~= s.subrange(1, j));
        assert(s.skip(1).skip(j - 1) =~= s.skip(j));
    }
}

fn insert_entry(out: &mut Vec<(String, FieldValue)>, e: (String, FieldValue))
    ensures
        pair_views(final(out)@) == spec_insert_entry(
            (e.0@, field_view(e.1)),
            pair_views(old(out)@),
        ),
{
    let ghost ev = (e.0@, field_view(e.1));
    let ghost s = pair_views(out@);
    let mut j: usize = 0;
    loop
        invariant_except_break
            out == old(out),
            s == pair_views(out@),
            ev == (e.0@, field_view(e.1)),
            0 <= j <= out@.len(),
            forall|k: int| 0 <= k < j ==> !lex_lt(ev.0, #[trigger] s[k].0),
        ensures
            out == old(out),
            s == pair_views(out@),
            0 <= j <= out@.len(),
            forall|k: int| 0 <= k < j ==> !lex_lt(ev.0, #[trigger] s[k].0),
            j < out@.len() ==> lex_lt(ev.0, s[j as int].0),
        decreases out@.len() - j,
    {
        if j >= out.len() {
            break;
        }
        let cmp = str_lt(e.0.as_str(), out[j].0.as_str());
        proof {
            assert(s[j as int] == (out@[j as int].0@, field_view(out@[j as int].1)));
            assert(cmp == lex_lt(ev.0, s[j as int].0));
        }
        if cmp {
            break;
        }
        j = j + 1;
    }
    proof {
        lemma_insert_entry_at(ev, s, j as int);
    }
    out.insert(j, e);
    proof {
        assert(pair_views(out@) =~= s.take(j as int) + seq![ev] + s.skip(j as int));
    }
}

fn sort_entries(entries: Vec<(String, FieldValue)>) -> (r: Vec<(String, FieldValue)>)
    ensures
        pair_views(r@) == spec_sort_entries(pair_views(entries@)),
{
    let ghost orig = pair_views(entries@);
    let mut rest = entries;
    let mut out: Vec<(String, FieldValue)> = Vec::new();
    proof {
        assert(pair_views(rest@) =~= orig.skip(0));
        assert(orig.take(0) =~= Seq::<(Seq<char>, FieldV)>::empty());
        assert(pair_views(out@) =~= spec_sort_entries(orig.take(0)));
    }
    while rest.len() > 0
        invariant
            pair_views(rest@) =~= orig.skip(orig.len() - rest@.len()),
            rest@.len() <= orig.len(),
            pair_views(out@) == spec_sort_entries(orig.take(orig.len() - rest@.len())),
        decreases rest@.len(),
    {
        let ghost k = orig.len() - rest@.len();
        let ghost pre = rest@;
        let e = rest.remove(0);
        proof {
            assert(pair_views(pre)[0] == (pre[0].0@, field_view(pre[0].1)));
            assert(orig.skip(k)[0] == orig[k]);
            assert(e.0@ == orig[k].0 && field_view(e.1) == orig[k].1);
            assert forall|m: int| 0 <= m < rest@.len() implies pair_views(rest@)[m] == orig.skip(
                k + 1,
            )[m] by {
                assert(rest@[m] == pre[m + 1]);
                assert(pair_views(pre)[m + 1] == (pre[m + 1].0@, field_view(pre[m + 1].1)));
                assert(pair_views(pre)[m + 1] == orig.skip(k)[m + 1]);
                assert(orig.skip(k)[m + 1] == orig[k + 1 + m]);
                assert(orig.skip(k + 1)[m] == orig[k + 1 + m]);
            }
            assert(pair_views(rest@) =~= orig.skip(k + 1));
        }
        insert_entry(&mut out, e);
        proof {
            assert(orig.take(k + 1).drop_last() =~= orig.take(k));
            assert(orig.take(k + 1).last() == orig[k]);
            assert((orig[k].0, orig[k].1) == orig[k]);
            assert(pair_views(out@) == spec_sort_entries(orig.take(k + 1)));
        }
    }
    proof {
        assert(orig.take(orig.len() as int) =~= orig);
    }
    out
}

// ---------------------------------------------------------------------------
// What sorting means: ascending keys, same members
// ---------------------------------------------------------------------------

/// The keys stand in ascending order: no later key is below an earlier one.
pub open spec fn entries_sorted(s: Seq<(Seq<char>, FieldV)>) -> bool {
    forall|i: int, j: int| 0 <= i < j < s.len() ==> !lex_lt(s[j].0, s[i].0)
}

/// Every key in `s` is at or above `key`.
pub open spec fn entries_ge(s: Seq<(Seq<char>, FieldV)>, key: Seq<char>) -> bool {
    forall|i: int| 0 <= i < s.len() ==> !lex_lt((#[trigger] s[i]).0, key)
}

pub proof fn lemma_lex_asym(a: Seq<char>, b: Seq<char>)
    ensures
        !(lex_lt(a, b) && lex_lt(b, a)),
    decreases a.len(),
{
    if lex_lt(a, b) && lex_lt(b, a) {
        if a.len() > 0 && b.len() > 0 && a[0] == b[0] {
            lemma_lex_asym(a.skip(1), b.skip(1));
        }
    }
}

pub proof fn lemma_lex_trans(a: Seq<char>, b: Seq<char>, c: Seq<char>)
    requires
        lex_lt(a, b),
        lex_lt(b, c),
    ensures
        lex_lt(a, c),
    decreases a.len(),
{
    if a.len() > 0 {
        if a[0] == b[0] && b[0] == c[0] {
            lemma_lex_trans(a.skip(1), b.skip(1), c.skip(1));
        }
    }
}

proof fn lemma_insert_entry_ge(e: (Seq<char>, FieldV), s: Seq<(Seq<char>, FieldV)>, key: Seq<char>)
    requires
        entries_ge(s, key),
        !lex_lt(e.0, key),
    ensures
        entries_ge(spec_insert_entry(e, s), key),
    decreases s.len(),
{
    if s.len() == 0 {
    } else if lex_lt(e.0, s[0].0) {
        let t = seq![e] + s;
        assert forall|i: int| 0 <= i < t.len() implies !lex_lt((#[trigger] t[i]).0, key) by {
            if i > 0 {
                assert(t[i] == s[i - 1]);
            }
        }
    } else {
        assert forall|i: int| 0 <= i < s.skip(1).len() implies !lex_lt(
            (#[trigger] s.skip(1)[i]).0,
            key,
        ) by {
            assert(s.skip(1)[i] == s[i + 1]);
        }
        lemma_insert_entry_ge(e, s.skip(1), key);
        let t = seq![s[0]] + spec_insert_entry(e, s.skip(1));
        assert forall|i: int| 0 <= i < t.len() implies !lex_lt((#[trigger] t[i]).0, key) by {
            if i > 0 {
                assert(t[i] == spec_insert_entry(e, s.skip(1))[i - 1]);
            }
        }
    }
}

proof fn lemma_insert_entry_sorted(e: (Seq<char>, FieldV), s: Seq<(Seq<char>, FieldV)>)
    requires
        entries_sorted(s),
    ensures
        entries_sorted(spec_insert_entry(e, s)),
    decreases s.len(),
{
    if s.len() == 0 {
    } else if lex_lt(e.0, s[0].0) {
        let t = seq![e] + s;
        assert forall|i: int, j: int| 0 <= i < j < t.len() implies !lex_lt(t[j].0, t[i].0) by {
            assert(t[j] == s[j - 1]);
            if i == 0 {
                if lex_lt(s[j - 1].0, e.0) {
                    lemma_lex_trans(s[j - 1].0, e.0, s[0].0);
                    if j == 1 {
                        lemma_lex_asym(s[0].0, e.0);
                    }
                }
            } else {
                assert(t[i] == s[i - 1]);
            }
        }
    } else {
        assert forall|i: int, j: int|
            0 <= i < j < s.skip(1).len() implies !lex_lt(s.skip(1)[j].0, s.skip(1)[i].0) by {
            assert(s.skip(1)[j] == s[j + 1]);
            assert(s.skip(1)[i] == s[i + 1]);
        }
        lemma_insert_entry_sorted(e, s.skip(1));
        assert forall|i: int| 0 <= i < s.skip(1).len() implies !lex_lt(
            (#[trigger] s.skip(1)[i]).0,
            s[0].0,
        ) by {
            assert(s.skip(1)[i] == s[i + 1]);
        }
        lemma_insert_entry_ge(e, s.skip(1), s[0].0);
        let u = spec_insert_entry(e, s.skip(1));
        let t = seq![s[0]] + u;
        assert forall|i: int, j: int| 0 <= i < j < t.len() implies !lex_lt(t[j].0, t[i].0) by {
            assert(t[j] == u[j - 1]);
            if i > 0 {
                assert(t[i] == u[i - 1]);
            }
        }
    }
}

/// After sorting, the envelope's members stand in ascending key order.
pub proof fn lemma_sort_entries_sorted(s: Seq<(Seq<char>, FieldV)>)
    ensures
        entries_sorted(spec_sort_entries(s)),
    decreases s.len(),
{
    if s.len() > 0 {
        lemma_sort_entries_sorted(s.drop_last());
        lemma_insert_entry_sorted(s.last(), spec_sort_entries(s.drop_last()));
    }
}

proof fn lemma_insert_entry_permutes(e: (Seq<char>, FieldV), s: Seq<(Seq<char>, FieldV)>)
    ensures
        spec_insert_entry(e, s).to_multiset() == s.to_multiset().insert(e),
    decreases s.len(),
{
    broadcast use vstd::seq_lib::group_to_multiset_ensures;
    broadcast use vstd::multiset::group_multiset_axioms;

    if s.len() == 0 {
        let t = seq![e];
        assert(t.remove(0) =~= Seq::<(Seq<char>, FieldV)>::empty());
        assert(t.to_multiset().remove(e) =~= s.to_multiset());
        assert(t.contains(e));
        assert(t.to_multiset() =~= s.to_multiset().insert(e));
    } else if lex_lt(e.0, s[0].0) {
        let t = seq![e] + s;
        assert(t.remove(0) =~= s);
        assert(t.to_multiset().remove(e) =~= s.to_multiset());
        assert(t.contains(e));
        assert(t.to_multiset() =~= s.to_multiset().insert(e));
    } else {
        lemma_insert_entry_permutes(e, s.skip(1));
        let u = spec_insert_entry(e, s.skip(1));
        let t = seq![s[0]] + u;
        assert(t[0] == s[0]);
        assert(t.remove(0) =~= u);
        assert(t.to_multiset().remove(s[0]) =~= u.to_multiset());
        assert(t.contains(s[0]));
        assert(s.remove(0) =~= s.skip(1));
        assert(s.to_multiset().remove(s[0]) =~= s.skip(1).to_multiset());
        assert(s.contains(s[0]));
        assert forall|x: (Seq<char>, FieldV)|
            t.to_multiset().count(x) == s.to_multiset().insert(e).count(x) by {
            assert(t.to_multiset().remove(s[0]).count(x) == u.to_multiset().count(x));
            assert(s.to_multiset().remove(s[0]).count(x) == s.skip(1).to_multiset().count(x));
            assert(u.to_multiset().count(x) == s.skip(1).to_multiset().insert(e).count(x));
            assert(t.to_multiset().count(s[0]) > 0);
            assert(s.to_multiset().count(s[0]) > 0);
        }
        assert(t.to_multiset() =~= s.to_multiset().insert(e));
    }
}

/// Sorting reorders the merged members and nothing else: the sorted
/// sequence holds exactly the members it was given.
pub proof fn lemma_sort_entries_permutes(s: Seq<(Seq<char>, FieldV)>)
    ensures
        spec_sort_entries(s).to_multiset() == s.to_multiset(),
    decreases s.len(),
{
    broadcast use vstd::seq_lib::group_to_multiset_ensures;

    if s.len() > 0 {
        lemma_sort_entries_permutes(s.drop_last());
        lemma_insert_entry_permutes(s.last(), spec_sort_entries(s.drop_last()));
        assert(s.drop_last().push(s.last()) =~= s);
        assert(s.drop_last().push(s.last()).to_multiset() =~= s.drop_last().to_multiset().insert(
            s.last(),
        ));
    }
}

// ---------------------------------------------------------------------------
// Merging the three namespaces
// ---------------------------------------------------------------------------

/// Keys owned by the protocol itself; a colliding command field loses.
pub open spec fn reserved_key(k: Seq<char>) -> bool {
    k == "method"@ || k == "token"@
}

pub open spec fn spec_filter_payload(p: Seq<(Seq<char>, FieldV)>) -> Seq<(Seq<char>, FieldV)>
    decreases p.len(),
{
    if p.len() == 0 {
        Seq::empty()
    } else {
        let rest = spec_filter_payload(p.drop_last());
        if reserved_key(p.last().0) {
            rest
        } else {
            rest.push(p.last())
        }
    }
}

/// The envelope's members before sorting: `method` and `token` first, then
/// every command field whose name does not collide with them.
pub open spec fn spec_merge(
    method: Seq<char>,
    token: Seq<char>,
    payload: Seq<(Seq<char>, FieldV)>,
) -> Seq<(Seq<char>, FieldV)> {
    seq![("method"@, FieldV::Str(method)), ("token"@, FieldV::Str(token))] + spec_filter_payload(
        payload,
    )
}

fn merge_entries(method: &str, token: &str, payload: Vec<(String, FieldValue)>) -> (r: Vec<
    (String, FieldValue),
>)
    ensures
        pair_views(r@) == spec_merge(method@, token@, pair_views(payload@)),
{
    let ghost orig = pair_views(payload@);
    let mut out: Vec<(String, FieldValue)> = Vec::new();
    out.push((String::from_str("method"), FieldValue::Str(method.to_owned())));
    out.push((String::from_str("token"), FieldValue::Str(token.to_owned())));
    let ghost base = seq![("method"@, FieldV::Str(method@)), ("token"@, FieldV::Str(token@))];
    proof {
        assert(pair_views(out@) =~= base);
        assert(orig.take(0) =~= Seq::<(Seq<char>, FieldV)>::empty());
        assert(pair_views(out@) =~= base + spec_filter_payload(orig.take(0)));
    }
    let mut rest = payload;
    proof {
        assert(pair_views(rest@) =~= orig.skip(0));
    }
    while rest.len() > 0
        invariant
            pair_views(rest@) =~= orig.skip(orig.len() - rest@.len()),
            rest@.len() <= orig.len(),
            pair_views(out@) == base + spec_filter_payload(orig.take(orig.len() - rest@.len())),
        decreases rest@.len(),
    {
        let ghost k = orig.len() - rest@.len();
        let ghost pre = rest@;
        let e = rest.remove(0);
        proof {
            assert(pair_views(pre)[0] == (pre[0].0@, field_view(pre[0].1)));
            assert(orig.skip(k)[0] == orig[k]);
            assert(e.0@ == orig[k].0 && field_view(e.1) == orig[k].1);
            assert forall|m: int| 0 <= m < rest@.len() implies pair_views(rest@)[m] == orig.skip(
                k + 1,
            )[m] by {
                assert(rest@[m] == pre[m + 1]);
                assert(pair_views(pre)[m + 1] == (pre[m + 1].0@, field_view(pre[m + 1].1)));
                assert(pair_views(pre)[m + 1] == orig.skip(k)[m + 1]);
                assert(orig.skip(k)[m + 1] == orig[k + 1 + m]);
                assert(orig.skip(k + 1)[m] == orig[k + 1 + m]);
            }
            assert(pair_views(rest@) =~= orig.skip(k + 1));
            assert(orig.take(k + 1).drop_last() =~= orig.take(k));
            assert(orig.take(k + 1).last() == orig[k]);
        }
        let is_reserved = str_eq(e.0.as_str(), "method") || str_eq(e.0.as_str(), "token");
        if !is_reserved {
            let ghost old_out = out@;
            out.push(e);
            proof {
                assert(pair_views(out@) =~= pair_views(old_out).push(orig[k]));
            }
        }
        proof {
            assert(pair_views(out@) =~= base + spec_filter_payload(orig.take(k + 1)));
        }
    }
    proof {
        assert(orig.take(orig.len() as int) =~= orig);
    }
    out
}

proof fn lemma_filter_payload_counts(p: Seq<(Seq<char>, FieldV)>)
    ensures
        forall|x: (Seq<char>, FieldV)|
            #[trigger] spec_filter_payload(p).to_multiset().count(x) == if reserved_key(x.0) {
                0
            } else {
                p.to_multiset().count(x)
            },
    decreases p.len(),
{
    broadcast use vstd::seq_lib::group_to_multiset_ensures;
    broadcast use vstd::multiset::group_multiset_axioms;

    if p.len() == 0 {
        assert forall|x: (Seq<char>, FieldV)| #[trigger] spec_filter_payload(p).to_multiset().count(
            x,
        ) == 0 by {
            assert(!spec_filter_payload(p).contains(x));
            assert(!p.contains(x));
        }
        assert forall|x: (Seq<char>, FieldV)| p.to_multiset().count(x) == 0 by {
            assert(!p.contains(x));
        }
    } else {
        let q = p.drop_last();
        let e = p.last();
        lemma_filter_payload_counts(q);
        assert(q.push(e) =~= p);
        assert(q.push(e).to_multiset() =~= q.to_multiset().insert(e));
        if !reserved_key(e.0) {
            assert(spec_filter_payload(p) == spec_filter_payload(q).push(e));
            assert(spec_filter_payload(q).push(e).to_multiset() =~= spec_filter_payload(
                q,
            ).to_multiset().insert(e));
        }
        assert forall|x: (Seq<char>, FieldV)|
            #[trigger] spec_filter_payload(p).to_multiset().count(x) == (if reserved_key(x.0) {
                0int
            } else {
                p.to_multiset().count(x) as int
            }) by {
            assert(p.to_multiset().count(x) == q.to_multiset().insert(e).count(x));
            assert(spec_filter_payload(q).to_multiset().count(x) == if reserved_key(x.0) {
                0int
            } else {
                q.to_multiset().count(x) as int
            });
        }
    }
}

/// What merging holds: one `method` member, one `token` member, and
/// otherwise exactly the command fields whose keys collide with neither.
pub proof fn lemma_merge_members(method: Seq<char>, token: Seq<char>, payload: Seq<(Seq<char>, FieldV)>)
    ensures
        forall|x: (Seq<char>, FieldV)|
            #[trigger] spec_merge(method, token, payload).to_multiset().count(x) == (
            if x == ("method"@, FieldV::Str(method)) {
                1int
            } else {
                0int
            }) + (
            if x == ("token"@, FieldV::Str(token)) {
                1int
            } else {
                0int
            }) + (
            if reserved_key(x.0) {
                0int
            } else {
                payload.to_multiset().count(x) as int
            }),
{
    broadcast use vstd::seq_lib::group_to_multiset_ensures;
    broadcast use vstd::multiset::group_multiset_axioms;

    lemma_filter_payload_counts(payload);
    let m_e = ("method"@, FieldV::Str(method));
    let t_e = ("token"@, FieldV::Str(token));
    let merged = spec_merge(method, token, payload);
    let tail = seq![t_e] + spec_filter_payload(payload);
    assert(merged.remove(0) =~= tail);
    assert(merged[0] == m_e);
    assert(merged.contains(m_e));
    assert(tail.remove(0) =~= spec_filter_payload(payload));
    assert(tail[0] == t_e);
    assert(tail.contains(t_e));
    assert forall|x: (Seq<char>, FieldV)| #[trigger] merged.to_multiset().count(x) == (
    if x == m_e {
        1int
    } else {
        0int
    }) + (
    if x == t_e {
        1int
    } else {
        0int
    }) + (
    if reserved_key(x.0) {
        0int
    } else {
        payload.to_multiset().count(x) as int
    }) by {
        assert(merged.to_multiset().remove(m_e).count(x) == tail.to_multiset().count(x));
        assert(tail.to_multiset().remove(t_e).count(x) == spec_filter_payload(
            payload,
        ).to_multiset().count(x));
        assert(merged.to_multiset().count(m_e) > 0);
        assert(tail.to_multiset().count(t_e) > 0);
    }
}

// ---------------------------------------------------------------------------
// Serialization of the whole envelope
// ---------------------------------------------------------------------------

pub open spec fn entry_json(e: (Seq<char>, FieldV)) -> Seq<char> {
    spec_json_string(e.0) + seq![':'] + spec_field_json(e.1)
}

pub open spec fn spec_entries_json(s: Seq<(Seq<char>, FieldV)>) -> Seq<char>
    decreases s.len(),
{
    if s.len() == 0 {
        Seq::empty()
    } else if s.len() == 1 {
        entry_json(s[0])
    } else {
        spec_entries_json(s.drop_last()) + seq![','] + entry_json(s.last())
    }
}

/// The canonical envelope: one flat JSON object holding `method`, `token`
/// and the non-colliding command fields, members in ascending key order.
pub open spec fn spec_envelope(
    method: Seq<char>,
    token: Seq<char>,
    payload: Seq<(Seq<char>, FieldV)>,
) -> Seq<char> {
    seq!['{'] + spec_entries_json(spec_sort_entries(spec_merge(method, token, payload))) + seq!['}']
}

/// Build the envelope text for one request.
pub fn build_envelope(method: &str, token: &str, payload: Vec<(String, FieldValue)>) -> (r: String)
    ensures
        r@ == spec_envelope(method@, token@, pair_views(payload@)),
{
    let merged = merge_entries(method, token, payload);
    let sorted = sort_entries(merged);
    let ghost es = pair_views(sorted@);
    let mut out = String::from_str("{");
    proof {
        reveal_strlit("{");
        assert(out@ =~= seq!['{']);
        assert(es.take(0) =~= Seq::<(Seq<char>, FieldV)>::empty());
        assert(out@ =~= seq!['{'] + spec_entries_json(es.take(0)));
    }
    let mut i: usize = 0;
    while i < sorted.len()
        invariant
            es == pair_views(sorted@),
            0 <= i <= sorted@.len(),
            es.len() == sorted@.len(),
            out@ == seq!['{'] + spec_entries_json(es.take(i as int)),
        decreases sorted@.len() - i,
    {
        if i > 0 {
            proof {
                reveal_strlit(",");
            }
            out.append(",");
        }
        let entry = &sorted[i];
        proof {
            reveal_strlit(":");
            assert(entry.0@ == es[i as int].0 && field_view(entry.1) == es[i as int].1);
        }
        append_json_string(&mut out, entry.0.as_str());
        out.append(":");
        append_field_json(&mut out, &entry.1);
        proof {
            assert(es.take(i + 1).drop_last() =~= es.take(i as int));
            assert(es.take(i + 1).last() == es[i as int]);
            assert((es[i as int].0, es[i as int].1) == es[i as int]);
            if i == 0 {
                assert(spec_entries_json(es.take(1)) == entry_json(es[0]));
                assert(out@ =~= seq!['{'] + spec_entries_json(es.take(1)));
            } else {
                assert(out@ =~= seq!['{'] + spec_entries_json(es.take(i + 1)));
            }
        }
        i = i + 1;
    }
    proof {
        reveal_strlit("}");
        assert(es.take(es.len() as int) =~= es);
    }
    out.append("}");
    proof {
        assert(out@ =~= seq!['{'] + spec_entries_json(es) + seq!['}']);
    }
    out
}

// ---------------------------------------------------------------------------
// The token-exchange request
// ---------------------------------------------------------------------------

/// The token-exchange body: `method`, `mob` and `pwd`, and deliberately no
/// `token` member. The three keys happen to be in ascending order, so this
/// body too is canonical.
pub open spec fn spec_token_request(method: Seq<char>, mob: Seq<char>, pwd: Seq<char>) -> Seq<
    char,
> {
    seq!['{'] + spec_json_string("method"@) + seq![':'] + spec_json_string(method) + seq![',']
        + spec_json_string("mob"@) + seq![':'] + spec_json_string(mob) + seq![',']
        + spec_json_string("pwd"@) + seq![':'] + spec_json_string(pwd) + seq!['}']
}

/// Build the body of a token-exchange request.
pub fn build_token_request(method: &str, mob: &str, pwd: &str) -> (r: String)
    ensures
        r@ == spec_token_request(method@, mob@, pwd@),
{
    proof {
        reveal_strlit("{");
        reveal_strlit("}");
        reveal_strlit(":");
        reveal_strlit(",");
    }
    let mut out = String::from_str("{");
    append_json_string(&mut out, "method");
    out.append(":");
    append_json_string(&mut out, method);
    out.append(",");
    append_json_string(&mut out, "mob");
    out.append(":");
    append_json_string(&mut out, mob);
    out.append(",");
    append_json_string(&mut out, "pwd");
    out.append(":");
    append_json_string(&mut out, pwd);
    out.append("}");
    proof {
        assert(out@ =~= spec_token_request(method@, mob@, pwd@));
    }
    out
}

} // verus!
