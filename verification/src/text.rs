//! Character-level text processing for the wire formats.
//!
//! The remote service answers every request with plain text. This module
//! gives the crate its vocabulary for talking about that text: prefix tests
//! for the sentinel error convention, splitting a body into lines the way a
//! buffered line reader would, and splitting a line into comma-separated
//! fields.

use vstd::prelude::*;

verus! {

// ---------------------------------------------------------------------------
// Prefixes and the sentinel convention
// ---------------------------------------------------------------------------

/// `s` begins with the prefix `p`.
pub open spec fn starts_with(s: Seq<char>, p: Seq<char>) -> bool {
    p.len() <= s.len() && s.subrange(0, p.len() as int) == p
}

/// The sentinel prefix by which the remote service marks a server-side
/// failure inside an otherwise ordinary response body.
pub open spec fn error_prefix() -> Seq<char> {
    seq!['e', 'r', 'r', 'o', 'r']
}

/// The views of a sequence of strings.
pub open spec fn str_views(v: Seq<String>) -> Seq<Seq<char>> {
    Seq::new(v.len(), |i: int| v[i]@)
}

// ---------------------------------------------------------------------------
// First occurrence of a separator
// ---------------------------------------------------------------------------

/// Index of the first occurrence of `sep` in `s`, or `s.len()` if absent.
pub open spec fn sep_index(s: Seq<char>, sep: char) -> int
    decreases s.len(),
{
    if s.len() == 0 {
        0
    } else if s[0] == sep {
        0
    } else {
        1 + sep_index(s.skip(1), sep)
    }
}

pub proof fn lemma_sep_index(s: Seq<char>, sep: char)
    ensures
        0 <= sep_index(s, sep) <= s.len(),
        sep_index(s, sep) < s.len() ==> s[sep_index(s, sep)] == sep,
        forall|j: int| 0 <= j < sep_index(s, sep) ==> s[j] != sep,
    decreases s.len(),
{
    if s.len() == 0 {
    } else if s[0] == sep {
    } else {
        lemma_sep_index(s.skip(1), sep);
        assert forall|j: int| 0 <= j < sep_index(s, sep) implies s[j] != sep by {
            if j > 0 {
                assert(s.skip(1)[j - 1] == s[j]);
            }
        }
    }
}

/// `sep_index` is pinned by pointwise facts: no separator before `m`, and a
/// separator (or the end of the string) at `m`.
pub proof fn lemma_sep_index_of(s: Seq<char>, sep: char, m: int)
    requires
        0 <= m <= s.len(),
        forall|j: int| 0 <= j < m ==> s[j] != sep,
        m < s.len() ==> s[m] == sep,
    ensures
        sep_index(s, sep) == m,
    decreases s.len(),
{
    if s.len() == 0 {
    } else if s[0] == sep {
        assert(m == 0);
    } else {
        assert(m >= 1);
        assert forall|j: int| 0 <= j < m - 1 implies s.skip(1)[j] != sep by {
            assert(s.skip(1)[j] == s[j + 1]);
        }
        assert(m - 1 < s.skip(1).len() ==> s.skip(1)[m - 1] == sep);
        lemma_sep_index_of(s.skip(1), sep, m - 1);
    }
}

// ---------------------------------------------------------------------------
// Lines, as a buffered line reader produces them
// ---------------------------------------------------------------------------

/// Drop one trailing carriage return, if present.
pub open spec fn strip_cr(s: Seq<char>) -> Seq<char> {
    if s.len() > 0 && s[s.len() - 1] == '\r' {
        s.drop_last()
    } else {
        s
    }
}

/// Drop one trailing newline, if present.
pub open spec fn strip_nl(s: Seq<char>) -> Seq<char> {
    if s.len() > 0 && s[s.len() - 1] == '\n' {
        s.drop_last()
    } else {
        s
    }
}

/// The lines of `s`: segments separated by `'\n'`, each stripped of one
/// carriage return preceding the newline. A final segment without a newline
/// is kept as it stands (including a trailing carriage return); a trailing
/// newline does not open an extra empty line.
pub open spec fn spec_lines(s: Seq<char>) -> Seq<Seq<char>>
    decreases s.len(),
    via spec_lines_decreases
{
    if s.len() == 0 {
        Seq::empty()
    } else {
        let i = sep_index(s, '\n');
        if i >= s.len() {
            seq![s]
        } else {
            seq![strip_cr(s.take(i))] + spec_lines(s.skip(i + 1))
        }
    }
}

#[via_fn]
proof fn spec_lines_decreases(s: Seq<char>) {
    lemma_sep_index(s, '\n');
}

pub proof fn lemma_spec_lines_nonempty(s: Seq<char>)
    requires
        s.len() > 0,
    ensures
        spec_lines(s).len() >= 1,
{
}

// ---------------------------------------------------------------------------
// Plain separator splitting (comma-separated fields)
// ---------------------------------------------------------------------------

/// Split `s` at every occurrence of `sep`, keeping empty segments; the empty
/// string splits into one empty segment.
pub open spec fn spec_split(s: Seq<char>, sep: char) -> Seq<Seq<char>>
    decreases s.len(),
    via spec_split_decreases
{
    let i = sep_index(s, sep);
    if i >= s.len() {
        seq![s]
    } else {
        seq![s.take(i)] + spec_split(s.skip(i + 1), sep)
    }
}

#[via_fn]
proof fn spec_split_decreases(s: Seq<char>, sep: char) {
    lemma_sep_index(s, sep);
}

pub proof fn lemma_spec_split_nonempty(s: Seq<char>, sep: char)
    ensures
        spec_split(s, sep).len() >= 1,
{
}

// ---------------------------------------------------------------------------
// Joining lines back together
// ---------------------------------------------------------------------------

/// Join a sequence of lines with single newlines; no trailing newline.
pub open spec fn spec_join_nl(lines: Seq<Seq<char>>) -> Seq<char>
    decreases lines.len(),
{
    if lines.len() == 0 {
        Seq::empty()
    } else if lines.len() == 1 {
        lines[0]
    } else {
        lines[0] + seq!['\n'] + spec_join_nl(lines.skip(1))
    }
}

/// Splitting a body into lines loses nothing but one trailing newline:
/// joining the lines with newlines reproduces the body exactly, for bodies
/// free of carriage returns.
pub proof fn lemma_lines_round_trip(s: Seq<char>)
    requires
        forall|i: int| 0 <= i < s.len() ==> s[i] != '\r',
    ensures
        spec_join_nl(spec_lines(s)) == strip_nl(s),
    decreases s.len(),
{
    lemma_sep_index(s, '\n');
    if s.len() == 0 {
    } else {
        let i = sep_index(s, '\n');
        if i >= s.len() {
            // no newline anywhere, so nothing is stripped
            assert(s[s.len() - 1] != '\n');
            assert(spec_join_nl(seq![s]) == s);
        } else {
            let head = s.take(i);
            let rest = s.skip(i + 1);
            assert(strip_cr(head) == head) by {
                if head.len() > 0 {
                    assert(head[head.len() - 1] == s[i - 1]);
                }
            }
            assert forall|j: int| 0 <= j < rest.len() implies rest[j] != '\r' by {
                assert(rest[j] == s[i + 1 + j]);
            }
            lemma_lines_round_trip(rest);
            if rest.len() == 0 {
                assert(spec_lines(rest) =~= Seq::<Seq<char>>::empty());
                assert(spec_lines(s) =~= seq![head]);
                assert(spec_join_nl(seq![head]) == head);
                assert(i == s.len() - 1 && s[s.len() - 1] == '\n');
                assert(strip_nl(s) =~= head);
            } else {
                lemma_spec_lines_nonempty(rest);
                let lns = spec_lines(s);
                assert(lns.len() >= 2);
                assert(lns[0] == head);
                assert(lns.skip(1) =~= spec_lines(rest));
                assert(spec_join_nl(lns) == head + seq!['\n'] + spec_join_nl(spec_lines(rest)));
                if rest[rest.len() - 1] == '\n' {
                    assert(s[s.len() - 1] == rest[rest.len() - 1]);
                    assert(strip_nl(s) =~= head + seq!['\n'] + strip_nl(rest));
                } else {
                    assert(s[s.len() - 1] == rest[rest.len() - 1]);
                    assert(strip_nl(s) =~= head + seq!['\n'] + strip_nl(rest));
                }
            }
        }
    }
}

// ---------------------------------------------------------------------------
// Executable text operations
// ---------------------------------------------------------------------------

/// Character-wise string equality.
pub fn str_eq(a: &str, b: &str) -> (r: bool)
    ensures
        r == (a@ == b@),
{
    let n = a.unicode_len();
    if n != b.unicode_len() {
        return false;
    }
    let mut i: usize = 0;
    while i < n
        invariant
            n == a@.len(),
            n == b@.len(),
            0 <= i <= n,
            forall|j: int| 0 <= j < i ==> a@[j] == b@[j],
        decreases n - i,
    {
        if a.get_char(i) != b.get_char(i) {
            return false;
        }
        i = i + 1;
    }
    proof {
        assert(a@ =~= b@);
    }
    true
}

/// Does the text begin with the sentinel prefix `error`?
pub fn starts_with_error(s: &str) -> (r: bool)
    ensures
        r == starts_with(s@, error_prefix()),
{
    if s.unicode_len() < 5 {
        return false;
    }
    let r = s.get_char(0) == 'e' && s.get_char(1) == 'r' && s.get_char(2) == 'r' && s.get_char(3)
        == 'o' && s.get_char(4) == 'r';
    proof {
        if r {
            assert(s@.subrange(0, 5) =~= error_prefix());
        } else {
            if starts_with(s@, error_prefix()) {
                assert(s@[0] == s@.subrange(0, 5)[0]);
                assert(s@[1] == s@.subrange(0, 5)[1]);
                assert(s@[2] == s@.subrange(0, 5)[2]);
                assert(s@[3] == s@.subrange(0, 5)[3]);
                assert(s@[4] == s@.subrange(0, 5)[4]);
            }
        }
    }
    r
}

/// Split a response body into lines, as a buffered line reader would: lines
/// end at `'\n'` or `"\r\n"`, and a final line without a newline is kept.
pub fn split_lines(s: &str) -> (r: Vec<String>)
    ensures
        str_views(r@) == spec_lines(s@),
{
    let n = s.unicode_len();
    let mut out: Vec<String> = Vec::new();
    let mut start: usize = 0;
    let mut pos: usize = 0;
    proof {
        assert(s@.skip(0) =~= s@);
        assert(spec_lines(s@) =~= str_views(out@) + spec_lines(s@.skip(0)));
    }
    while pos < n
        invariant
            n == s@.len(),
            0 <= start as int <= pos as int <= n as int,
            forall|j: int| start <= j < pos ==> s@[j] != '\n',
            spec_lines(s@) =~= str_views(out@) + spec_lines(s@.skip(start as int)),
        decreases n - pos,
    {
        if s.get_char(pos) == '\n' {
            let ghost rest = s@.skip(start as int);
            proof {
                assert forall|j: int| 0 <= j < pos - start implies rest[j] != '\n' by {
                    assert(rest[j] == s@[start + j]);
                }
                assert(rest[pos - start] == s@[pos as int]);
                lemma_sep_index_of(rest, '\n', pos - start);
            }
            let line: String = if pos > start && s.get_char(pos - 1) == '\r' {
                s.substring_char(start, pos - 1).to_owned()
            } else {
                s.substring_char(start, pos).to_owned()
            };
            proof {
                let i = sep_index(rest, '\n');
                assert(rest.take(i) =~= s@.subrange(start as int, pos as int));
                if pos > start && s@[pos - 1] == '\r' {
                    assert(rest.take(i)[i - 1] == '\r');
                    assert(strip_cr(rest.take(i)) =~= s@.subrange(start as int, pos - 1));
                    assert(line@ == strip_cr(rest.take(i)));
                } else {
                    if rest.take(i).len() > 0 {
                        assert(rest.take(i)[i - 1] == s@[pos - 1]);
                    }
                    assert(strip_cr(rest.take(i)) =~= s@.subrange(start as int, pos as int));
                    assert(line@ == strip_cr(rest.take(i)));
                }
                assert(rest.skip(i + 1) =~= s@.skip(pos + 1));
                assert(spec_lines(rest) =~= seq![line@] + spec_lines(s@.skip(pos + 1)));
            }
            let ghost old_out = out@;
            out.push(line);
            proof {
                assert(str_views(out@) =~= str_views(old_out).push(line@));
                assert(str_views(out@) + spec_lines(s@.skip(pos + 1)) =~= str_views(old_out)
                    + spec_lines(s@.skip(start as int)));
            }
            start = pos + 1;
        }
        pos = pos + 1;
    }
    if start < n {
        let ghost rest = s@.skip(start as int);
        proof {
            assert forall|j: int| 0 <= j < rest.len() implies rest[j] != '\n' by {
                assert(rest[j] == s@[start + j]);
            }
            lemma_sep_index_of(rest, '\n', rest.len() as int);
            assert(spec_lines(rest) =~= seq![rest]);
        }
        let line = s.substring_char(start, n).to_owned();
        let ghost old_out = out@;
        out.push(line);
        proof {
            assert(line@ =~= rest);
            assert(str_views(out@) =~= str_views(old_out).push(line@));
        }
    } else {
        proof {
            assert(s@.skip(start as int).len() == 0);
            assert(spec_lines(s@.skip(start as int)) =~= Seq::<Seq<char>>::empty());
        }
    }
    proof {
        assert(str_views(out@) =~= str_views(out@) + Seq::<Seq<char>>::empty());
    }
    out
}

/// Split a line into comma-separated fields, keeping empty fields; the empty
/// line yields one empty field.
pub fn split_commas(s: &str) -> (r: Vec<String>)
    ensures
        str_views(r@) == spec_split(s@, ','),
{
    let n = s.unicode_len();
    let mut out: Vec<String> = Vec::new();
    let mut start: usize = 0;
    let mut pos: usize = 0;
    proof {
        assert(s@.skip(0) =~= s@);
        assert(spec_split(s@, ',') =~= str_views(out@) + spec_split(s@.skip(0), ','));
    }
    while pos < n
        invariant
            n == s@.len(),
            0 <= start as int <= pos as int <= n as int,
            forall|j: int| start <= j < pos ==> s@[j] != ',',
            spec_split(s@, ',') =~= str_views(out@) + spec_split(s@.skip(start as int), ','),
        decreases n - pos,
    {
        if s.get_char(pos) == ',' {
            let ghost rest = s@.skip(start as int);
            proof {
                assert forall|j: int| 0 <= j < pos - start implies rest[j] != ',' by {
                    assert(rest[j] == s@[start + j]);
                }
                assert(rest[pos - start] == s@[pos as int]);
                lemma_sep_index_of(rest, ',', pos - start);
            }
            let field = s.substring_char(start, pos).to_owned();
            proof {
                let i = sep_index(rest, ',');
                assert(rest.take(i) =~= s@.subrange(start as int, pos as int));
                assert(field@ == rest.take(i));
                assert(rest.skip(i + 1) =~= s@.skip(pos + 1));
                assert(spec_split(rest, ',') =~= seq![field@] + spec_split(s@.skip(pos + 1), ','));
            }
            let ghost old_out = out@;
            out.push(field);
            proof {
                assert(str_views(out@) =~= str_views(old_out).push(field@));
                assert(str_views(out@) + spec_split(s@.skip(pos + 1), ',') =~= str_views(old_out)
                    + spec_split(s@.skip(start as int), ','));
            }
            start = pos + 1;
        }
        pos = pos + 1;
    }
    let ghost rest = s@.skip(start as int);
    proof {
        assert forall|j: int| 0 <= j < rest.len() implies rest[j] != ',' by {
            assert(rest[j] == s@[start + j]);
        }
        lemma_sep_index_of(rest, ',', rest.len() as int);
        assert(spec_split(rest, ',') =~= seq![rest]);
    }
    let field = s.substring_char(start, n).to_owned();
    let ghost old_out = out@;
    out.push(field);
    proof {
        assert(field@ =~= rest);
        assert(str_views(out@) =~= str_views(old_out).push(field@));
    }
    out
}

} // verus!
