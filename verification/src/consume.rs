//! The four body-consumer strategies.
//!
//! Every response body is plain text; the command's declared response format
//! selects how it is decoded. Before ordinary decoding, a strategy applies
//! the service's sentinel convention: a body (or, for the tabular format,
//! the first header cell) beginning with `error` is a server-side failure
//! and is surfaced as [`Error::Server`] with the sentinel text preserved.
//! The line-list format is the deliberate exception: a server error arrives
//! there as ordinary data and callers inspect the content themselves.

use vstd::prelude::*;
use crate::error::Error;
use crate::num::parse_i32;
use crate::num::spec_parse_i32;
use crate::text::error_prefix;
use crate::text::spec_lines;
use crate::text::spec_split;
use crate::text::split_commas;
use crate::text::split_lines;
use crate::text::starts_with;
use crate::text::starts_with_error;
use crate::text::str_views;
use crate::text::lemma_spec_split_nonempty;

verus! {

/// The closed set of wire shapes the remote service answers with.
#[derive(Debug, Clone, Copy, PartialEq, Eq, Structural)]
pub enum ResponseFormat {
    /// Comma-separated header line plus one record per following line.
    Tabular,
    /// Newline-delimited list of strings.
    LineList,
    /// One bare scalar value as text.
    Scalar,
    /// One JSON document.
    JsonObject,
}

// ---------------------------------------------------------------------------
// Tabular
// ---------------------------------------------------------------------------

/// A row type decodable from one tabular record under a header line.
pub trait CsvRow: Sized {
    /// The header and record carry everything this row type requires.
    spec fn row_ok(header: Seq<Seq<char>>, record: Seq<Seq<char>>) -> bool;

    /// `self` is exactly the decoding of `record` under `header`.
    spec fn row_matches(&self, header: Seq<Seq<char>>, record: Seq<Seq<char>>) -> bool;

    /// Decode one record; fails with a decode error exactly when the record
    /// does not carry what the row type requires.
    fn decode_row(header: &Vec<String>, record: &Vec<String>) -> (r: Result<Self, Error>)
        ensures
            r is Ok <==> Self::row_ok(str_views(header@), str_views(record@)),
            (r matches Ok(v) ==> v.row_matches(str_views(header@), str_views(record@))),
            (r matches Err(e) ==> e is Decode),
    ;
}

/// The body has no lines at all.
pub open spec fn csv_empty(body: Seq<char>) -> bool {
    spec_lines(body).len() == 0
}

/// The comma-split first line of the body.
pub open spec fn csv_header(body: Seq<char>) -> Seq<Seq<char>> {
    spec_split(spec_lines(body)[0], ',')
}

/// The comma-split fields of data row `i` (the line after the header).
pub open spec fn csv_record(body: Seq<char>, i: int) -> Seq<Seq<char>> {
    spec_split(spec_lines(body)[i + 1], ',')
}

/// The first header cell carries the sentinel.
pub open spec fn csv_header_error(body: Seq<char>) -> bool {
    !csv_empty(body) && starts_with(csv_header(body)[0], error_prefix())
}

/// A tabular body decodes in full: it has a header free of the sentinel and
/// every data row has the header's arity and satisfies the row type.
pub open spec fn csv_ok<T: CsvRow>(body: Seq<char>) -> bool {
    &&& !csv_empty(body)
    &&& !csv_header_error(body)
    &&& forall|i: int|
        0 <= i < spec_lines(body).len() - 1 ==> (#[trigger] csv_record(body, i)).len()
            == csv_header(body).len() && T::row_ok(csv_header(body), csv_record(body, i))
}

/// Decode a tabular body into its data rows, in file order.
///
/// An empty body and a sentinel-bearing header are server errors; a row of
/// the wrong arity or one the row type rejects is a decode error; otherwise
/// every data row is returned, one decoded value per row.
pub fn consume_csv<T: CsvRow>(body: &str) -> (r: Result<Vec<T>, Error>)
    ensures
        r is Ok <==> csv_ok::<T>(body@),
        (r matches Ok(v) ==> v@.len() == spec_lines(body@).len() - 1 && forall|i: int|
            0 <= i < v@.len() ==> (#[trigger] v@[i]).row_matches(
                csv_header(body@),
                csv_record(body@, i),
            )),
        csv_empty(body@) ==> (r matches Err(e) && e matches Error::Server(m) && m@
            == "empty response body returned"@),
        csv_header_error(body@) ==> (r matches Err(e) && e matches Error::Server(m) && m@
            == csv_header(body@)[0]),
        (!csv_empty(body@) && !csv_header_error(body@) && !csv_ok::<T>(body@)) ==> (r matches Err(e)
            && e is Decode),
{
    let lines = split_lines(body);
    if lines.len() == 0 {
        return Err(Error::Server(String::from_str("empty response body returned")));
    }
    let first_line = &lines[0];
    proof {
        assert(str_views(lines@)[0] == first_line@);
    }
    let header = split_commas(first_line.as_str());
    proof {
        lemma_spec_split_nonempty(first_line@, ',');
        assert(str_views(header@) == csv_header(body@));
        assert(str_views(header@)[0] == header@[0]@);
    }
    let first_cell = &header[0];
    if starts_with_error(first_cell.as_str()) {
        return Err(Error::Server(first_cell.clone()));
    }
    let mut out: Vec<T> = Vec::new();
    let mut i: usize = 1;
    while i < lines.len()
        invariant
            1 <= i <= lines@.len(),
            str_views(lines@) == spec_lines(body@),
            str_views(header@) == csv_header(body@),
            !csv_empty(body@),
            !csv_header_error(body@),
            out@.len() == i - 1,
            forall|k: int|
                0 <= k < i - 1 ==> (#[trigger] out@[k]).row_matches(
                    csv_header(body@),
                    csv_record(body@, k),
                ),
            forall|k: int|
                0 <= k < i - 1 ==> (#[trigger] csv_record(body@, k)).len() == csv_header(
                    body@,
                ).len() && T::row_ok(csv_header(body@), csv_record(body@, k)),
        decreases lines@.len() - i,
    {
        let line = &lines[i];
        proof {
            assert(str_views(lines@)[i as int] == line@);
            assert(line@ == spec_lines(body@)[i as int]);
        }
        let record = split_commas(line.as_str());
        proof {
            assert(str_views(record@) == csv_record(body@, i - 1));
        }
        if record.len() != header.len() {
            proof {
                assert(csv_record(body@, i - 1).len() != csv_header(body@).len());
            }
            return Err(Error::Decode(String::from_str("row has wrong number of fields")));
        }
        match T::decode_row(&header, &record) {
            Ok(v) => {
                out.push(v);
            },
            Err(e) => {
                proof {
                    assert(!T::row_ok(csv_header(body@), csv_record(body@, i - 1)));
                }
                return Err(e);
            },
        }
        i = i + 1;
    }
    Ok(out)
}

// ---------------------------------------------------------------------------
// Line list
// ---------------------------------------------------------------------------

/// Decode a line-list body: one string per line, in original order.
///
/// Deliberately, no sentinel check is applied here: a server error returned
/// in line-list form surfaces as ordinary data (a single line holding the
/// sentinel text), and callers of line-format commands inspect the content
/// themselves.
pub fn consume_line(body: &str) -> (r: Vec<String>)
    ensures
        str_views(r@) == spec_lines(body@),
{
    split_lines(body)
}

// ---------------------------------------------------------------------------
// Scalar
// ---------------------------------------------------------------------------

/// Decode a scalar body as a signed 32-bit integer.
///
/// A sentinel-bearing body is a server error with the text preserved; any
/// other body must parse as an integer, else it is a decode error.
pub fn consume_single(body: &str) -> (r: Result<i32, Error>)
    ensures
        starts_with(body@, error_prefix()) ==> (r matches Err(e) && e matches Error::Server(m)
            && m@ == body@),
        !starts_with(body@, error_prefix()) ==> match spec_parse_i32(body@) {
            Some(v) => r == Ok::<i32, Error>(v),
            None => r matches Err(e) && e is Decode,
        },
{
    if starts_with_error(body) {
        return Err(Error::Server(body.to_owned()));
    }
    parse_i32(body)
}

// ---------------------------------------------------------------------------
// JSON document
// ---------------------------------------------------------------------------

/// Check and frame a JSON-format body.
///
/// The verified core applies the sentinel convention and hands the document
/// through unchanged; materializing the typed structure from the document is
/// standard JSON decoding and is left to the unverified edge around the
/// library.
pub fn consume_json(body: &str) -> (r: Result<String, Error>)
    ensures
        starts_with(body@, error_prefix()) ==> (r matches Err(e) && e matches Error::Server(m)
            && m@ == body@),
        !starts_with(body@, error_prefix()) ==> (r matches Ok(s) && s@ == body@),
{
    if starts_with_error(body) {
        return Err(Error::Server(body.to_owned()));
    }
    Ok(body.to_owned())
}

} // verus!
