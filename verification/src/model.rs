//! Command descriptors and the data model of the remote service.
//!
//! Each logical operation of the service is one command type: a value
//! carrying the operation's fields, bound at definition time to its wire
//! `method` name and to exactly one response format. The binding is the
//! command descriptor: [`HasMethod`] names the operation, [`Request`] turns
//! a command and a token into the outbound envelope, and [`Response`]
//! decodes the response body through the strategy the command declares.

use vstd::prelude::*;
use crate::consume::csv_empty;
use crate::consume::csv_header;
use crate::consume::csv_header_error;
use crate::consume::csv_ok;
use crate::consume::csv_record;
use crate::consume::consume_csv;
use crate::consume::CsvRow;
use crate::consume::ResponseFormat;
use crate::envelope::build_envelope;
use crate::envelope::pair_views;
use crate::envelope::spec_envelope;
use crate::envelope::FieldV;
use crate::envelope::FieldValue;
use crate::error::Error;
use crate::text::spec_lines;
use crate::text::str_eq;
use crate::text::str_views;

verus! {

// ---------------------------------------------------------------------------
// Descriptor traits
// ---------------------------------------------------------------------------

/// Names the wire method of one logical operation.
pub trait HasMethod {
    /// The method name as a character sequence.
    spec fn spec_method(&self) -> Seq<char>;

    /// The method name, for the envelope.
    fn method(&self) -> (m: String)
        ensures
            m@ == self.spec_method(),
    ;
}

/// Turns a command value and a token into the outbound envelope.
pub trait Request: HasMethod {
    /// The command's own fields, in declaration order.
    spec fn spec_payload(&self) -> Seq<(Seq<char>, FieldV)>;

    /// The command's own fields as keyed values.
    fn fields(&self) -> (f: Vec<(String, FieldValue)>)
        ensures
            pair_views(f@) == self.spec_payload(),
    ;

    /// The request body: the canonical envelope merging `method`, `token`
    /// and the command fields. Building an envelope from typed fields
    /// cannot fail, so the result is always the envelope itself.
    fn request(&self, token: &str) -> (r: Result<String, Error>)
        ensures
            r matches Ok(s) && s@ == spec_envelope(
                self.spec_method(),
                token@,
                self.spec_payload(),
            ),
    {
        let m = self.method();
        let f = self.fields();
        Ok(build_envelope(m.as_str(), token, f))
    }
}

/// Decodes a response body through the strategy the command declares.
pub trait Response {
    /// The decoded result shape of this command.
    type Output;

    /// The response format bound to this command at definition time; the
    /// binding never changes at call time.
    spec fn spec_format() -> ResponseFormat;

    /// The body decodes successfully.
    spec fn resp_ok(body: Seq<char>) -> bool;

    /// The body carries a server-side failure under the sentinel convention.
    spec fn resp_server_err(body: Seq<char>) -> bool;

    /// The message such a failure surfaces with.
    spec fn resp_server_msg(body: Seq<char>) -> Seq<char>;

    /// `out` is exactly the decoding of `body`.
    spec fn resp_matches(out: &Self::Output, body: Seq<char>) -> bool;

    /// The command's declared response format.
    fn format(&self) -> (f: ResponseFormat)
        ensures
            f == Self::spec_format(),
    ;

    /// Decode one response body.
    fn response(&self, body: &str) -> (r: Result<Self::Output, Error>)
        ensures
            r is Ok <==> Self::resp_ok(body@),
            (r matches Ok(v) ==> Self::resp_matches(&v, body@)),
            Self::resp_server_err(body@) ==> (r matches Err(e) && e matches Error::Server(m)
                && m@ == Self::resp_server_msg(body@)),
            (!Self::resp_ok(body@) && !Self::resp_server_err(body@)) ==> (r matches Err(e)
                && e is Decode),
    ;
}

// ---------------------------------------------------------------------------
// Shared shapes of the tabular strategy's contract
// ---------------------------------------------------------------------------

/// `out` is exactly the row-by-row decoding of a tabular `body`.
pub open spec fn csv_matches<T: CsvRow>(out: Seq<T>, body: Seq<char>) -> bool {
    out.len() == spec_lines(body).len() - 1 && forall|i: int|
        0 <= i < out.len() ==> (#[trigger] out[i]).row_matches(
            csv_header(body),
            csv_record(body, i),
        )
}

/// A tabular body that is a server error: empty, or sentinel in the header.
pub open spec fn csv_server_err(body: Seq<char>) -> bool {
    csv_empty(body) || csv_header_error(body)
}

pub open spec fn csv_server_msg(body: Seq<char>) -> Seq<char> {
    if csv_empty(body) {
        "empty response body returned"@
    } else {
        csv_header(body)[0]
    }
}

// ---------------------------------------------------------------------------
// Field lookup inside a tabular record
// ---------------------------------------------------------------------------

/// Index of the first header cell equal to `name`, or the header's length.
pub open spec fn key_index(h: Seq<Seq<char>>, name: Seq<char>) -> int
    decreases h.len(),
{
    if h.len() == 0 {
        0
    } else if h[0] == name {
        0
    } else {
        1 + key_index(h.skip(1), name)
    }
}

pub proof fn lemma_key_index_of(h: Seq<Seq<char>>, name: Seq<char>, m: int)
    requires
        0 <= m <= h.len(),
        forall|j: int| 0 <= j < m ==> h[j] != name,
        m < h.len() ==> h[m] == name,
    ensures
        key_index(h, name) == m,
    decreases h.len(),
{
    if h.len() == 0 {
    } else if h[0] == name {
        assert(m == 0);
    } else {
        assert(m >= 1);
        assert forall|j: int| 0 <= j < m - 1 implies h.skip(1)[j] != name by {
            assert(h.skip(1)[j] == h[j + 1]);
        }
        assert(m - 1 < h.skip(1).len() ==> h.skip(1)[m - 1] == name);
        lemma_key_index_of(h.skip(1), name, m - 1);
    }
}

/// The record cell standing under the header cell named `name`, if the
/// header has the name and the record is long enough.
pub open spec fn spec_lookup(
    h: Seq<Seq<char>>,
    r: Seq<Seq<char>>,
    name: Seq<char>,
) -> Option<Seq<char>> {
    let i = key_index(h, name);
    if i < h.len() && i < r.len() {
        Some(r[i])
    } else {
        None
    }
}

/// Look a field up by header name.
pub fn lookup_field(header: &Vec<String>, record: &Vec<String>, name: &str) -> (r: Option<String>)
    ensures
        r is Some <==> spec_lookup(str_views(header@), str_views(record@), name@) is Some,
        (r matches Some(s) ==> spec_lookup(str_views(header@), str_views(record@), name@) == Some(
            s@,
        )),
{
    let ghost hv = str_views(header@);
    let ghost rv = str_views(record@);
    let mut j: usize = 0;
    while j < header.len()
        invariant
            hv == str_views(header@),
            rv == str_views(record@),
            hv.len() == header@.len(),
            rv.len() == record@.len(),
            0 <= j <= header@.len(),
            forall|k: int| 0 <= k < j ==> hv[k] != name@,
        decreases header@.len() - j,
    {
        let cell = &header[j];
        proof {
            assert(hv[j as int] == cell@);
        }
        if str_eq(cell.as_str(), name) {
            proof {
                lemma_key_index_of(hv, name@, j as int);
            }
            if j < record.len() {
                let field = &record[j];
                proof {
                    assert(rv[j as int] == field@);
                }
                return Some(field.clone());
            } else {
                return None;
            }
        }
        j = j + 1;
    }
    proof {
        lemma_key_index_of(hv, name@, hv.len() as int);
    }
    None
}

/// Look a field up by header name, failing with a decode error when absent.
pub fn require_field(header: &Vec<String>, record: &Vec<String>, name: &str) -> (r: Result<
    String,
    Error,
>)
    ensures
        r is Ok <==> spec_lookup(str_views(header@), str_views(record@), name@) is Some,
        (r matches Ok(s) ==> spec_lookup(str_views(header@), str_views(record@), name@) == Some(
            s@,
        )),
        (r matches Err(e) ==> e is Decode),
{
    match lookup_field(header, record, name) {
        Some(s) => Ok(s),
        None => {
            let mut m = String::from_str("missing field: ");
            m.append(name);
            Err(Error::Decode(m))
        },
    }
}

// ---------------------------------------------------------------------------
// Security kinds
// ---------------------------------------------------------------------------

/// The kinds of securities the service distinguishes.
#[derive(Debug, Clone, Copy, PartialEq, Eq, Structural)]
pub enum SecurityKind {
    Stock,
    Fund,
    Index,
    Futures,
    ETF,
    LOF,
    FJA,
    FJB,
    QDIIFund,
    OpenFund,
    BondFund,
    StockFund,
    MoneyMarketFund,
    MixtureFund,
    Options,
}

/// The wire name of each kind.
pub open spec fn kind_str(k: SecurityKind) -> Seq<char> {
    match k {
        SecurityKind::Stock => "stock"@,
        SecurityKind::Fund => "fund"@,
        SecurityKind::Index => "index"@,
        SecurityKind::Futures => "futures"@,
        SecurityKind::ETF => "etf"@,
        SecurityKind::LOF => "lof"@,
        SecurityKind::FJA => "fja"@,
        SecurityKind::FJB => "fjb"@,
        SecurityKind::QDIIFund => "QDII_fund"@,
        SecurityKind::OpenFund => "open_fund"@,
        SecurityKind::BondFund => "bond_fund"@,
        SecurityKind::StockFund => "stock_fund"@,
        SecurityKind::MoneyMarketFund => "money_market_fund"@,
        SecurityKind::MixtureFund => "mixture_fund"@,
        SecurityKind::Options => "options"@,
    }
}

/// The wire name of a kind, for envelopes.
pub fn security_kind_str(k: &SecurityKind) -> (s: String)
    ensures
        s@ == kind_str(*k),
{
    match k {
        SecurityKind::Stock => String::from_str("stock"),
        SecurityKind::Fund => String::from_str("fund"),
        SecurityKind::Index => String::from_str("index"),
        SecurityKind::Futures => String::from_str("futures"),
        SecurityKind::ETF => String::from_str("etf"),
        SecurityKind::LOF => String::from_str("lof"),
        SecurityKind::FJA => String::from_str("fja"),
        SecurityKind::FJB => String::from_str("fjb"),
        SecurityKind::QDIIFund => String::from_str("QDII_fund"),
        SecurityKind::OpenFund => String::from_str("open_fund"),
        SecurityKind::BondFund => String::from_str("bond_fund"),
        SecurityKind::StockFund => String::from_str("stock_fund"),
        SecurityKind::MoneyMarketFund => String::from_str("money_market_fund"),
        SecurityKind::MixtureFund => String::from_str("mixture_fund"),
        SecurityKind::Options => String::from_str("options"),
    }
}

/// Parse a wire name into a kind.
pub fn parse_security_kind(s: &str) -> (r: Option<SecurityKind>)
    ensures
        (r matches Some(k) ==> s@ == kind_str(k)),
        (r is None ==> forall|k: SecurityKind| s@ != kind_str(k)),
{
    if str_eq(s, "stock") {
        Some(SecurityKind::Stock)
    } else if str_eq(s, "fund") {
        Some(SecurityKind::Fund)
    } else if str_eq(s, "index") {
        Some(SecurityKind::Index)
    } else if str_eq(s, "futures") {
        Some(SecurityKind::Futures)
    } else if str_eq(s, "etf") {
        Some(SecurityKind::ETF)
    } else if str_eq(s, "lof") {
        Some(SecurityKind::LOF)
    } else if str_eq(s, "fja") {
        Some(SecurityKind::FJA)
    } else if str_eq(s, "fjb") {
        Some(SecurityKind::FJB)
    } else if str_eq(s, "QDII_fund") {
        Some(SecurityKind::QDIIFund)
    } else if str_eq(s, "open_fund") {
        Some(SecurityKind::OpenFund)
    } else if str_eq(s, "bond_fund") {
        Some(SecurityKind::BondFund)
    } else if str_eq(s, "stock_fund") {
        Some(SecurityKind::StockFund)
    } else if str_eq(s, "money_market_fund") {
        Some(SecurityKind::MoneyMarketFund)
    } else if str_eq(s, "mixture_fund") {
        Some(SecurityKind::MixtureFund)
    } else if str_eq(s, "options") {
        Some(SecurityKind::Options)
    } else {
        proof {
            assert forall|k: SecurityKind| s@ != kind_str(k) by {
                if k is Stock {
                    assert(kind_str(k) == "stock"@);
                } else if k is Fund {
                    assert(kind_str(k) == "fund"@);
                } else if k is Index {
                    assert(kind_str(k) == "index"@);
                } else if k is Futures {
                    assert(kind_str(k) == "futures"@);
                } else if k is ETF {
                    assert(kind_str(k) == "etf"@);
                } else if k is LOF {
                    assert(kind_str(k) == "lof"@);
                } else if k is FJA {
                    assert(kind_str(k) == "fja"@);
                } else if k is FJB {
                    assert(kind_str(k) == "fjb"@);
                } else if k is QDIIFund {
                    assert(kind_str(k) == "QDII_fund"@);
                } else if k is OpenFund {
                    assert(kind_str(k) == "open_fund"@);
                } else if k is BondFund {
                    assert(kind_str(k) == "bond_fund"@);
                } else if k is StockFund {
                    assert(kind_str(k) == "stock_fund"@);
                } else if k is MoneyMarketFund {
                    assert(kind_str(k) == "money_market_fund"@);
                } else if k is MixtureFund {
                    assert(kind_str(k) == "mixture_fund"@);
                } else {
                    assert(kind_str(k) == "options"@);
                }
            }
        }
        None
    }
}

// ---------------------------------------------------------------------------
// Security records
// ---------------------------------------------------------------------------

/// One listed security, as the tabular format carries it.
#[derive(Debug, PartialEq)]
pub struct Security {
    pub code: String,
    pub display_name: String,
    pub name: String,
    pub start_date: String,
    pub end_date: String,
    pub kind: SecurityKind,
    pub parent: Option<String>,
}

impl CsvRow for Security {
    open spec fn row_ok(h: Seq<Seq<char>>, r: Seq<Seq<char>>) -> bool {
        &&& spec_lookup(h, r, "code"@) is Some
        &&& spec_lookup(h, r, "display_name"@) is Some
        &&& spec_lookup(h, r, "name"@) is Some
        &&& spec_lookup(h, r, "start_date"@) is Some
        &&& spec_lookup(h, r, "end_date"@) is Some
        &&& match spec_lookup(h, r, "type"@) {
            Some(t) => exists|k: SecurityKind| t == kind_str(k),
            None => false,
        }
    }

    open spec fn row_matches(&self, h: Seq<Seq<char>>, r: Seq<Seq<char>>) -> bool {
        &&& spec_lookup(h, r, "code"@) == Some(self.code@)
        &&& spec_lookup(h, r, "display_name"@) == Some(self.display_name@)
        &&& spec_lookup(h, r, "name"@) == Some(self.name@)
        &&& spec_lookup(h, r, "start_date"@) == Some(self.start_date@)
        &&& spec_lookup(h, r, "end_date"@) == Some(self.end_date@)
        &&& match spec_lookup(h, r, "type"@) {
            Some(t) => t == kind_str(self.kind),
            None => false,
        }
        &&& match spec_lookup(h, r, "parent"@) {
            Some(t) => if t.len() == 0 {
                self.parent is None
            } else {
                self.parent matches Some(p) && p@ == t
            },
            None => self.parent is None,
        }
    }

    fn decode_row(header: &Vec<String>, record: &Vec<String>) -> (r: Result<Self, Error>) {
        let code = match require_field(header, record, "code") {
            Ok(s) => s,
            Err(e) => { return Err(e) },
        };
        let display_name = match require_field(header, record, "display_name") {
            Ok(s) => s,
            Err(e) => { return Err(e) },
        };
        let name = match require_field(header, record, "name") {
            Ok(s) => s,
            Err(e) => { return Err(e) },
        };
        let start_date = match require_field(header, record, "start_date") {
            Ok(s) => s,
            Err(e) => { return Err(e) },
        };
        let end_date = match require_field(header, record, "end_date") {
            Ok(s) => s,
            Err(e) => { return Err(e) },
        };
        let kind_text = match require_field(header, record, "type") {
            Ok(s) => s,
            Err(e) => { return Err(e) },
        };
        let kind = match parse_security_kind(kind_text.as_str()) {
            Some(k) => k,
            None => {
                return Err(Error::Decode(String::from_str("unknown security kind")));
            },
        };
        let parent = match lookup_field(header, record, "parent") {
            Some(cell) => {
                if cell.as_str().unicode_len() == 0 {
                    None
                } else {
                    Some(cell)
                }
            },
            None => None,
        };
        Ok(Security { code, display_name, name, start_date, end_date, kind, parent })
    }
}

// ---------------------------------------------------------------------------
// Commands
// ---------------------------------------------------------------------------

/// All securities of one kind known to the platform, optionally at a date.
#[derive(Debug)]
pub struct GetAllSecurities {
    pub code: SecurityKind,
    pub date: Option<String>,
}

impl HasMethod for GetAllSecurities {
    open spec fn spec_method(&self) -> Seq<char> {
        "get_all_securities"@
    }

    fn method(&self) -> (m: String) {
        String::from_str("get_all_securities")
    }
}

impl Request for GetAllSecurities {
    open spec fn spec_payload(&self) -> Seq<(Seq<char>, FieldV)> {
        match self.date {
            Some(d) => seq![
                ("code"@, FieldV::Str(kind_str(self.code))),
                ("date"@, FieldV::Str(d@)),
            ],
            None => seq![("code"@, FieldV::Str(kind_str(self.code)))],
        }
    }

    fn fields(&self) -> (f: Vec<(String, FieldValue)>) {
        let mut f: Vec<(String, FieldValue)> = Vec::new();
        f.push((String::from_str("code"), FieldValue::Str(security_kind_str(&self.code))));
        match &self.date {
            Some(d) => {
                f.push((String::from_str("date"), FieldValue::Str(d.clone())));
            },
            None => {},
        }
        proof {
            assert(pair_views(f@) =~= self.spec_payload());
        }
        f
    }
}

impl Response for GetAllSecurities {
    type Output = Vec<Security>;

    open spec fn spec_format() -> ResponseFormat {
        ResponseFormat::Tabular
    }

    open spec fn resp_ok(body: Seq<char>) -> bool {
        csv_ok::<Security>(body)
    }

    open spec fn resp_server_err(body: Seq<char>) -> bool {
        csv_server_err(body)
    }

    open spec fn resp_server_msg(body: Seq<char>) -> Seq<char> {
        csv_server_msg(body)
    }

    open spec fn resp_matches(out: &Vec<Security>, body: Seq<char>) -> bool {
        csv_matches(out@, body)
    }

    fn format(&self) -> (f: ResponseFormat) {
        ResponseFormat::Tabular
    }

    fn response(&self, body: &str) -> (r: Result<Vec<Security>, Error>) {
        consume_csv::<Security>(body)
    }
}

} // verus!
