//! The tabular row catalog: every record shape the service answers with,
//! each decodable from one comma-split record under a header line.
//!
//! Columns are read by header name, so column order does not matter. A
//! missing required column, a malformed numeral or an out-of-range count is
//! a decode error; a column the row type does not know is ignored. Optional
//! columns may be absent or empty.

use vstd::prelude::*;
use crate::consume::CsvRow;
use crate::decimal::spec_decimal;
use crate::decimal::Decimal;
use crate::error::Error;
use crate::model::lookup_field;
use crate::model::require_field;
use crate::model::spec_lookup;
use crate::num::parse_i32;
use crate::num::spec_parse_i32;
use crate::text::str_views;

verus! {

// ---------------------------------------------------------------------------
// Field readers shared by the row types
// ---------------------------------------------------------------------------

/// The named column is present and holds a decimal numeral.
pub open spec fn dec_ok(h: Seq<Seq<char>>, r: Seq<Seq<char>>, name: Seq<char>) -> bool {
    match spec_lookup(h, r, name) {
        Some(t) => spec_decimal(t),
        None => false,
    }
}

/// `d` is the named column's numeral.
pub open spec fn dec_is(d: &Decimal, h: Seq<Seq<char>>, r: Seq<Seq<char>>, name: Seq<char>) -> bool {
    match spec_lookup(h, r, name) {
        Some(t) => d.spec_text() == t,
        None => false,
    }
}

/// The named column is absent, empty, or holds a decimal numeral.
pub open spec fn opt_dec_ok(h: Seq<Seq<char>>, r: Seq<Seq<char>>, name: Seq<char>) -> bool {
    match spec_lookup(h, r, name) {
        Some(t) => t.len() == 0 || spec_decimal(t),
        None => true,
    }
}

/// `o` is the named optional column's numeral, or nothing.
pub open spec fn opt_dec_is(
    o: &Option<Decimal>,
    h: Seq<Seq<char>>,
    r: Seq<Seq<char>>,
    name: Seq<char>,
) -> bool {
    match spec_lookup(h, r, name) {
        Some(t) => if t.len() == 0 {
            o is None
        } else {
            o matches Some(d) && d.spec_text() == t
        },
        None => o is None,
    }
}

/// The named column is present and parses as a 32-bit integer.
pub open spec fn int_ok(h: Seq<Seq<char>>, r: Seq<Seq<char>>, name: Seq<char>) -> bool {
    match spec_lookup(h, r, name) {
        Some(t) => spec_parse_i32(t) is Some,
        None => false,
    }
}

/// `v` is the named column's integer.
pub open spec fn int_is(v: i32, h: Seq<Seq<char>>, r: Seq<Seq<char>>, name: Seq<char>) -> bool {
    match spec_lookup(h, r, name) {
        Some(t) => spec_parse_i32(t) == Some(v),
        None => false,
    }
}

/// The named column is absent, empty, or a small integer within `lo..=hi`.
pub open spec fn opt_small_ok(
    h: Seq<Seq<char>>,
    r: Seq<Seq<char>>,
    name: Seq<char>,
    lo: int,
    hi: int,
) -> bool {
    match spec_lookup(h, r, name) {
        Some(t) => t.len() == 0 || (match spec_parse_i32(t) {
            Some(v) => lo <= v <= hi,
            None => false,
        }),
        None => true,
    }
}

/// `o` is the named optional column's small integer, or nothing.
pub open spec fn opt_i8_is(
    o: &Option<i8>,
    h: Seq<Seq<char>>,
    r: Seq<Seq<char>>,
    name: Seq<char>,
) -> bool {
    match spec_lookup(h, r, name) {
        Some(t) => if t.len() == 0 {
            o is None
        } else {
            o matches Some(b) && spec_parse_i32(t) == Some(b as i32)
        },
        None => o is None,
    }
}

/// `o` is the named optional column's small unsigned integer, or nothing.
pub open spec fn opt_u8_is(
    o: &Option<u8>,
    h: Seq<Seq<char>>,
    r: Seq<Seq<char>>,
    name: Seq<char>,
) -> bool {
    match spec_lookup(h, r, name) {
        Some(t) => if t.len() == 0 {
            o is None
        } else {
            o matches Some(b) && spec_parse_i32(t) == Some(b as i32)
        },
        None => o is None,
    }
}

/// Read a required decimal column.
pub fn require_decimal(header: &Vec<String>, record: &Vec<String>, name: &str) -> (r: Result<
    Decimal,
    Error,
>)
    ensures
        r is Ok <==> dec_ok(str_views(header@), str_views(record@), name@),
        (r matches Ok(d) ==> dec_is(&d, str_views(header@), str_views(record@), name@)),
        (r matches Err(e) ==> e is Decode),
{
    let cell = match require_field(header, record, name) {
        Ok(s) => s,
        Err(e) => {
            return Err(e);
        },
    };
    Decimal::parse(cell.as_str())
}

/// Read an optional decimal column.
pub fn optional_decimal(header: &Vec<String>, record: &Vec<String>, name: &str) -> (r: Result<
    Option<Decimal>,
    Error,
>)
    ensures
        r is Ok <==> opt_dec_ok(str_views(header@), str_views(record@), name@),
        (r matches Ok(o) ==> opt_dec_is(&o, str_views(header@), str_views(record@), name@)),
        (r matches Err(e) ==> e is Decode),
{
    match lookup_field(header, record, name) {
        None => Ok(None),
        Some(cell) => {
            if cell.as_str().unicode_len() == 0 {
                Ok(None)
            } else {
                match Decimal::parse(cell.as_str()) {
                    Ok(d) => Ok(Some(d)),
                    Err(e) => Err(e),
                }
            }
        },
    }
}

/// Read a required 32-bit integer column.
pub fn require_i32(header: &Vec<String>, record: &Vec<String>, name: &str) -> (r: Result<
    i32,
    Error,
>)
    ensures
        r is Ok <==> int_ok(str_views(header@), str_views(record@), name@),
        (r matches Ok(v) ==> int_is(v, str_views(header@), str_views(record@), name@)),
        (r matches Err(e) ==> e is Decode),
{
    let cell = match require_field(header, record, name) {
        Ok(s) => s,
        Err(e) => {
            return Err(e);
        },
    };
    parse_i32(cell.as_str())
}

/// Read an optional signed-byte column.
pub fn optional_i8(header: &Vec<String>, record: &Vec<String>, name: &str) -> (r: Result<
    Option<i8>,
    Error,
>)
    ensures
        r is Ok <==> opt_small_ok(str_views(header@), str_views(record@), name@, -128, 127),
        (r matches Ok(o) ==> opt_i8_is(&o, str_views(header@), str_views(record@), name@)),
        (r matches Err(e) ==> e is Decode),
{
    match lookup_field(header, record, name) {
        None => Ok(None),
        Some(cell) => {
            if cell.as_str().unicode_len() == 0 {
                Ok(None)
            } else {
                match parse_i32(cell.as_str()) {
                    Ok(v) => {
                        if -128 <= v && v <= 127 {
                            Ok(Some(v as i8))
                        } else {
                            Err(Error::Decode(String::from_str("value out of range")))
                        }
                    },
                    Err(e) => Err(e),
                }
            }
        },
    }
}

/// Read an optional unsigned-byte column.
pub fn optional_u8(header: &Vec<String>, record: &Vec<String>, name: &str) -> (r: Result<
    Option<u8>,
    Error,
>)
    ensures
        r is Ok <==> opt_small_ok(str_views(header@), str_views(record@), name@, 0, 255),
        (r matches Ok(o) ==> opt_u8_is(&o, str_views(header@), str_views(record@), name@)),
        (r matches Err(e) ==> e is Decode),
{
    match lookup_field(header, record, name) {
        None => Ok(None),
        Some(cell) => {
            if cell.as_str().unicode_len() == 0 {
                Ok(None)
            } else {
                match parse_i32(cell.as_str()) {
                    Ok(v) => {
                        if 0 <= v && v <= 255 {
                            Ok(Some(v as u8))
                        } else {
                            Err(Error::Decode(String::from_str("value out of range")))
                        }
                    },
                    Err(e) => Err(e),
                }
            }
        },
    }
}

// ---------------------------------------------------------------------------
// Row types
// ---------------------------------------------------------------------------

/// One lock-up share release record.
#[derive(Debug, PartialEq)]
pub struct LockedShare {
    pub day: String,
    pub code: String,
    pub num: Decimal,
    pub rate1: Decimal,
    pub rate2: Decimal,
}

impl CsvRow for LockedShare {
    open spec fn row_ok(h: Seq<Seq<char>>, r: Seq<Seq<char>>) -> bool {
        &&& spec_lookup(h, r, "day"@) is Some
        &&& spec_lookup(h, r, "code"@) is Some
        &&& dec_ok(h, r, "num"@)
        &&& dec_ok(h, r, "rate1"@)
        &&& dec_ok(h, r, "rate2"@)
    }

    open spec fn row_matches(&self, h: Seq<Seq<char>>, r: Seq<Seq<char>>) -> bool {
        &&& spec_lookup(h, r, "day"@) == Some(self.day@)
        &&& spec_lookup(h, r, "code"@) == Some(self.code@)
        &&& dec_is(&self.num, h, r, "num"@)
        &&& dec_is(&self.rate1, h, r, "rate1"@)
        &&& dec_is(&self.rate2, h, r, "rate2"@)
    }

    fn decode_row(header: &Vec<String>, record: &Vec<String>) -> (r: Result<Self, Error>) {
        let day = match require_field(header, record, "day") {
            Ok(v) => v,
            Err(e) => { return Err(e) },
        };
        let code = match require_field(header, record, "code") {
            Ok(v) => v,
            Err(e) => { return Err(e) },
        };
        let num = match require_decimal(header, record, "num") {
            Ok(v) => v,
            Err(e) => { return Err(e) },
        };
        let rate1 = match require_decimal(header, record, "rate1") {
            Ok(v) => v,
            Err(e) => { return Err(e) },
        };
        let rate2 = match require_decimal(header, record, "rate2") {
            Ok(v) => v,
            Err(e) => { return Err(e) },
        };
        Ok(LockedShare { day, code, num, rate1, rate2 })
    }
}

/// One index constituent's weight at a date.
#[derive(Debug, PartialEq)]
pub struct IndexWeight {
    pub code: String,
    pub display_name: String,
    pub date: String,
    pub weight: Decimal,
}

impl CsvRow for IndexWeight {
    open spec fn row_ok(h: Seq<Seq<char>>, r: Seq<Seq<char>>) -> bool {
        &&& spec_lookup(h, r, "code"@) is Some
        &&& spec_lookup(h, r, "display_name"@) is Some
        &&& spec_lookup(h, r, "date"@) is Some
        &&& dec_ok(h, r, "weight"@)
    }

    open spec fn row_matches(&self, h: Seq<Seq<char>>, r: Seq<Seq<char>>) -> bool {
        &&& spec_lookup(h, r, "code"@) == Some(self.code@)
        &&& spec_lookup(h, r, "display_name"@) == Some(self.display_name@)
        &&& spec_lookup(h, r, "date"@) == Some(self.date@)
        &&& dec_is(&self.weight, h, r, "weight"@)
    }

    fn decode_row(header: &Vec<String>, record: &Vec<String>) -> (r: Result<Self, Error>) {
        let code = match require_field(header, record, "code") {
            Ok(v) => v,
            Err(e) => { return Err(e) },
        };
        let display_name = match require_field(header, record, "display_name") {
            Ok(v) => v,
            Err(e) => { return Err(e) },
        };
        let date = match require_field(header, record, "date") {
            Ok(v) => v,
            Err(e) => { return Err(e) },
        };
        let weight = match require_decimal(header, record, "weight") {
            Ok(v) => v,
            Err(e) => { return Err(e) },
        };
        Ok(IndexWeight { code, display_name, date, weight })
    }
}

/// One industry classification entry.
#[derive(Debug, PartialEq)]
pub struct IndustryIndex {
    pub index: String,
    pub name: String,
    pub start_date: String,
}

impl CsvRow for IndustryIndex {
    open spec fn row_ok(h: Seq<Seq<char>>, r: Seq<Seq<char>>) -> bool {
        &&& spec_lookup(h, r, "index"@) is Some
        &&& spec_lookup(h, r, "name"@) is Some
        &&& spec_lookup(h, r, "start_date"@) is Some
    }

    open spec fn row_matches(&self, h: Seq<Seq<char>>, r: Seq<Seq<char>>) -> bool {
        &&& spec_lookup(h, r, "index"@) == Some(self.index@)
        &&& spec_lookup(h, r, "name"@) == Some(self.name@)
        &&& spec_lookup(h, r, "start_date"@) == Some(self.start_date@)
    }

    fn decode_row(header: &Vec<String>, record: &Vec<String>) -> (r: Result<Self, Error>) {
        let index = match require_field(header, record, "index") {
            Ok(v) => v,
            Err(e) => { return Err(e) },
        };
        let name = match require_field(header, record, "name") {
            Ok(v) => v,
            Err(e) => { return Err(e) },
        };
        let start_date = match require_field(header, record, "start_date") {
            Ok(v) => v,
            Err(e) => { return Err(e) },
        };
        Ok(IndustryIndex { index, name, start_date })
    }
}

/// The industry one security belongs to.
#[derive(Debug, PartialEq)]
pub struct Industry {
    pub industry: String,
    pub industry_code: String,
    pub industry_name: String,
}

impl CsvRow for Industry {
    open spec fn row_ok(h: Seq<Seq<char>>, r: Seq<Seq<char>>) -> bool {
        &&& spec_lookup(h, r, "industry"@) is Some
        &&& spec_lookup(h, r, "industry_code"@) is Some
        &&& spec_lookup(h, r, "industry_name"@) is Some
    }

    open spec fn row_matches(&self, h: Seq<Seq<char>>, r: Seq<Seq<char>>) -> bool {
        &&& spec_lookup(h, r, "industry"@) == Some(self.industry@)
        &&& spec_lookup(h, r, "industry_code"@) == Some(self.industry_code@)
        &&& spec_lookup(h, r, "industry_name"@) == Some(self.industry_name@)
    }

    fn decode_row(header: &Vec<String>, record: &Vec<String>) -> (r: Result<Self, Error>) {
        let industry = match require_field(header, record, "industry") {
            Ok(v) => v,
            Err(e) => { return Err(e) },
        };
        let industry_code = match require_field(header, record, "industry_code") {
            Ok(v) => v,
            Err(e) => { return Err(e) },
        };
        let industry_name = match require_field(header, record, "industry_name") {
            Ok(v) => v,
            Err(e) => { return Err(e) },
        };
        Ok(Industry { industry, industry_code, industry_name })
    }
}

/// One concept board.
#[derive(Debug, PartialEq)]
pub struct Concept {
    pub code: String,
    pub name: String,
    pub start_date: String,
}

impl CsvRow for Concept {
    open spec fn row_ok(h: Seq<Seq<char>>, r: Seq<Seq<char>>) -> bool {
        &&& spec_lookup(h, r, "code"@) is Some
        &&& spec_lookup(h, r, "name"@) is Some
        &&& spec_lookup(h, r, "start_date"@) is Some
    }

    open spec fn row_matches(&self, h: Seq<Seq<char>>, r: Seq<Seq<char>>) -> bool {
        &&& spec_lookup(h, r, "code"@) == Some(self.code@)
        &&& spec_lookup(h, r, "name"@) == Some(self.name@)
        &&& spec_lookup(h, r, "start_date"@) == Some(self.start_date@)
    }

    fn decode_row(header: &Vec<String>, record: &Vec<String>) -> (r: Result<Self, Error>) {
        let code = match require_field(header, record, "code") {
            Ok(v) => v,
            Err(e) => { return Err(e) },
        };
        let name = match require_field(header, record, "name") {
            Ok(v) => v,
            Err(e) => { return Err(e) },
        };
        let start_date = match require_field(header, record, "start_date") {
            Ok(v) => v,
            Err(e) => { return Err(e) },
        };
        Ok(Concept { code, name, start_date })
    }
}

/// One margin-trading and short-selling record.
#[derive(Debug, PartialEq)]
pub struct Mtss {
    pub date: String,
    pub sec_code: String,
    pub fin_value: Decimal,
    pub fin_refund_value: Decimal,
    pub sec_value: Decimal,
    pub sec_sell_value: Decimal,
    pub sec_refund_value: Decimal,
    pub fin_sec_value: Decimal,
}

impl CsvRow for Mtss {
    open spec fn row_ok(h: Seq<Seq<char>>, r: Seq<Seq<char>>) -> bool {
        &&& spec_lookup(h, r, "date"@) is Some
        &&& spec_lookup(h, r, "sec_code"@) is Some
        &&& dec_ok(h, r, "fin_value"@)
        &&& dec_ok(h, r, "fin_refund_value"@)
        &&& dec_ok(h, r, "sec_value"@)
        &&& dec_ok(h, r, "sec_sell_value"@)
        &&& dec_ok(h, r, "sec_refund_value"@)
        &&& dec_ok(h, r, "fin_sec_value"@)
    }

    open spec fn row_matches(&self, h: Seq<Seq<char>>, r: Seq<Seq<char>>) -> bool {
        &&& spec_lookup(h, r, "date"@) == Some(self.date@)
        &&& spec_lookup(h, r, "sec_code"@) == Some(self.sec_code@)
        &&& dec_is(&self.fin_value, h, r, "fin_value"@)
        &&& dec_is(&self.fin_refund_value, h, r, "fin_refund_value"@)
        &&& dec_is(&self.sec_value, h, r, "sec_value"@)
        &&& dec_is(&self.sec_sell_value, h, r, "sec_sell_value"@)
        &&& dec_is(&self.sec_refund_value, h, r, "sec_refund_value"@)
        &&& dec_is(&self.fin_sec_value, h, r, "fin_sec_value"@)
    }

    fn decode_row(header: &Vec<String>, record: &Vec<String>) -> (r: Result<Self, Error>) {
        let date = match require_field(header, record, "date") {
            Ok(v) => v,
            Err(e) => { return Err(e) },
        };
        let sec_code = match require_field(header, record, "sec_code") {
            Ok(v) => v,
            Err(e) => { return Err(e) },
        };
        let fin_value = match require_decimal(header, record, "fin_value") {
            Ok(v) => v,
            Err(e) => { return Err(e) },
        };
        let fin_refund_value = match require_decimal(header, record, "fin_refund_value") {
            Ok(v) => v,
            Err(e) => { return Err(e) },
        };
        let sec_value = match require_decimal(header, record, "sec_value") {
            Ok(v) => v,
            Err(e) => { return Err(e) },
        };
        let sec_sell_value = match require_decimal(header, record, "sec_sell_value") {
            Ok(v) => v,
            Err(e) => { return Err(e) },
        };
        let sec_refund_value = match require_decimal(header, record, "sec_refund_value") {
            Ok(v) => v,
            Err(e) => { return Err(e) },
        };
        let fin_sec_value = match require_decimal(header, record, "fin_sec_value") {
            Ok(v) => v,
            Err(e) => { return Err(e) },
        };
        Ok(Mtss { date, sec_code, fin_value, fin_refund_value, sec_value, sec_sell_value, sec_refund_value, fin_sec_value })
    }
}

/// One money-flow record of a security.
#[derive(Debug, PartialEq)]
pub struct MoneyFlow {
    pub date: String,
    pub sec_code: String,
    pub change_pct: Decimal,
    pub net_amount_main: Decimal,
    pub net_pct_main: Decimal,
    pub net_amount_xl: Decimal,
    pub net_pct_xl: Decimal,
    pub net_amount_l: Decimal,
    pub net_pct_l: Decimal,
    pub net_amount_m: Decimal,
    pub net_pct_m: Decimal,
    pub net_amount_s: Decimal,
    pub net_pct_s: Decimal,
}

impl CsvRow for MoneyFlow {
    open spec fn row_ok(h: Seq<Seq<char>>, r: Seq<Seq<char>>) -> bool {
        &&& spec_lookup(h, r, "date"@) is Some
        &&& spec_lookup(h, r, "sec_code"@) is Some
        &&& dec_ok(h, r, "change_pct"@)
        &&& dec_ok(h, r, "net_amount_main"@)
        &&& dec_ok(h, r, "net_pct_main"@)
        &&& dec_ok(h, r, "net_amount_xl"@)
        &&& dec_ok(h, r, "net_pct_xl"@)
        &&& dec_ok(h, r, "net_amount_l"@)
        &&& dec_ok(h, r, "net_pct_l"@)
        &&& dec_ok(h, r, "net_amount_m"@)
        &&& dec_ok(h, r, "net_pct_m"@)
        &&& dec_ok(h, r, "net_amount_s"@)
        &&& dec_ok(h, r, "net_pct_s"@)
    }

    open spec fn row_matches(&self, h: Seq<Seq<char>>, r: Seq<Seq<char>>) -> bool {
        &&& spec_lookup(h, r, "date"@) == Some(self.date@)
        &&& spec_lookup(h, r, "sec_code"@) == Some(self.sec_code@)
        &&& dec_is(&self.change_pct, h, r, "change_pct"@)
        &&& dec_is(&self.net_amount_main, h, r, "net_amount_main"@)
        &&& dec_is(&self.net_pct_main, h, r, "net_pct_main"@)
        &&& dec_is(&self.net_amount_xl, h, r, "net_amount_xl"@)
        &&& dec_is(&self.net_pct_xl, h, r, "net_pct_xl"@)
        &&& dec_is(&self.net_amount_l, h, r, "net_amount_l"@)
        &&& dec_is(&self.net_pct_l, h, r, "net_pct_l"@)
        &&& dec_is(&self.net_amount_m, h, r, "net_amount_m"@)
        &&& dec_is(&self.net_pct_m, h, r, "net_pct_m"@)
        &&& dec_is(&self.net_amount_s, h, r, "net_amount_s"@)
        &&& dec_is(&self.net_pct_s, h, r, "net_pct_s"@)
    }

    fn decode_row(header: &Vec<String>, record: &Vec<String>) -> (r: Result<Self, Error>) {
        let date = match require_field(header, record, "date") {
            Ok(v) => v,
            Err(e) => { return Err(e) },
        };
        let sec_code = match require_field(header, record, "sec_code") {
            Ok(v) => v,
            Err(e) => { return Err(e) },
        };
        let change_pct = match require_decimal(header, record, "change_pct") {
            Ok(v) => v,
            Err(e) => { return Err(e) },
        };
        let net_amount_main = match require_decimal(header, record, "net_amount_main") {
            Ok(v) => v,
            Err(e) => { return Err(e) },
        };
        let net_pct_main = match require_decimal(header, record, "net_pct_main") {
            Ok(v) => v,
            Err(e) => { return Err(e) },
        };
        let net_amount_xl = match require_decimal(header, record, "net_amount_xl") {
            Ok(v) => v,
            Err(e) => { return Err(e) },
        };
        let net_pct_xl = match require_decimal(header, record, "net_pct_xl") {
            Ok(v) => v,
            Err(e) => { return Err(e) },
        };
        let net_amount_l = match require_decimal(header, record, "net_amount_l") {
            Ok(v) => v,
            Err(e) => { return Err(e) },
        };
        let net_pct_l = match require_decimal(header, record, "net_pct_l") {
            Ok(v) => v,
            Err(e) => { return Err(e) },
        };
        let net_amount_m = match require_decimal(header, record, "net_amount_m") {
            Ok(v) => v,
            Err(e) => { return Err(e) },
        };
        let net_pct_m = match require_decimal(header, record, "net_pct_m") {
            Ok(v) => v,
            Err(e) => { return Err(e) },
        };
        let net_amount_s = match require_decimal(header, record, "net_amount_s") {
            Ok(v) => v,
            Err(e) => { return Err(e) },
        };
        let net_pct_s = match require_decimal(header, record, "net_pct_s") {
            Ok(v) => v,
            Err(e) => { return Err(e) },
        };
        Ok(MoneyFlow { date, sec_code, change_pct, net_amount_main, net_pct_main, net_amount_xl, net_pct_xl, net_amount_l, net_pct_l, net_amount_m, net_pct_m, net_amount_s, net_pct_s })
    }
}

/// One billboard (ranking list) entry.
#[derive(Debug, PartialEq)]
pub struct BillboardStock {
    pub code: String,
    pub day: String,
    pub direction: String,
    pub rank: i32,
    pub abnormal_code: String,
    pub abnormal_name: String,
    pub sales_depart_name: String,
    pub buy_value: Decimal,
    pub buy_rate: Decimal,
    pub sell_value: Decimal,
    pub sell_rate: Decimal,
    pub total_value: Decimal,
    pub net_value: Decimal,
    pub amount: Decimal,
}

impl CsvRow for BillboardStock {
    open spec fn row_ok(h: Seq<Seq<char>>, r: Seq<Seq<char>>) -> bool {
        &&& spec_lookup(h, r, "code"@) is Some
        &&& spec_lookup(h, r, "day"@) is Some
        &&& spec_lookup(h, r, "direction"@) is Some
        &&& int_ok(h, r, "rank"@)
        &&& spec_lookup(h, r, "abnormal_code"@) is Some
        &&& spec_lookup(h, r, "abnormal_name"@) is Some
        &&& spec_lookup(h, r, "sales_depart_name"@) is Some
        &&& dec_ok(h, r, "buy_value"@)
        &&& dec_ok(h, r, "buy_rate"@)
        &&& dec_ok(h, r, "sell_value"@)
        &&& dec_ok(h, r, "sell_rate"@)
        &&& dec_ok(h, r, "total_value"@)
        &&& dec_ok(h, r, "net_value"@)
        &&& dec_ok(h, r, "amount"@)
    }

    open spec fn row_matches(&self, h: Seq<Seq<char>>, r: Seq<Seq<char>>) -> bool {
        &&& spec_lookup(h, r, "code"@) == Some(self.code@)
        &&& spec_lookup(h, r, "day"@) == Some(self.day@)
        &&& spec_lookup(h, r, "direction"@) == Some(self.direction@)
        &&& int_is(self.rank, h, r, "rank"@)
        &&& spec_lookup(h, r, "abnormal_code"@) == Some(self.abnormal_code@)
        &&& spec_lookup(h, r, "abnormal_name"@) == Some(self.abnormal_name@)
        &&& spec_lookup(h, r, "sales_depart_name"@) == Some(self.sales_depart_name@)
        &&& dec_is(&self.buy_value, h, r, "buy_value"@)
        &&& dec_is(&self.buy_rate, h, r, "buy_rate"@)
        &&& dec_is(&self.sell_value, h, r, "sell_value"@)
        &&& dec_is(&self.sell_rate, h, r, "sell_rate"@)
        &&& dec_is(&self.total_value, h, r, "total_value"@)
        &&& dec_is(&self.net_value, h, r, "net_value"@)
        &&& dec_is(&self.amount, h, r, "amount"@)
    }

    fn decode_row(header: &Vec<String>, record: &Vec<String>) -> (r: Result<Self, Error>) {
        let code = match require_field(header, record, "code") {
            Ok(v) => v,
            Err(e) => { return Err(e) },
        };
        let day = match require_field(header, record, "day") {
            Ok(v) => v,
            Err(e) => { return Err(e) },
        };
        let direction = match require_field(header, record, "direction") {
            Ok(v) => v,
            Err(e) => { return Err(e) },
        };
        let rank = match require_i32(header, record, "rank") {
            Ok(v) => v,
            Err(e) => { return Err(e) },
        };
        let abnormal_code = match require_field(header, record, "abnormal_code") {
            Ok(v) => v,
            Err(e) => { return Err(e) },
        };
        let abnormal_name = match require_field(header, record, "abnormal_name") {
            Ok(v) => v,
            Err(e) => { return Err(e) },
        };
        let sales_depart_name = match require_field(header, record, "sales_depart_name") {
            Ok(v) => v,
            Err(e) => { return Err(e) },
        };
        let buy_value = match require_decimal(header, record, "buy_value") {
            Ok(v) => v,
            Err(e) => { return Err(e) },
        };
        let buy_rate = match require_decimal(header, record, "buy_rate") {
            Ok(v) => v,
            Err(e) => { return Err(e) },
        };
        let sell_value = match require_decimal(header, record, "sell_value") {
            Ok(v) => v,
            Err(e) => { return Err(e) },
        };
        let sell_rate = match require_decimal(header, record, "sell_rate") {
            Ok(v) => v,
            Err(e) => { return Err(e) },
        };
        let total_value = match require_decimal(header, record, "total_value") {
            Ok(v) => v,
            Err(e) => { return Err(e) },
        };
        let net_value = match require_decimal(header, record, "net_value") {
            Ok(v) => v,
            Err(e) => { return Err(e) },
        };
        let amount = match require_decimal(header, record, "amount") {
            Ok(v) => v,
            Err(e) => { return Err(e) },
        };
        Ok(BillboardStock { code, day, direction, rank, abnormal_code, abnormal_name, sales_depart_name, buy_value, buy_rate, sell_value, sell_rate, total_value, net_value, amount })
    }
}

/// One tick snapshot with five levels of quotes.
#[derive(Debug, PartialEq)]
pub struct Tick {
    pub time: Decimal,
    pub current: Decimal,
    pub high: Decimal,
    pub low: Decimal,
    pub volumn: Decimal,
    pub money: Decimal,
    pub position: Decimal,
    pub a1_v: Decimal,
    pub a2_v: Decimal,
    pub a3_v: Decimal,
    pub a4_v: Decimal,
    pub a5_v: Decimal,
    pub a1_p: Decimal,
    pub a2_p: Decimal,
    pub a3_p: Decimal,
    pub a4_p: Decimal,
    pub a5_p: Decimal,
    pub b1_v: Decimal,
    pub b2_v: Decimal,
    pub b3_v: Decimal,
    pub b4_v: Decimal,
    pub b5_v: Decimal,
    pub b1_p: Decimal,
    pub b2_p: Decimal,
    pub b3_p: Decimal,
    pub b4_p: Decimal,
    pub b5_p: Decimal,
}

impl CsvRow for Tick {
    open spec fn row_ok(h: Seq<Seq<char>>, r: Seq<Seq<char>>) -> bool {
        &&& dec_ok(h, r, "time"@)
        &&& dec_ok(h, r, "current"@)
        &&& dec_ok(h, r, "high"@)
        &&& dec_ok(h, r, "low"@)
        &&& dec_ok(h, r, "volumn"@)
        &&& dec_ok(h, r, "money"@)
        &&& dec_ok(h, r, "position"@)
        &&& dec_ok(h, r, "a1_v"@)
        &&& dec_ok(h, r, "a2_v"@)
        &&& dec_ok(h, r, "a3_v"@)
        &&& dec_ok(h, r, "a4_v"@)
        &&& dec_ok(h, r, "a5_v"@)
        &&& dec_ok(h, r, "a1_p"@)
        &&& dec_ok(h, r, "a2_p"@)
        &&& dec_ok(h, r, "a3_p"@)
        &&& dec_ok(h, r, "a4_p"@)
        &&& dec_ok(h, r, "a5_p"@)
        &&& dec_ok(h, r, "b1_v"@)
        &&& dec_ok(h, r, "b2_v"@)
        &&& dec_ok(h, r, "b3_v"@)
        &&& dec_ok(h, r, "b4_v"@)
        &&& dec_ok(h, r, "b5_v"@)
        &&& dec_ok(h, r, "b1_p"@)
        &&& dec_ok(h, r, "b2_p"@)
        &&& dec_ok(h, r, "b3_p"@)
        &&& dec_ok(h, r, "b4_p"@)
        &&& dec_ok(h, r, "b5_p"@)
    }

    open spec fn row_matches(&self, h: Seq<Seq<char>>, r: Seq<Seq<char>>) -> bool {
        &&& dec_is(&self.time, h, r, "time"@)
        &&& dec_is(&self.current, h, r, "current"@)
        &&& dec_is(&self.high, h, r, "high"@)
        &&& dec_is(&self.low, h, r, "low"@)
        &&& dec_is(&self.volumn, h, r, "volumn"@)
        &&& dec_is(&self.money, h, r, "money"@)
        &&& dec_is(&self.position, h, r, "position"@)
        &&& dec_is(&self.a1_v, h, r, "a1_v"@)
        &&& dec_is(&self.a2_v, h, r, "a2_v"@)
        &&& dec_is(&self.a3_v, h, r, "a3_v"@)
        &&& dec_is(&self.a4_v, h, r, "a4_v"@)
        &&& dec_is(&self.a5_v, h, r, "a5_v"@)
        &&& dec_is(&self.a1_p, h, r, "a1_p"@)
        &&& dec_is(&self.a2_p, h, r, "a2_p"@)
        &&& dec_is(&self.a3_p, h, r, "a3_p"@)
        &&& dec_is(&self.a4_p, h, r, "a4_p"@)
        &&& dec_is(&self.a5_p, h, r, "a5_p"@)
        &&& dec_is(&self.b1_v, h, r, "b1_v"@)
        &&& dec_is(&self.b2_v, h, r, "b2_v"@)
        &&& dec_is(&self.b3_v, h, r, "b3_v"@)
        &&& dec_is(&self.b4_v, h, r, "b4_v"@)
        &&& dec_is(&self.b5_v, h, r, "b5_v"@)
        &&& dec_is(&self.b1_p, h, r, "b1_p"@)
        &&& dec_is(&self.b2_p, h, r, "b2_p"@)
        &&& dec_is(&self.b3_p, h, r, "b3_p"@)
        &&& dec_is(&self.b4_p, h, r, "b4_p"@)
        &&& dec_is(&self.b5_p, h, r, "b5_p"@)
    }

    fn decode_row(header: &Vec<String>, record: &Vec<String>) -> (r: Result<Self, Error>) {
        let time = match require_decimal(header, record, "time") {
            Ok(v) => v,
            Err(e) => { return Err(e) },
        };
        let current = match require_decimal(header, record, "current") {
            Ok(v) => v,
            Err(e) => { return Err(e) },
        };
        let high = match require_decimal(header, record, "high") {
            Ok(v) => v,
            Err(e) => { return Err(e) },
        };
        let low = match require_decimal(header, record, "low") {
            Ok(v) => v,
            Err(e) => { return Err(e) },
        };
        let volumn = match require_decimal(header, record, "volumn") {
            Ok(v) => v,
            Err(e) => { return Err(e) },
        };
        let money = match require_decimal(header, record, "money") {
            Ok(v) => v,
            Err(e) => { return Err(e) },
        };
        let position = match require_decimal(header, record, "position") {
            Ok(v) => v,
            Err(e) => { return Err(e) },
        };
        let a1_v = match require_decimal(header, record, "a1_v") {
            Ok(v) => v,
            Err(e) => { return Err(e) },
        };
        let a2_v = match require_decimal(header, record, "a2_v") {
            Ok(v) => v,
            Err(e) => { return Err(e) },
        };
        let a3_v = match require_decimal(header, record, "a3_v") {
            Ok(v) => v,
            Err(e) => { return Err(e) },
        };
        let a4_v = match require_decimal(header, record, "a4_v") {
            Ok(v) => v,
            Err(e) => { return Err(e) },
        };
        let a5_v = match require_decimal(header, record, "a5_v") {
            Ok(v) => v,
            Err(e) => { return Err(e) },
        };
        let a1_p = match require_decimal(header, record, "a1_p") {
            Ok(v) => v,
            Err(e) => { return Err(e) },
        };
        let a2_p = match require_decimal(header, record, "a2_p") {
            Ok(v) => v,
            Err(e) => { return Err(e) },
        };
        let a3_p = match require_decimal(header, record, "a3_p") {
            Ok(v) => v,
            Err(e) => { return Err(e) },
        };
        let a4_p = match require_decimal(header, record, "a4_p") {
            Ok(v) => v,
            Err(e) => { return Err(e) },
        };
        let a5_p = match require_decimal(header, record, "a5_p") {
            Ok(v) => v,
            Err(e) => { return Err(e) },
        };
        let b1_v = match require_decimal(header, record, "b1_v") {
            Ok(v) => v,
            Err(e) => { return Err(e) },
        };
        let b2_v = match require_decimal(header, record, "b2_v") {
            Ok(v) => v,
            Err(e) => { return Err(e) },
        };
        let b3_v = match require_decimal(header, record, "b3_v") {
            Ok(v) => v,
            Err(e) => { return Err(e) },
        };
        let b4_v = match require_decimal(header, record, "b4_v") {
            Ok(v) => v,
            Err(e) => { return Err(e) },
        };
        let b5_v = match require_decimal(header, record, "b5_v") {
            Ok(v) => v,
            Err(e) => { return Err(e) },
        };
        let b1_p = match require_decimal(header, record, "b1_p") {
            Ok(v) => v,
            Err(e) => { return Err(e) },
        };
        let b2_p = match require_decimal(header, record, "b2_p") {
            Ok(v) => v,
            Err(e) => { return Err(e) },
        };
        let b3_p = match require_decimal(header, record, "b3_p") {
            Ok(v) => v,
            Err(e) => { return Err(e) },
        };
        let b4_p = match require_decimal(header, record, "b4_p") {
            Ok(v) => v,
            Err(e) => { return Err(e) },
        };
        let b5_p = match require_decimal(header, record, "b5_p") {
            Ok(v) => v,
            Err(e) => { return Err(e) },
        };
        Ok(Tick { time, current, high, low, volumn, money, position, a1_v, a2_v, a3_v, a4_v, a5_v, a1_p, a2_p, a3_p, a4_p, a5_p, b1_v, b2_v, b3_v, b4_v, b5_v, b1_p, b2_p, b3_p, b4_p, b5_p })
    }
}

/// Extra per-date figures: fund values, futures settlements.
#[derive(Debug, PartialEq)]
pub struct Extra {
    pub date: String,
    pub is_st: Option<i8>,
    pub acc_net_value: Option<Decimal>,
    pub unit_net_value: Option<Decimal>,
    pub futures_sett_price: Option<Decimal>,
    pub futures_positions: Option<Decimal>,
    pub adj_net_value: Option<Decimal>,
}

impl CsvRow for Extra {
    open spec fn row_ok(h: Seq<Seq<char>>, r: Seq<Seq<char>>) -> bool {
        &&& spec_lookup(h, r, "date"@) is Some
        &&& opt_small_ok(h, r, "is_st"@, -128, 127)
        &&& opt_dec_ok(h, r, "acc_net_value"@)
        &&& opt_dec_ok(h, r, "unit_net_value"@)
        &&& opt_dec_ok(h, r, "futures_sett_price"@)
        &&& opt_dec_ok(h, r, "futures_positions"@)
        &&& opt_dec_ok(h, r, "adj_net_value"@)
    }

    open spec fn row_matches(&self, h: Seq<Seq<char>>, r: Seq<Seq<char>>) -> bool {
        &&& spec_lookup(h, r, "date"@) == Some(self.date@)
        &&& opt_i8_is(&self.is_st, h, r, "is_st"@)
        &&& opt_dec_is(&self.acc_net_value, h, r, "acc_net_value"@)
        &&& opt_dec_is(&self.unit_net_value, h, r, "unit_net_value"@)
        &&& opt_dec_is(&self.futures_sett_price, h, r, "futures_sett_price"@)
        &&& opt_dec_is(&self.futures_positions, h, r, "futures_positions"@)
        &&& opt_dec_is(&self.adj_net_value, h, r, "adj_net_value"@)
    }

    fn decode_row(header: &Vec<String>, record: &Vec<String>) -> (r: Result<Self, Error>) {
        let date = match require_field(header, record, "date") {
            Ok(v) => v,
            Err(e) => { return Err(e) },
        };
        let is_st = match optional_i8(header, record, "is_st") {
            Ok(v) => v,
            Err(e) => { return Err(e) },
        };
        let acc_net_value = match optional_decimal(header, record, "acc_net_value") {
            Ok(v) => v,
            Err(e) => { return Err(e) },
        };
        let unit_net_value = match optional_decimal(header, record, "unit_net_value") {
            Ok(v) => v,
            Err(e) => { return Err(e) },
        };
        let futures_sett_price = match optional_decimal(header, record, "futures_sett_price") {
            Ok(v) => v,
            Err(e) => { return Err(e) },
        };
        let futures_positions = match optional_decimal(header, record, "futures_positions") {
            Ok(v) => v,
            Err(e) => { return Err(e) },
        };
        let adj_net_value = match optional_decimal(header, record, "adj_net_value") {
            Ok(v) => v,
            Err(e) => { return Err(e) },
        };
        Ok(Extra { date, is_st, acc_net_value, unit_net_value, futures_sett_price, futures_positions, adj_net_value })
    }
}

/// One price bar.
#[derive(Debug, PartialEq)]
pub struct Price {
    pub date: String,
    pub open: Decimal,
    pub close: Decimal,
    pub high: Decimal,
    pub low: Decimal,
    pub volume: Decimal,
    pub money: Decimal,
    pub paused: Option<u8>,
    pub high_limit: Option<Decimal>,
    pub low_limit: Option<Decimal>,
    pub avg: Option<Decimal>,
    pub pre_close: Option<Decimal>,
    pub open_interest: Option<Decimal>,
}

impl CsvRow for Price {
    open spec fn row_ok(h: Seq<Seq<char>>, r: Seq<Seq<char>>) -> bool {
        &&& spec_lookup(h, r, "date"@) is Some
        &&& dec_ok(h, r, "open"@)
        &&& dec_ok(h, r, "close"@)
        &&& dec_ok(h, r, "high"@)
        &&& dec_ok(h, r, "low"@)
        &&& dec_ok(h, r, "volume"@)
        &&& dec_ok(h, r, "money"@)
        &&& opt_small_ok(h, r, "paused"@, 0, 255)
        &&& opt_dec_ok(h, r, "high_limit"@)
        &&& opt_dec_ok(h, r, "low_limit"@)
        &&& opt_dec_ok(h, r, "avg"@)
        &&& opt_dec_ok(h, r, "pre_close"@)
        &&& opt_dec_ok(h, r, "open_interest"@)
    }

    open spec fn row_matches(&self, h: Seq<Seq<char>>, r: Seq<Seq<char>>) -> bool {
        &&& spec_lookup(h, r, "date"@) == Some(self.date@)
        &&& dec_is(&self.open, h, r, "open"@)
        &&& dec_is(&self.close, h, r, "close"@)
        &&& dec_is(&self.high, h, r, "high"@)
        &&& dec_is(&self.low, h, r, "low"@)
        &&& dec_is(&self.volume, h, r, "volume"@)
        &&& dec_is(&self.money, h, r, "money"@)
        &&& opt_u8_is(&self.paused, h, r, "paused"@)
        &&& opt_dec_is(&self.high_limit, h, r, "high_limit"@)
        &&& opt_dec_is(&self.low_limit, h, r, "low_limit"@)
        &&& opt_dec_is(&self.avg, h, r, "avg"@)
        &&& opt_dec_is(&self.pre_close, h, r, "pre_close"@)
        &&& opt_dec_is(&self.open_interest, h, r, "open_interest"@)
    }

    fn decode_row(header: &Vec<String>, record: &Vec<String>) -> (r: Result<Self, Error>) {
        let date = match require_field(header, record, "date") {
            Ok(v) => v,
            Err(e) => { return Err(e) },
        };
        let open = match require_decimal(header, record, "open") {
            Ok(v) => v,
            Err(e) => { return Err(e) },
        };
        let close = match require_decimal(header, record, "close") {
            Ok(v) => v,
            Err(e) => { return Err(e) },
        };
        let high = match require_decimal(header, record, "high") {
            Ok(v) => v,
            Err(e) => { return Err(e) },
        };
        let low = match require_decimal(header, record, "low") {
            Ok(v) => v,
            Err(e) => { return Err(e) },
        };
        let volume = match require_decimal(header, record, "volume") {
            Ok(v) => v,
            Err(e) => { return Err(e) },
        };
        let money = match require_decimal(header, record, "money") {
            Ok(v) => v,
            Err(e) => { return Err(e) },
        };
        let paused = match optional_u8(header, record, "paused") {
            Ok(v) => v,
            Err(e) => { return Err(e) },
        };
        let high_limit = match optional_decimal(header, record, "high_limit") {
            Ok(v) => v,
            Err(e) => { return Err(e) },
        };
        let low_limit = match optional_decimal(header, record, "low_limit") {
            Ok(v) => v,
            Err(e) => { return Err(e) },
        };
        let avg = match optional_decimal(header, record, "avg") {
            Ok(v) => v,
            Err(e) => { return Err(e) },
        };
        let pre_close = match optional_decimal(header, record, "pre_close") {
            Ok(v) => v,
            Err(e) => { return Err(e) },
        };
        let open_interest = match optional_decimal(header, record, "open_interest") {
            Ok(v) => v,
            Err(e) => { return Err(e) },
        };
        Ok(Price { date, open, close, high, low, volume, money, paused, high_limit, low_limit, avg, pre_close, open_interest })
    }
}

/// One factor-value record.
#[derive(Debug, PartialEq)]
pub struct FactorValue {
    pub date: String,
    pub cfo_to_ev: Option<Decimal>,
    pub net_profit_ratio: Option<Decimal>,
}

impl CsvRow for FactorValue {
    open spec fn row_ok(h: Seq<Seq<char>>, r: Seq<Seq<char>>) -> bool {
        &&& spec_lookup(h, r, "date"@) is Some
        &&& opt_dec_ok(h, r, "cfo_to_ev"@)
        &&& opt_dec_ok(h, r, "net_profit_ratio"@)
    }

    open spec fn row_matches(&self, h: Seq<Seq<char>>, r: Seq<Seq<char>>) -> bool {
        &&& spec_lookup(h, r, "date"@) == Some(self.date@)
        &&& opt_dec_is(&self.cfo_to_ev, h, r, "cfo_to_ev"@)
        &&& opt_dec_is(&self.net_profit_ratio, h, r, "net_profit_ratio"@)
    }

    fn decode_row(header: &Vec<String>, record: &Vec<String>) -> (r: Result<Self, Error>) {
        let date = match require_field(header, record, "date") {
            Ok(v) => v,
            Err(e) => { return Err(e) },
        };
        let cfo_to_ev = match optional_decimal(header, record, "cfo_to_ev") {
            Ok(v) => v,
            Err(e) => { return Err(e) },
        };
        let net_profit_ratio = match optional_decimal(header, record, "net_profit_ratio") {
            Ok(v) => v,
            Err(e) => { return Err(e) },
        };
        Ok(FactorValue { date, cfo_to_ev, net_profit_ratio })
    }
}

/// The profile of one fund, as the JSON format carries it.
#[derive(Debug, PartialEq)]
pub struct FundInfo {
    pub fund_name: String,
    pub fund_type: String,
    pub fund_establishment_day: String,
    pub fund_manager: String,
    pub fund_management_fee: String,
    pub fund_custodian_fee: String,
    pub fund_status: String,
    pub fund_size: String,
    pub fund_share: Decimal,
    pub fund_asset_allocation_proportion: String,
    pub heavy_hold_stocks: Vec<String>,
    pub heavy_hold_stocks_proportion: Decimal,
    pub heavy_hold_bond: Vec<String>,
    pub heavy_hold_bond_proportion: Decimal,
}

} // verus!
