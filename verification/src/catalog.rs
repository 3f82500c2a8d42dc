//! The catalog of operations the remote service offers.
//!
//! Every command here is pure data plus its descriptor: the wire method
//! name, the command fields that flow into the envelope, and the response
//! format with its decoding contract. The set is closed; adding an
//! operation is a deliberate, rare change.

use vstd::prelude::*;
use crate::consume::consume_csv;
use crate::consume::consume_json;
use crate::consume::consume_line;
use crate::consume::consume_single;
use crate::consume::csv_ok;
use crate::consume::ResponseFormat;
use crate::envelope::pair_views;
use crate::envelope::FieldV;
use crate::envelope::FieldValue;
use crate::error::Error;
use crate::model::csv_matches;
use crate::model::csv_server_err;
use crate::model::csv_server_msg;
use crate::model::HasMethod;
use crate::model::Request;
use crate::model::Response;
use crate::model::Security;
use crate::num::spec_parse_i32;
use crate::rows::BillboardStock;
use crate::rows::Concept;
use crate::rows::Extra;
use crate::rows::FactorValue;
use crate::rows::Industry;
use crate::rows::IndustryIndex;
use crate::rows::IndexWeight;
use crate::rows::LockedShare;
use crate::rows::MoneyFlow;
use crate::rows::Mtss;
use crate::rows::Price;
use crate::rows::Tick;
use crate::text::error_prefix;
use crate::text::spec_lines;
use crate::text::starts_with;
use crate::text::str_views;

verus! {

/// Information of one security.
#[derive(Debug)]
pub struct GetSecurityInfo {
    pub code: String,
}

impl HasMethod for GetSecurityInfo {
    open spec fn spec_method(&self) -> Seq<char> {
        "get_security_info"@
    }

    fn method(&self) -> (m: String) {
        String::from_str("get_security_info")
    }
}

impl Request for GetSecurityInfo {
    open spec fn spec_payload(&self) -> Seq<(Seq<char>, FieldV)> {
        seq![("code"@, FieldV::Str(self.code@))]
    }

    fn fields(&self) -> (f: Vec<(String, FieldValue)>) {
        let mut f: Vec<(String, FieldValue)> = Vec::new();
        f.push((String::from_str("code"), FieldValue::Str(self.code.clone())));
        proof {
            assert(pair_views(f@) =~= self.spec_payload());
        }
        f
    }
}

impl Response for GetSecurityInfo {
    type Output = Vec<Security>;

    open spec fn spec_format() -> ResponseFormat {
        ResponseFormat::Tabular
    }

    open spec fn resp_ok(body: Seq<char>) -> bool {
        csv_ok::<Security>(body)
    }

    open spec fn resp_server_err(body: Seq<char>) -> bool {
        csv_server_err(body)
    }

    open spec fn resp_server_msg(body: Seq<char>) -> Seq<char> {
        csv_server_msg(body)
    }

    open spec fn resp_matches(out: &Vec<Security>, body: Seq<char>) -> bool {
        csv_matches(out@, body)
    }

    fn format(&self) -> (f: ResponseFormat) {
        ResponseFormat::Tabular
    }

    fn response(&self, body: &str) -> (r: Result<Vec<Security>, Error>) {
        consume_csv::<Security>(body)
    }
}

/// Constituents of an index tradable at a date.
#[derive(Debug)]
pub struct GetIndexStocks {
    pub code: String,
    pub date: String,
}

impl HasMethod for GetIndexStocks {
    open spec fn spec_method(&self) -> Seq<char> {
        "get_index_stocks"@
    }

    fn method(&self) -> (m: String) {
        String::from_str("get_index_stocks")
    }
}

impl Request for GetIndexStocks {
    open spec fn spec_payload(&self) -> Seq<(Seq<char>, FieldV)> {
        seq![("code"@, FieldV::Str(self.code@)), ("date"@, FieldV::Str(self.date@))]
    }

    fn fields(&self) -> (f: Vec<(String, FieldValue)>) {
        let mut f: Vec<(String, FieldValue)> = Vec::new();
        f.push((String::from_str("code"), FieldValue::Str(self.code.clone())));
        f.push((String::from_str("date"), FieldValue::Str(self.date.clone())));
        proof {
            assert(pair_views(f@) =~= self.spec_payload());
        }
        f
    }
}

impl Response for GetIndexStocks {
    type Output = Vec<String>;

    open spec fn spec_format() -> ResponseFormat {
        ResponseFormat::LineList
    }

    open spec fn resp_ok(body: Seq<char>) -> bool {
        true
    }

    open spec fn resp_server_err(body: Seq<char>) -> bool {
        false
    }

    open spec fn resp_server_msg(body: Seq<char>) -> Seq<char> {
        Seq::<char>::empty()
    }

    open spec fn resp_matches(out: &Vec<String>, body: Seq<char>) -> bool {
        str_views(out@) == spec_lines(body)
    }

    fn format(&self) -> (f: ResponseFormat) {
        ResponseFormat::LineList
    }

    fn response(&self, body: &str) -> (r: Result<Vec<String>, Error>) {
        Ok(consume_line(body))
    }
}

/// Securities eligible for margin cash trading at a date.
#[derive(Debug)]
pub struct GetMargincashStocks {
    pub date: Option<String>,
}

impl HasMethod for GetMargincashStocks {
    open spec fn spec_method(&self) -> Seq<char> {
        "get_margincash_stocks"@
    }

    fn method(&self) -> (m: String) {
        String::from_str("get_margincash_stocks")
    }
}

impl Request for GetMargincashStocks {
    open spec fn spec_payload(&self) -> Seq<(Seq<char>, FieldV)> {
        Seq::<(Seq<char>, FieldV)>::empty() + (match self.date {
            Some(v) => seq![("date"@, FieldV::Str(v@))],
            None => Seq::<(Seq<char>, FieldV)>::empty(),
        })
    }

    fn fields(&self) -> (f: Vec<(String, FieldValue)>) {
        let mut f: Vec<(String, FieldValue)> = Vec::new();
        match &self.date {
            Some(v) => {
                f.push((String::from_str("date"), FieldValue::Str(v.clone())));
            },
            None => {},
        }
        proof {
            assert(pair_views(f@) =~= self.spec_payload());
        }
        f
    }
}

impl Response for GetMargincashStocks {
    type Output = Vec<String>;

    open spec fn spec_format() -> ResponseFormat {
        ResponseFormat::LineList
    }

    open spec fn resp_ok(body: Seq<char>) -> bool {
        true
    }

    open spec fn resp_server_err(body: Seq<char>) -> bool {
        false
    }

    open spec fn resp_server_msg(body: Seq<char>) -> Seq<char> {
        Seq::<char>::empty()
    }

    open spec fn resp_matches(out: &Vec<String>, body: Seq<char>) -> bool {
        str_views(out@) == spec_lines(body)
    }

    fn format(&self) -> (f: ResponseFormat) {
        ResponseFormat::LineList
    }

    fn response(&self, body: &str) -> (r: Result<Vec<String>, Error>) {
        Ok(consume_line(body))
    }
}

/// Lock-up share releases over a date range.
#[derive(Debug)]
pub struct GetLockedShares {
    pub code: String,
    pub date: String,
    pub end_date: String,
}

impl HasMethod for GetLockedShares {
    open spec fn spec_method(&self) -> Seq<char> {
        "get_locked_shares"@
    }

    fn method(&self) -> (m: String) {
        String::from_str("get_locked_shares")
    }
}

impl Request for GetLockedShares {
    open spec fn spec_payload(&self) -> Seq<(Seq<char>, FieldV)> {
        seq![("code"@, FieldV::Str(self.code@)), ("date"@, FieldV::Str(self.date@)), ("end_date"@, FieldV::Str(self.end_date@))]
    }

    fn fields(&self) -> (f: Vec<(String, FieldValue)>) {
        let mut f: Vec<(String, FieldValue)> = Vec::new();
        f.push((String::from_str("code"), FieldValue::Str(self.code.clone())));
        f.push((String::from_str("date"), FieldValue::Str(self.date.clone())));
        f.push((String::from_str("end_date"), FieldValue::Str(self.end_date.clone())));
        proof {
            assert(pair_views(f@) =~= self.spec_payload());
        }
        f
    }
}

impl Response for GetLockedShares {
    type Output = Vec<LockedShare>;

    open spec fn spec_format() -> ResponseFormat {
        ResponseFormat::Tabular
    }

    open spec fn resp_ok(body: Seq<char>) -> bool {
        csv_ok::<LockedShare>(body)
    }

    open spec fn resp_server_err(body: Seq<char>) -> bool {
        csv_server_err(body)
    }

    open spec fn resp_server_msg(body: Seq<char>) -> Seq<char> {
        csv_server_msg(body)
    }

    open spec fn resp_matches(out: &Vec<LockedShare>, body: Seq<char>) -> bool {
        csv_matches(out@, body)
    }

    fn format(&self) -> (f: ResponseFormat) {
        ResponseFormat::Tabular
    }

    fn response(&self, body: &str) -> (r: Result<Vec<LockedShare>, Error>) {
        consume_csv::<LockedShare>(body)
    }
}

/// Weights of an index's constituents at a date.
#[derive(Debug)]
pub struct GetIndexWeights {
    pub code: String,
    pub date: String,
}

impl HasMethod for GetIndexWeights {
    open spec fn spec_method(&self) -> Seq<char> {
        "get_index_weights"@
    }

    fn method(&self) -> (m: String) {
        String::from_str("get_index_weights")
    }
}

impl Request for GetIndexWeights {
    open spec fn spec_payload(&self) -> Seq<(Seq<char>, FieldV)> {
        seq![("code"@, FieldV::Str(self.code@)), ("date"@, FieldV::Str(self.date@))]
    }

    fn fields(&self) -> (f: Vec<(String, FieldValue)>) {
        let mut f: Vec<(String, FieldValue)> = Vec::new();
        f.push((String::from_str("code"), FieldValue::Str(self.code.clone())));
        f.push((String::from_str("date"), FieldValue::Str(self.date.clone())));
        proof {
            assert(pair_views(f@) =~= self.spec_payload());
        }
        f
    }
}

impl Response for GetIndexWeights {
    type Output = Vec<IndexWeight>;

    open spec fn spec_format() -> ResponseFormat {
        ResponseFormat::Tabular
    }

    open spec fn resp_ok(body: Seq<char>) -> bool {
        csv_ok::<IndexWeight>(body)
    }

    open spec fn resp_server_err(body: Seq<char>) -> bool {
        csv_server_err(body)
    }

    open spec fn resp_server_msg(body: Seq<char>) -> Seq<char> {
        csv_server_msg(body)
    }

    open spec fn resp_matches(out: &Vec<IndexWeight>, body: Seq<char>) -> bool {
        csv_matches(out@, body)
    }

    fn format(&self) -> (f: ResponseFormat) {
        ResponseFormat::Tabular
    }

    fn response(&self, body: &str) -> (r: Result<Vec<IndexWeight>, Error>) {
        consume_csv::<IndexWeight>(body)
    }
}

/// Industries of one classification scheme.
#[derive(Debug)]
pub struct GetIndustries {
    pub code: String,
}

impl HasMethod for GetIndustries {
    open spec fn spec_method(&self) -> Seq<char> {
        "get_industries"@
    }

    fn method(&self) -> (m: String) {
        String::from_str("get_industries")
    }
}

impl Request for GetIndustries {
    open spec fn spec_payload(&self) -> Seq<(Seq<char>, FieldV)> {
        seq![("code"@, FieldV::Str(self.code@))]
    }

    fn fields(&self) -> (f: Vec<(String, FieldValue)>) {
        let mut f: Vec<(String, FieldValue)> = Vec::new();
        f.push((String::from_str("code"), FieldValue::Str(self.code.clone())));
        proof {
            assert(pair_views(f@) =~= self.spec_payload());
        }
        f
    }
}

impl Response for GetIndustries {
    type Output = Vec<IndustryIndex>;

    open spec fn spec_format() -> ResponseFormat {
        ResponseFormat::Tabular
    }

    open spec fn resp_ok(body: Seq<char>) -> bool {
        csv_ok::<IndustryIndex>(body)
    }

    open spec fn resp_server_err(body: Seq<char>) -> bool {
        csv_server_err(body)
    }

    open spec fn resp_server_msg(body: Seq<char>) -> Seq<char> {
        csv_server_msg(body)
    }

    open spec fn resp_matches(out: &Vec<IndustryIndex>, body: Seq<char>) -> bool {
        csv_matches(out@, body)
    }

    fn format(&self) -> (f: ResponseFormat) {
        ResponseFormat::Tabular
    }

    fn response(&self, body: &str) -> (r: Result<Vec<IndustryIndex>, Error>) {
        consume_csv::<IndustryIndex>(body)
    }
}

/// The industries one security belongs to at a date.
#[derive(Debug)]
pub struct GetIndustry {
    pub code: String,
    pub date: String,
}

impl HasMethod for GetIndustry {
    open spec fn spec_method(&self) -> Seq<char> {
        "get_industry"@
    }

    fn method(&self) -> (m: String) {
        String::from_str("get_industry")
    }
}

impl Request for GetIndustry {
    open spec fn spec_payload(&self) -> Seq<(Seq<char>, FieldV)> {
        seq![("code"@, FieldV::Str(self.code@)), ("date"@, FieldV::Str(self.date@))]
    }

    fn fields(&self) -> (f: Vec<(String, FieldValue)>) {
        let mut f: Vec<(String, FieldValue)> = Vec::new();
        f.push((String::from_str("code"), FieldValue::Str(self.code.clone())));
        f.push((String::from_str("date"), FieldValue::Str(self.date.clone())));
        proof {
            assert(pair_views(f@) =~= self.spec_payload());
        }
        f
    }
}

impl Response for GetIndustry {
    type Output = Vec<Industry>;

    open spec fn spec_format() -> ResponseFormat {
        ResponseFormat::Tabular
    }

    open spec fn resp_ok(body: Seq<char>) -> bool {
        csv_ok::<Industry>(body)
    }

    open spec fn resp_server_err(body: Seq<char>) -> bool {
        csv_server_err(body)
    }

    open spec fn resp_server_msg(body: Seq<char>) -> Seq<char> {
        csv_server_msg(body)
    }

    open spec fn resp_matches(out: &Vec<Industry>, body: Seq<char>) -> bool {
        csv_matches(out@, body)
    }

    fn format(&self) -> (f: ResponseFormat) {
        ResponseFormat::Tabular
    }

    fn response(&self, body: &str) -> (r: Result<Vec<Industry>, Error>) {
        consume_csv::<Industry>(body)
    }
}

/// Securities of one industry at a date.
#[derive(Debug)]
pub struct GetIndustryStocks {
    pub code: String,
    pub date: String,
}

impl HasMethod for GetIndustryStocks {
    open spec fn spec_method(&self) -> Seq<char> {
        "get_industry_stocks"@
    }

    fn method(&self) -> (m: String) {
        String::from_str("get_industry_stocks")
    }
}

impl Request for GetIndustryStocks {
    open spec fn spec_payload(&self) -> Seq<(Seq<char>, FieldV)> {
        seq![("code"@, FieldV::Str(self.code@)), ("date"@, FieldV::Str(self.date@))]
    }

    fn fields(&self) -> (f: Vec<(String, FieldValue)>) {
        let mut f: Vec<(String, FieldValue)> = Vec::new();
        f.push((String::from_str("code"), FieldValue::Str(self.code.clone())));
        f.push((String::from_str("date"), FieldValue::Str(self.date.clone())));
        proof {
            assert(pair_views(f@) =~= self.spec_payload());
        }
        f
    }
}

impl Response for GetIndustryStocks {
    type Output = Vec<String>;

    open spec fn spec_format() -> ResponseFormat {
        ResponseFormat::LineList
    }

    open spec fn resp_ok(body: Seq<char>) -> bool {
        true
    }

    open spec fn resp_server_err(body: Seq<char>) -> bool {
        false
    }

    open spec fn resp_server_msg(body: Seq<char>) -> Seq<char> {
        Seq::<char>::empty()
    }

    open spec fn resp_matches(out: &Vec<String>, body: Seq<char>) -> bool {
        str_views(out@) == spec_lines(body)
    }

    fn format(&self) -> (f: ResponseFormat) {
        ResponseFormat::LineList
    }

    fn response(&self, body: &str) -> (r: Result<Vec<String>, Error>) {
        Ok(consume_line(body))
    }
}

/// All concept boards.
#[derive(Debug)]
pub struct GetConcepts {}

impl HasMethod for GetConcepts {
    open spec fn spec_method(&self) -> Seq<char> {
        "get_concepts"@
    }

    fn method(&self) -> (m: String) {
        String::from_str("get_concepts")
    }
}

impl Request for GetConcepts {
    open spec fn spec_payload(&self) -> Seq<(Seq<char>, FieldV)> {
        Seq::<(Seq<char>, FieldV)>::empty()
    }

    fn fields(&self) -> (f: Vec<(String, FieldValue)>) {
        let mut f: Vec<(String, FieldValue)> = Vec::new();
        proof {
            assert(pair_views(f@) =~= self.spec_payload());
        }
        f
    }
}

impl Response for GetConcepts {
    type Output = Vec<Concept>;

    open spec fn spec_format() -> ResponseFormat {
        ResponseFormat::Tabular
    }

    open spec fn resp_ok(body: Seq<char>) -> bool {
        csv_ok::<Concept>(body)
    }

    open spec fn resp_server_err(body: Seq<char>) -> bool {
        csv_server_err(body)
    }

    open spec fn resp_server_msg(body: Seq<char>) -> Seq<char> {
        csv_server_msg(body)
    }

    open spec fn resp_matches(out: &Vec<Concept>, body: Seq<char>) -> bool {
        csv_matches(out@, body)
    }

    fn format(&self) -> (f: ResponseFormat) {
        ResponseFormat::Tabular
    }

    fn response(&self, body: &str) -> (r: Result<Vec<Concept>, Error>) {
        consume_csv::<Concept>(body)
    }
}

/// Securities of one concept board at a date.
#[derive(Debug)]
pub struct GetConceptStocks {
    pub code: String,
    pub date: String,
}

impl HasMethod for GetConceptStocks {
    open spec fn spec_method(&self) -> Seq<char> {
        "get_concept_stocks"@
    }

    fn method(&self) -> (m: String) {
        String::from_str("get_concept_stocks")
    }
}

impl Request for GetConceptStocks {
    open spec fn spec_payload(&self) -> Seq<(Seq<char>, FieldV)> {
        seq![("code"@, FieldV::Str(self.code@)), ("date"@, FieldV::Str(self.date@))]
    }

    fn fields(&self) -> (f: Vec<(String, FieldValue)>) {
        let mut f: Vec<(String, FieldValue)> = Vec::new();
        f.push((String::from_str("code"), FieldValue::Str(self.code.clone())));
        f.push((String::from_str("date"), FieldValue::Str(self.date.clone())));
        proof {
            assert(pair_views(f@) =~= self.spec_payload());
        }
        f
    }
}

impl Response for GetConceptStocks {
    type Output = Vec<String>;

    open spec fn spec_format() -> ResponseFormat {
        ResponseFormat::LineList
    }

    open spec fn resp_ok(body: Seq<char>) -> bool {
        true
    }

    open spec fn resp_server_err(body: Seq<char>) -> bool {
        false
    }

    open spec fn resp_server_msg(body: Seq<char>) -> Seq<char> {
        Seq::<char>::empty()
    }

    open spec fn resp_matches(out: &Vec<String>, body: Seq<char>) -> bool {
        str_views(out@) == spec_lines(body)
    }

    fn format(&self) -> (f: ResponseFormat) {
        ResponseFormat::LineList
    }

    fn response(&self, body: &str) -> (r: Result<Vec<String>, Error>) {
        Ok(consume_line(body))
    }
}

/// Trade days within a date range.
#[derive(Debug)]
pub struct GetTradeDays {
    pub date: String,
    pub end_date: Option<String>,
}

impl HasMethod for GetTradeDays {
    open spec fn spec_method(&self) -> Seq<char> {
        "get_trade_days"@
    }

    fn method(&self) -> (m: String) {
        String::from_str("get_trade_days")
    }
}

impl Request for GetTradeDays {
    open spec fn spec_payload(&self) -> Seq<(Seq<char>, FieldV)> {
        seq![("date"@, FieldV::Str(self.date@))] + (match self.end_date {
            Some(v) => seq![("end_date"@, FieldV::Str(v@))],
            None => Seq::<(Seq<char>, FieldV)>::empty(),
        })
    }

    fn fields(&self) -> (f: Vec<(String, FieldValue)>) {
        let mut f: Vec<(String, FieldValue)> = Vec::new();
        f.push((String::from_str("date"), FieldValue::Str(self.date.clone())));
        match &self.end_date {
            Some(v) => {
                f.push((String::from_str("end_date"), FieldValue::Str(v.clone())));
            },
            None => {},
        }
        proof {
            assert(pair_views(f@) =~= self.spec_payload());
        }
        f
    }
}

impl Response for GetTradeDays {
    type Output = Vec<String>;

    open spec fn spec_format() -> ResponseFormat {
        ResponseFormat::LineList
    }

    open spec fn resp_ok(body: Seq<char>) -> bool {
        true
    }

    open spec fn resp_server_err(body: Seq<char>) -> bool {
        false
    }

    open spec fn resp_server_msg(body: Seq<char>) -> Seq<char> {
        Seq::<char>::empty()
    }

    open spec fn resp_matches(out: &Vec<String>, body: Seq<char>) -> bool {
        str_views(out@) == spec_lines(body)
    }

    fn format(&self) -> (f: ResponseFormat) {
        ResponseFormat::LineList
    }

    fn response(&self, body: &str) -> (r: Result<Vec<String>, Error>) {
        Ok(consume_line(body))
    }
}

/// All trade days known to the platform.
#[derive(Debug)]
pub struct GetAllTradeDays {}

impl HasMethod for GetAllTradeDays {
    open spec fn spec_method(&self) -> Seq<char> {
        "get_all_trade_days"@
    }

    fn method(&self) -> (m: String) {
        String::from_str("get_all_trade_days")
    }
}

impl Request for GetAllTradeDays {
    open spec fn spec_payload(&self) -> Seq<(Seq<char>, FieldV)> {
        Seq::<(Seq<char>, FieldV)>::empty()
    }

    fn fields(&self) -> (f: Vec<(String, FieldValue)>) {
        let mut f: Vec<(String, FieldValue)> = Vec::new();
        proof {
            assert(pair_views(f@) =~= self.spec_payload());
        }
        f
    }
}

impl Response for GetAllTradeDays {
    type Output = Vec<String>;

    open spec fn spec_format() -> ResponseFormat {
        ResponseFormat::LineList
    }

    open spec fn resp_ok(body: Seq<char>) -> bool {
        true
    }

    open spec fn resp_server_err(body: Seq<char>) -> bool {
        false
    }

    open spec fn resp_server_msg(body: Seq<char>) -> Seq<char> {
        Seq::<char>::empty()
    }

    open spec fn resp_matches(out: &Vec<String>, body: Seq<char>) -> bool {
        str_views(out@) == spec_lines(body)
    }

    fn format(&self) -> (f: ResponseFormat) {
        ResponseFormat::LineList
    }

    fn response(&self, body: &str) -> (r: Result<Vec<String>, Error>) {
        Ok(consume_line(body))
    }
}

/// Margin-trading records of a security over a range.
#[derive(Debug)]
pub struct GetMtss {
    pub code: String,
    pub date: String,
    pub end_date: String,
}

impl HasMethod for GetMtss {
    open spec fn spec_method(&self) -> Seq<char> {
        "get_mtss"@
    }

    fn method(&self) -> (m: String) {
        String::from_str("get_mtss")
    }
}

impl Request for GetMtss {
    open spec fn spec_payload(&self) -> Seq<(Seq<char>, FieldV)> {
        seq![("code"@, FieldV::Str(self.code@)), ("date"@, FieldV::Str(self.date@)), ("end_date"@, FieldV::Str(self.end_date@))]
    }

    fn fields(&self) -> (f: Vec<(String, FieldValue)>) {
        let mut f: Vec<(String, FieldValue)> = Vec::new();
        f.push((String::from_str("code"), FieldValue::Str(self.code.clone())));
        f.push((String::from_str("date"), FieldValue::Str(self.date.clone())));
        f.push((String::from_str("end_date"), FieldValue::Str(self.end_date.clone())));
        proof {
            assert(pair_views(f@) =~= self.spec_payload());
        }
        f
    }
}

impl Response for GetMtss {
    type Output = Vec<Mtss>;

    open spec fn spec_format() -> ResponseFormat {
        ResponseFormat::Tabular
    }

    open spec fn resp_ok(body: Seq<char>) -> bool {
        csv_ok::<Mtss>(body)
    }

    open spec fn resp_server_err(body: Seq<char>) -> bool {
        csv_server_err(body)
    }

    open spec fn resp_server_msg(body: Seq<char>) -> Seq<char> {
        csv_server_msg(body)
    }

    open spec fn resp_matches(out: &Vec<Mtss>, body: Seq<char>) -> bool {
        csv_matches(out@, body)
    }

    fn format(&self) -> (f: ResponseFormat) {
        ResponseFormat::Tabular
    }

    fn response(&self, body: &str) -> (r: Result<Vec<Mtss>, Error>) {
        consume_csv::<Mtss>(body)
    }
}

/// Money-flow records of a stock over a range.
#[derive(Debug)]
pub struct GetMoneyFlow {
    pub code: String,
    pub date: String,
    pub end_date: String,
}

impl HasMethod for GetMoneyFlow {
    open spec fn spec_method(&self) -> Seq<char> {
        "get_money_flow"@
    }

    fn method(&self) -> (m: String) {
        String::from_str("get_money_flow")
    }
}

impl Request for GetMoneyFlow {
    open spec fn spec_payload(&self) -> Seq<(Seq<char>, FieldV)> {
        seq![("code"@, FieldV::Str(self.code@)), ("date"@, FieldV::Str(self.date@)), ("end_date"@, FieldV::Str(self.end_date@))]
    }

    fn fields(&self) -> (f: Vec<(String, FieldValue)>) {
        let mut f: Vec<(String, FieldValue)> = Vec::new();
        f.push((String::from_str("code"), FieldValue::Str(self.code.clone())));
        f.push((String::from_str("date"), FieldValue::Str(self.date.clone())));
        f.push((String::from_str("end_date"), FieldValue::Str(self.end_date.clone())));
        proof {
            assert(pair_views(f@) =~= self.spec_payload());
        }
        f
    }
}

impl Response for GetMoneyFlow {
    type Output = Vec<MoneyFlow>;

    open spec fn spec_format() -> ResponseFormat {
        ResponseFormat::Tabular
    }

    open spec fn resp_ok(body: Seq<char>) -> bool {
        csv_ok::<MoneyFlow>(body)
    }

    open spec fn resp_server_err(body: Seq<char>) -> bool {
        csv_server_err(body)
    }

    open spec fn resp_server_msg(body: Seq<char>) -> Seq<char> {
        csv_server_msg(body)
    }

    open spec fn resp_matches(out: &Vec<MoneyFlow>, body: Seq<char>) -> bool {
        csv_matches(out@, body)
    }

    fn format(&self) -> (f: ResponseFormat) {
        ResponseFormat::Tabular
    }

    fn response(&self, body: &str) -> (r: Result<Vec<MoneyFlow>, Error>) {
        consume_csv::<MoneyFlow>(body)
    }
}

/// Billboard entries over a date range.
#[derive(Debug)]
pub struct GetBillboardList {
    pub code: String,
    pub date: String,
    pub end_date: String,
}

impl HasMethod for GetBillboardList {
    open spec fn spec_method(&self) -> Seq<char> {
        "get_billboard_list"@
    }

    fn method(&self) -> (m: String) {
        String::from_str("get_billboard_list")
    }
}

impl Request for GetBillboardList {
    open spec fn spec_payload(&self) -> Seq<(Seq<char>, FieldV)> {
        seq![("code"@, FieldV::Str(self.code@)), ("date"@, FieldV::Str(self.date@)), ("end_date"@, FieldV::Str(self.end_date@))]
    }

    fn fields(&self) -> (f: Vec<(String, FieldValue)>) {
        let mut f: Vec<(String, FieldValue)> = Vec::new();
        f.push((String::from_str("code"), FieldValue::Str(self.code.clone())));
        f.push((String::from_str("date"), FieldValue::Str(self.date.clone())));
        f.push((String::from_str("end_date"), FieldValue::Str(self.end_date.clone())));
        proof {
            assert(pair_views(f@) =~= self.spec_payload());
        }
        f
    }
}

impl Response for GetBillboardList {
    type Output = Vec<BillboardStock>;

    open spec fn spec_format() -> ResponseFormat {
        ResponseFormat::Tabular
    }

    open spec fn resp_ok(body: Seq<char>) -> bool {
        csv_ok::<BillboardStock>(body)
    }

    open spec fn resp_server_err(body: Seq<char>) -> bool {
        csv_server_err(body)
    }

    open spec fn resp_server_msg(body: Seq<char>) -> Seq<char> {
        csv_server_msg(body)
    }

    open spec fn resp_matches(out: &Vec<BillboardStock>, body: Seq<char>) -> bool {
        csv_matches(out@, body)
    }

    fn format(&self) -> (f: ResponseFormat) {
        ResponseFormat::Tabular
    }

    fn response(&self, body: &str) -> (r: Result<Vec<BillboardStock>, Error>) {
        consume_csv::<BillboardStock>(body)
    }
}

/// Tradable contracts of a futures product at a date.
#[derive(Debug)]
pub struct GetFutureContracts {
    pub code: String,
    pub date: String,
}

impl HasMethod for GetFutureContracts {
    open spec fn spec_method(&self) -> Seq<char> {
        "get_future_contracts"@
    }

    fn method(&self) -> (m: String) {
        String::from_str("get_future_contracts")
    }
}

impl Request for GetFutureContracts {
    open spec fn spec_payload(&self) -> Seq<(Seq<char>, FieldV)> {
        seq![("code"@, FieldV::Str(self.code@)), ("date"@, FieldV::Str(self.date@))]
    }

    fn fields(&self) -> (f: Vec<(String, FieldValue)>) {
        let mut f: Vec<(String, FieldValue)> = Vec::new();
        f.push((String::from_str("code"), FieldValue::Str(self.code.clone())));
        f.push((String::from_str("date"), FieldValue::Str(self.date.clone())));
        proof {
            assert(pair_views(f@) =~= self.spec_payload());
        }
        f
    }
}

impl Response for GetFutureContracts {
    type Output = Vec<String>;

    open spec fn spec_format() -> ResponseFormat {
        ResponseFormat::LineList
    }

    open spec fn resp_ok(body: Seq<char>) -> bool {
        true
    }

    open spec fn resp_server_err(body: Seq<char>) -> bool {
        false
    }

    open spec fn resp_server_msg(body: Seq<char>) -> Seq<char> {
        Seq::<char>::empty()
    }

    open spec fn resp_matches(out: &Vec<String>, body: Seq<char>) -> bool {
        str_views(out@) == spec_lines(body)
    }

    fn format(&self) -> (f: ResponseFormat) {
        ResponseFormat::LineList
    }

    fn response(&self, body: &str) -> (r: Result<Vec<String>, Error>) {
        Ok(consume_line(body))
    }
}

/// The dominant contract of a futures product at a date.
#[derive(Debug)]
pub struct GetDominantFuture {
    pub code: String,
    pub date: String,
}

impl HasMethod for GetDominantFuture {
    open spec fn spec_method(&self) -> Seq<char> {
        "get_dominant_future"@
    }

    fn method(&self) -> (m: String) {
        String::from_str("get_dominant_future")
    }
}

impl Request for GetDominantFuture {
    open spec fn spec_payload(&self) -> Seq<(Seq<char>, FieldV)> {
        seq![("code"@, FieldV::Str(self.code@)), ("date"@, FieldV::Str(self.date@))]
    }

    fn fields(&self) -> (f: Vec<(String, FieldValue)>) {
        let mut f: Vec<(String, FieldValue)> = Vec::new();
        f.push((String::from_str("code"), FieldValue::Str(self.code.clone())));
        f.push((String::from_str("date"), FieldValue::Str(self.date.clone())));
        proof {
            assert(pair_views(f@) =~= self.spec_payload());
        }
        f
    }
}

impl Response for GetDominantFuture {
    type Output = Vec<String>;

    open spec fn spec_format() -> ResponseFormat {
        ResponseFormat::LineList
    }

    open spec fn resp_ok(body: Seq<char>) -> bool {
        true
    }

    open spec fn resp_server_err(body: Seq<char>) -> bool {
        false
    }

    open spec fn resp_server_msg(body: Seq<char>) -> Seq<char> {
        Seq::<char>::empty()
    }

    open spec fn resp_matches(out: &Vec<String>, body: Seq<char>) -> bool {
        str_views(out@) == spec_lines(body)
    }

    fn format(&self) -> (f: ResponseFormat) {
        ResponseFormat::LineList
    }

    fn response(&self, body: &str) -> (r: Result<Vec<String>, Error>) {
        Ok(consume_line(body))
    }
}

/// The profile of one fund; the JSON document is checked and framed, and its typed shape is [`crate::rows::FundInfo`].
#[derive(Debug)]
pub struct GetFundInfo {
    pub code: String,
    pub date: String,
}

impl HasMethod for GetFundInfo {
    open spec fn spec_method(&self) -> Seq<char> {
        "get_fund_info"@
    }

    fn method(&self) -> (m: String) {
        String::from_str("get_fund_info")
    }
}

impl Request for GetFundInfo {
    open spec fn spec_payload(&self) -> Seq<(Seq<char>, FieldV)> {
        seq![("code"@, FieldV::Str(self.code@)), ("date"@, FieldV::Str(self.date@))]
    }

    fn fields(&self) -> (f: Vec<(String, FieldValue)>) {
        let mut f: Vec<(String, FieldValue)> = Vec::new();
        f.push((String::from_str("code"), FieldValue::Str(self.code.clone())));
        f.push((String::from_str("date"), FieldValue::Str(self.date.clone())));
        proof {
            assert(pair_views(f@) =~= self.spec_payload());
        }
        f
    }
}

impl Response for GetFundInfo {
    type Output = String;

    open spec fn spec_format() -> ResponseFormat {
        ResponseFormat::JsonObject
    }

    open spec fn resp_ok(body: Seq<char>) -> bool {
        !starts_with(body, error_prefix())
    }

    open spec fn resp_server_err(body: Seq<char>) -> bool {
        starts_with(body, error_prefix())
    }

    open spec fn resp_server_msg(body: Seq<char>) -> Seq<char> {
        body
    }

    open spec fn resp_matches(out: &String, body: Seq<char>) -> bool {
        out@ == body
    }

    fn format(&self) -> (f: ResponseFormat) {
        ResponseFormat::JsonObject
    }

    fn response(&self, body: &str) -> (r: Result<String, Error>) {
        consume_json(body)
    }
}

/// The latest tick of one security.
#[derive(Debug)]
pub struct GetCurrentTick {
    pub code: String,
}

impl HasMethod for GetCurrentTick {
    open spec fn spec_method(&self) -> Seq<char> {
        "get_current_tick"@
    }

    fn method(&self) -> (m: String) {
        String::from_str("get_current_tick")
    }
}

impl Request for GetCurrentTick {
    open spec fn spec_payload(&self) -> Seq<(Seq<char>, FieldV)> {
        seq![("code"@, FieldV::Str(self.code@))]
    }

    fn fields(&self) -> (f: Vec<(String, FieldValue)>) {
        let mut f: Vec<(String, FieldValue)> = Vec::new();
        f.push((String::from_str("code"), FieldValue::Str(self.code.clone())));
        proof {
            assert(pair_views(f@) =~= self.spec_payload());
        }
        f
    }
}

impl Response for GetCurrentTick {
    type Output = Vec<Tick>;

    open spec fn spec_format() -> ResponseFormat {
        ResponseFormat::Tabular
    }

    open spec fn resp_ok(body: Seq<char>) -> bool {
        csv_ok::<Tick>(body)
    }

    open spec fn resp_server_err(body: Seq<char>) -> bool {
        csv_server_err(body)
    }

    open spec fn resp_server_msg(body: Seq<char>) -> Seq<char> {
        csv_server_msg(body)
    }

    open spec fn resp_matches(out: &Vec<Tick>, body: Seq<char>) -> bool {
        csv_matches(out@, body)
    }

    fn format(&self) -> (f: ResponseFormat) {
        ResponseFormat::Tabular
    }

    fn response(&self, body: &str) -> (r: Result<Vec<Tick>, Error>) {
        consume_csv::<Tick>(body)
    }
}

/// The latest ticks of several securities.
#[derive(Debug)]
pub struct GetCurrentTicks {
    pub code: String,
}

impl HasMethod for GetCurrentTicks {
    open spec fn spec_method(&self) -> Seq<char> {
        "get_current_ticks"@
    }

    fn method(&self) -> (m: String) {
        String::from_str("get_current_ticks")
    }
}

impl Request for GetCurrentTicks {
    open spec fn spec_payload(&self) -> Seq<(Seq<char>, FieldV)> {
        seq![("code"@, FieldV::Str(self.code@))]
    }

    fn fields(&self) -> (f: Vec<(String, FieldValue)>) {
        let mut f: Vec<(String, FieldValue)> = Vec::new();
        f.push((String::from_str("code"), FieldValue::Str(self.code.clone())));
        proof {
            assert(pair_views(f@) =~= self.spec_payload());
        }
        f
    }
}

impl Response for GetCurrentTicks {
    type Output = Vec<Tick>;

    open spec fn spec_format() -> ResponseFormat {
        ResponseFormat::Tabular
    }

    open spec fn resp_ok(body: Seq<char>) -> bool {
        csv_ok::<Tick>(body)
    }

    open spec fn resp_server_err(body: Seq<char>) -> bool {
        csv_server_err(body)
    }

    open spec fn resp_server_msg(body: Seq<char>) -> Seq<char> {
        csv_server_msg(body)
    }

    open spec fn resp_matches(out: &Vec<Tick>, body: Seq<char>) -> bool {
        csv_matches(out@, body)
    }

    fn format(&self) -> (f: ResponseFormat) {
        ResponseFormat::Tabular
    }

    fn response(&self, body: &str) -> (r: Result<Vec<Tick>, Error>) {
        consume_csv::<Tick>(body)
    }
}

/// Extra per-date figures over a range.
#[derive(Debug)]
pub struct GetExtras {
    pub code: String,
    pub date: String,
    pub end_date: String,
}

impl HasMethod for GetExtras {
    open spec fn spec_method(&self) -> Seq<char> {
        "get_extras"@
    }

    fn method(&self) -> (m: String) {
        String::from_str("get_extras")
    }
}

impl Request for GetExtras {
    open spec fn spec_payload(&self) -> Seq<(Seq<char>, FieldV)> {
        seq![("code"@, FieldV::Str(self.code@)), ("date"@, FieldV::Str(self.date@)), ("end_date"@, FieldV::Str(self.end_date@))]
    }

    fn fields(&self) -> (f: Vec<(String, FieldValue)>) {
        let mut f: Vec<(String, FieldValue)> = Vec::new();
        f.push((String::from_str("code"), FieldValue::Str(self.code.clone())));
        f.push((String::from_str("date"), FieldValue::Str(self.date.clone())));
        f.push((String::from_str("end_date"), FieldValue::Str(self.end_date.clone())));
        proof {
            assert(pair_views(f@) =~= self.spec_payload());
        }
        f
    }
}

impl Response for GetExtras {
    type Output = Vec<Extra>;

    open spec fn spec_format() -> ResponseFormat {
        ResponseFormat::Tabular
    }

    open spec fn resp_ok(body: Seq<char>) -> bool {
        csv_ok::<Extra>(body)
    }

    open spec fn resp_server_err(body: Seq<char>) -> bool {
        csv_server_err(body)
    }

    open spec fn resp_server_msg(body: Seq<char>) -> Seq<char> {
        csv_server_msg(body)
    }

    open spec fn resp_matches(out: &Vec<Extra>, body: Seq<char>) -> bool {
        csv_matches(out@, body)
    }

    fn format(&self) -> (f: ResponseFormat) {
        ResponseFormat::Tabular
    }

    fn response(&self, body: &str) -> (r: Result<Vec<Extra>, Error>) {
        consume_csv::<Extra>(body)
    }
}

/// A number of price bars up to a date.
#[derive(Debug)]
pub struct GetPrice {
    pub date: String,
    pub count: u32,
    pub unit: String,
    pub end_date: Option<String>,
    pub fq_ref_date: Option<String>,
}

impl HasMethod for GetPrice {
    open spec fn spec_method(&self) -> Seq<char> {
        "get_price"@
    }

    fn method(&self) -> (m: String) {
        String::from_str("get_price")
    }
}

impl Request for GetPrice {
    open spec fn spec_payload(&self) -> Seq<(Seq<char>, FieldV)> {
        seq![("date"@, FieldV::Str(self.date@)), ("count"@, FieldV::UInt(self.count as int)), ("unit"@, FieldV::Str(self.unit@))] + (match self.end_date {
            Some(v) => seq![("end_date"@, FieldV::Str(v@))],
            None => Seq::<(Seq<char>, FieldV)>::empty(),
        }) + (match self.fq_ref_date {
            Some(v) => seq![("fq_ref_date"@, FieldV::Str(v@))],
            None => Seq::<(Seq<char>, FieldV)>::empty(),
        })
    }

    fn fields(&self) -> (f: Vec<(String, FieldValue)>) {
        let mut f: Vec<(String, FieldValue)> = Vec::new();
        f.push((String::from_str("date"), FieldValue::Str(self.date.clone())));
        f.push((String::from_str("count"), FieldValue::UInt(self.count)));
        f.push((String::from_str("unit"), FieldValue::Str(self.unit.clone())));
        match &self.end_date {
            Some(v) => {
                f.push((String::from_str("end_date"), FieldValue::Str(v.clone())));
            },
            None => {},
        }
        match &self.fq_ref_date {
            Some(v) => {
                f.push((String::from_str("fq_ref_date"), FieldValue::Str(v.clone())));
            },
            None => {},
        }
        proof {
            assert(pair_views(f@) =~= self.spec_payload());
        }
        f
    }
}

impl Response for GetPrice {
    type Output = Vec<Price>;

    open spec fn spec_format() -> ResponseFormat {
        ResponseFormat::Tabular
    }

    open spec fn resp_ok(body: Seq<char>) -> bool {
        csv_ok::<Price>(body)
    }

    open spec fn resp_server_err(body: Seq<char>) -> bool {
        csv_server_err(body)
    }

    open spec fn resp_server_msg(body: Seq<char>) -> Seq<char> {
        csv_server_msg(body)
    }

    open spec fn resp_matches(out: &Vec<Price>, body: Seq<char>) -> bool {
        csv_matches(out@, body)
    }

    fn format(&self) -> (f: ResponseFormat) {
        ResponseFormat::Tabular
    }

    fn response(&self, body: &str) -> (r: Result<Vec<Price>, Error>) {
        consume_csv::<Price>(body)
    }
}

/// Price bars between two dates.
#[derive(Debug)]
pub struct GetPricePeriod {
    pub code: String,
    pub unit: String,
    pub date: String,
    pub end_date: String,
    pub fq_ref_date: Option<String>,
}

impl HasMethod for GetPricePeriod {
    open spec fn spec_method(&self) -> Seq<char> {
        "get_price_period"@
    }

    fn method(&self) -> (m: String) {
        String::from_str("get_price_period")
    }
}

impl Request for GetPricePeriod {
    open spec fn spec_payload(&self) -> Seq<(Seq<char>, FieldV)> {
        seq![("code"@, FieldV::Str(self.code@)), ("unit"@, FieldV::Str(self.unit@)), ("date"@, FieldV::Str(self.date@)), ("end_date"@, FieldV::Str(self.end_date@))] + (match self.fq_ref_date {
            Some(v) => seq![("fq_ref_date"@, FieldV::Str(v@))],
            None => Seq::<(Seq<char>, FieldV)>::empty(),
        })
    }

    fn fields(&self) -> (f: Vec<(String, FieldValue)>) {
        let mut f: Vec<(String, FieldValue)> = Vec::new();
        f.push((String::from_str("code"), FieldValue::Str(self.code.clone())));
        f.push((String::from_str("unit"), FieldValue::Str(self.unit.clone())));
        f.push((String::from_str("date"), FieldValue::Str(self.date.clone())));
        f.push((String::from_str("end_date"), FieldValue::Str(self.end_date.clone())));
        match &self.fq_ref_date {
            Some(v) => {
                f.push((String::from_str("fq_ref_date"), FieldValue::Str(v.clone())));
            },
            None => {},
        }
        proof {
            assert(pair_views(f@) =~= self.spec_payload());
        }
        f
    }
}

impl Response for GetPricePeriod {
    type Output = Vec<Price>;

    open spec fn spec_format() -> ResponseFormat {
        ResponseFormat::Tabular
    }

    open spec fn resp_ok(body: Seq<char>) -> bool {
        csv_ok::<Price>(body)
    }

    open spec fn resp_server_err(body: Seq<char>) -> bool {
        csv_server_err(body)
    }

    open spec fn resp_server_msg(body: Seq<char>) -> Seq<char> {
        csv_server_msg(body)
    }

    open spec fn resp_matches(out: &Vec<Price>, body: Seq<char>) -> bool {
        csv_matches(out@, body)
    }

    fn format(&self) -> (f: ResponseFormat) {
        ResponseFormat::Tabular
    }

    fn response(&self, body: &str) -> (r: Result<Vec<Price>, Error>) {
        consume_csv::<Price>(body)
    }
}

/// Ticks up to a date.
#[derive(Debug)]
pub struct GetTicks {
    pub code: String,
    pub count: Option<u32>,
    pub end_date: String,
    pub skip: bool,
}

impl HasMethod for GetTicks {
    open spec fn spec_method(&self) -> Seq<char> {
        "get_ticks"@
    }

    fn method(&self) -> (m: String) {
        String::from_str("get_ticks")
    }
}

impl Request for GetTicks {
    open spec fn spec_payload(&self) -> Seq<(Seq<char>, FieldV)> {
        seq![("code"@, FieldV::Str(self.code@))] + (match self.count {
            Some(v) => seq![("count"@, FieldV::UInt(v as int))],
            None => Seq::<(Seq<char>, FieldV)>::empty(),
        }) + seq![("end_date"@, FieldV::Str(self.end_date@)), ("skip"@, FieldV::Bool(self.skip))]
    }

    fn fields(&self) -> (f: Vec<(String, FieldValue)>) {
        let mut f: Vec<(String, FieldValue)> = Vec::new();
        f.push((String::from_str("code"), FieldValue::Str(self.code.clone())));
        match &self.count {
            Some(v) => {
                f.push((String::from_str("count"), FieldValue::UInt(*v)));
            },
            None => {},
        }
        f.push((String::from_str("end_date"), FieldValue::Str(self.end_date.clone())));
        f.push((String::from_str("skip"), FieldValue::Bool(self.skip)));
        proof {
            assert(pair_views(f@) =~= self.spec_payload());
        }
        f
    }
}

impl Response for GetTicks {
    type Output = Vec<Tick>;

    open spec fn spec_format() -> ResponseFormat {
        ResponseFormat::Tabular
    }

    open spec fn resp_ok(body: Seq<char>) -> bool {
        csv_ok::<Tick>(body)
    }

    open spec fn resp_server_err(body: Seq<char>) -> bool {
        csv_server_err(body)
    }

    open spec fn resp_server_msg(body: Seq<char>) -> Seq<char> {
        csv_server_msg(body)
    }

    open spec fn resp_matches(out: &Vec<Tick>, body: Seq<char>) -> bool {
        csv_matches(out@, body)
    }

    fn format(&self) -> (f: ResponseFormat) {
        ResponseFormat::Tabular
    }

    fn response(&self, body: &str) -> (r: Result<Vec<Tick>, Error>) {
        consume_csv::<Tick>(body)
    }
}

/// Ticks between two dates.
#[derive(Debug)]
pub struct GetTicksPeriod {
    pub code: String,
    pub date: String,
    pub end_date: String,
    pub skip: bool,
}

impl HasMethod for GetTicksPeriod {
    open spec fn spec_method(&self) -> Seq<char> {
        "get_ticks_period"@
    }

    fn method(&self) -> (m: String) {
        String::from_str("get_ticks_period")
    }
}

impl Request for GetTicksPeriod {
    open spec fn spec_payload(&self) -> Seq<(Seq<char>, FieldV)> {
        seq![("code"@, FieldV::Str(self.code@)), ("date"@, FieldV::Str(self.date@)), ("end_date"@, FieldV::Str(self.end_date@)), ("skip"@, FieldV::Bool(self.skip))]
    }

    fn fields(&self) -> (f: Vec<(String, FieldValue)>) {
        let mut f: Vec<(String, FieldValue)> = Vec::new();
        f.push((String::from_str("code"), FieldValue::Str(self.code.clone())));
        f.push((String::from_str("date"), FieldValue::Str(self.date.clone())));
        f.push((String::from_str("end_date"), FieldValue::Str(self.end_date.clone())));
        f.push((String::from_str("skip"), FieldValue::Bool(self.skip)));
        proof {
            assert(pair_views(f@) =~= self.spec_payload());
        }
        f
    }
}

impl Response for GetTicksPeriod {
    type Output = Vec<Tick>;

    open spec fn spec_format() -> ResponseFormat {
        ResponseFormat::Tabular
    }

    open spec fn resp_ok(body: Seq<char>) -> bool {
        csv_ok::<Tick>(body)
    }

    open spec fn resp_server_err(body: Seq<char>) -> bool {
        csv_server_err(body)
    }

    open spec fn resp_server_msg(body: Seq<char>) -> Seq<char> {
        csv_server_msg(body)
    }

    open spec fn resp_matches(out: &Vec<Tick>, body: Seq<char>) -> bool {
        csv_matches(out@, body)
    }

    fn format(&self) -> (f: ResponseFormat) {
        ResponseFormat::Tabular
    }

    fn response(&self, body: &str) -> (r: Result<Vec<Tick>, Error>) {
        consume_csv::<Tick>(body)
    }
}

/// Factor values of a stock over a range.
#[derive(Debug)]
pub struct GetFactorValues {
    pub code: String,
    pub columns: String,
    pub date: String,
    pub end_date: String,
}

impl HasMethod for GetFactorValues {
    open spec fn spec_method(&self) -> Seq<char> {
        "get_factor_values"@
    }

    fn method(&self) -> (m: String) {
        String::from_str("get_factor_values")
    }
}

impl Request for GetFactorValues {
    open spec fn spec_payload(&self) -> Seq<(Seq<char>, FieldV)> {
        seq![("code"@, FieldV::Str(self.code@)), ("columns"@, FieldV::Str(self.columns@)), ("date"@, FieldV::Str(self.date@)), ("end_date"@, FieldV::Str(self.end_date@))]
    }

    fn fields(&self) -> (f: Vec<(String, FieldValue)>) {
        let mut f: Vec<(String, FieldValue)> = Vec::new();
        f.push((String::from_str("code"), FieldValue::Str(self.code.clone())));
        f.push((String::from_str("columns"), FieldValue::Str(self.columns.clone())));
        f.push((String::from_str("date"), FieldValue::Str(self.date.clone())));
        f.push((String::from_str("end_date"), FieldValue::Str(self.end_date.clone())));
        proof {
            assert(pair_views(f@) =~= self.spec_payload());
        }
        f
    }
}

impl Response for GetFactorValues {
    type Output = Vec<FactorValue>;

    open spec fn spec_format() -> ResponseFormat {
        ResponseFormat::Tabular
    }

    open spec fn resp_ok(body: Seq<char>) -> bool {
        csv_ok::<FactorValue>(body)
    }

    open spec fn resp_server_err(body: Seq<char>) -> bool {
        csv_server_err(body)
    }

    open spec fn resp_server_msg(body: Seq<char>) -> Seq<char> {
        csv_server_msg(body)
    }

    open spec fn resp_matches(out: &Vec<FactorValue>, body: Seq<char>) -> bool {
        csv_matches(out@, body)
    }

    fn format(&self) -> (f: ResponseFormat) {
        ResponseFormat::Tabular
    }

    fn response(&self, body: &str) -> (r: Result<Vec<FactorValue>, Error>) {
        consume_csv::<FactorValue>(body)
    }
}

/// A free-form table query, answered line by line.
#[derive(Debug)]
pub struct RunQuery {
    pub table: String,
    pub columns: String,
    pub conditions: Option<String>,
    pub count: Option<u32>,
}

impl HasMethod for RunQuery {
    open spec fn spec_method(&self) -> Seq<char> {
        "run_query"@
    }

    fn method(&self) -> (m: String) {
        String::from_str("run_query")
    }
}

impl Request for RunQuery {
    open spec fn spec_payload(&self) -> Seq<(Seq<char>, FieldV)> {
        seq![("table"@, FieldV::Str(self.table@)), ("columns"@, FieldV::Str(self.columns@))] + (match self.conditions {
            Some(v) => seq![("conditions"@, FieldV::Str(v@))],
            None => Seq::<(Seq<char>, FieldV)>::empty(),
        }) + (match self.count {
            Some(v) => seq![("count"@, FieldV::UInt(v as int))],
            None => Seq::<(Seq<char>, FieldV)>::empty(),
        })
    }

    fn fields(&self) -> (f: Vec<(String, FieldValue)>) {
        let mut f: Vec<(String, FieldValue)> = Vec::new();
        f.push((String::from_str("table"), FieldValue::Str(self.table.clone())));
        f.push((String::from_str("columns"), FieldValue::Str(self.columns.clone())));
        match &self.conditions {
            Some(v) => {
                f.push((String::from_str("conditions"), FieldValue::Str(v.clone())));
            },
            None => {},
        }
        match &self.count {
            Some(v) => {
                f.push((String::from_str("count"), FieldValue::UInt(*v)));
            },
            None => {},
        }
        proof {
            assert(pair_views(f@) =~= self.spec_payload());
        }
        f
    }
}

impl Response for RunQuery {
    type Output = Vec<String>;

    open spec fn spec_format() -> ResponseFormat {
        ResponseFormat::LineList
    }

    open spec fn resp_ok(body: Seq<char>) -> bool {
        true
    }

    open spec fn resp_server_err(body: Seq<char>) -> bool {
        false
    }

    open spec fn resp_server_msg(body: Seq<char>) -> Seq<char> {
        Seq::<char>::empty()
    }

    open spec fn resp_matches(out: &Vec<String>, body: Seq<char>) -> bool {
        str_views(out@) == spec_lines(body)
    }

    fn format(&self) -> (f: ResponseFormat) {
        ResponseFormat::LineList
    }

    fn response(&self, body: &str) -> (r: Result<Vec<String>, Error>) {
        Ok(consume_line(body))
    }
}

/// How many query rows remain available today.
#[derive(Debug)]
pub struct GetQueryCount {}

impl HasMethod for GetQueryCount {
    open spec fn spec_method(&self) -> Seq<char> {
        "get_query_count"@
    }

    fn method(&self) -> (m: String) {
        String::from_str("get_query_count")
    }
}

impl Request for GetQueryCount {
    open spec fn spec_payload(&self) -> Seq<(Seq<char>, FieldV)> {
        Seq::<(Seq<char>, FieldV)>::empty()
    }

    fn fields(&self) -> (f: Vec<(String, FieldValue)>) {
        let mut f: Vec<(String, FieldValue)> = Vec::new();
        proof {
            assert(pair_views(f@) =~= self.spec_payload());
        }
        f
    }
}

impl Response for GetQueryCount {
    type Output = i32;

    open spec fn spec_format() -> ResponseFormat {
        ResponseFormat::Scalar
    }

    open spec fn resp_ok(body: Seq<char>) -> bool {
        !starts_with(body, error_prefix()) && spec_parse_i32(body) is Some
    }

    open spec fn resp_server_err(body: Seq<char>) -> bool {
        starts_with(body, error_prefix())
    }

    open spec fn resp_server_msg(body: Seq<char>) -> Seq<char> {
        body
    }

    open spec fn resp_matches(out: &i32, body: Seq<char>) -> bool {
        spec_parse_i32(body) == Some(*out)
    }

    fn format(&self) -> (f: ResponseFormat) {
        ResponseFormat::Scalar
    }

    fn response(&self, body: &str) -> (r: Result<i32, Error>) {
        consume_single(body)
    }
}

} // verus!
