//! The four body-consumer strategies on concrete bodies.

use jqdata::error::Error;
use jqdata::model::Response;
use jqdata::model::SecurityKind;
use jqdata::model::GetAllSecurities;
use jqdata::catalog::GetFundInfo;
use jqdata::catalog::GetIndexStocks;
use jqdata::catalog::GetLockedShares;
use jqdata::catalog::GetExtras;
use jqdata::catalog::GetQueryCount;

#[test]
fn test_security_kind_rename() {
    assert_serde_security_kind("stock", SecurityKind::Stock);
    assert_serde_security_kind("fund", SecurityKind::Fund);
    assert_serde_security_kind("index", SecurityKind::Index);
    assert_serde_security_kind("futures", SecurityKind::Futures);
    assert_serde_security_kind("etf", SecurityKind::ETF);
    assert_serde_security_kind("lof", SecurityKind::LOF);
    assert_serde_security_kind("fja", SecurityKind::FJA);
    assert_serde_security_kind("fjb", SecurityKind::FJB);
    assert_serde_security_kind("QDII_fund", SecurityKind::QDIIFund);
    assert_serde_security_kind("open_fund", SecurityKind::OpenFund);
    assert_serde_security_kind("bond_fund", SecurityKind::BondFund);
    assert_serde_security_kind("stock_fund", SecurityKind::StockFund);
    assert_serde_security_kind("money_market_fund", SecurityKind::MoneyMarketFund);
    assert_serde_security_kind("mixture_fund", SecurityKind::MixtureFund);
    assert_serde_security_kind("options", SecurityKind::Options);
}

fn assert_serde_security_kind(s: &str, k: SecurityKind) {
    assert_eq!(jqdata::model::security_kind_str(&k), s);
    assert_eq!(jqdata::model::parse_security_kind(s), Some(k));
}

#[test]
fn tabular_error_header_wins_over_rows() {
    // however many rows follow, a sentinel header is a server error
    let body = "error: bad things,x\nrow1,1\nrow2,2\n";
    let command = GetAllSecurities { code: SecurityKind::Stock, date: None };
    match command.response(body) {
        Err(Error::Server(m)) => assert_eq!(m, "error: bad things"),
        _ => panic!("expected a server error"),
    }
}

#[test]
fn tabular_empty_body_is_a_server_error() {
    let command = GetAllSecurities { code: SecurityKind::Stock, date: None };
    match command.response("") {
        Err(Error::Server(m)) => assert_eq!(m, "empty response body returned"),
        _ => panic!("expected a server error"),
    }
}

#[test]
fn tabular_header_only_gives_zero_rows() {
    let command = GetAllSecurities { code: SecurityKind::Stock, date: None };
    let rows = command
        .response("code,display_name,name,start_date,end_date,type\n")
        .unwrap();
    assert_eq!(rows.len(), 0);
}

#[test]
fn tabular_wrong_arity_is_a_decode_error() {
    let body = "code,display_name,name,start_date,end_date,type\nonly,five,fields,in,row\n";
    let command = GetAllSecurities { code: SecurityKind::Stock, date: None };
    assert!(matches!(command.response(body), Err(Error::Decode(_))));
}

#[test]
fn tabular_unknown_kind_is_a_decode_error() {
    let body = "code,display_name,name,start_date,end_date,type\na,b,c,d,e,frisbee\n";
    let command = GetAllSecurities { code: SecurityKind::Stock, date: None };
    assert!(matches!(command.response(body), Err(Error::Decode(_))));
}

#[test]
fn tabular_decimal_row() {
    let body = "day,code,num,rate1,rate2\n2020-01-10,000001.XSHE,100.5,0.12,3e2\n";
    let command = GetLockedShares {
        code: String::from("000001.XSHE"),
        date: String::from("2020-01-01"),
        end_date: String::from("2020-02-01"),
    };
    let rows = command.response(body).unwrap();
    assert_eq!(rows.len(), 1);
    assert_eq!(rows[0].day, "2020-01-10");
    assert_eq!(rows[0].num.as_text(), "100.5");
    assert_eq!(rows[0].rate1.as_text(), "0.12");
    assert_eq!(rows[0].rate2.as_text(), "3e2");
}

#[test]
fn tabular_optional_columns() {
    let body = "date,is_st,acc_net_value\n2020-01-10,,1.5\n2020-01-11,1,\n";
    let command = GetExtras {
        code: String::from("510300.XSHG"),
        date: String::from("2020-01-10"),
        end_date: String::from("2020-01-11"),
    };
    let rows = command.response(body).unwrap();
    assert_eq!(rows.len(), 2);
    assert_eq!(rows[0].is_st, None);
    assert_eq!(rows[0].acc_net_value.as_ref().unwrap().as_text(), "1.5");
    assert_eq!(rows[1].is_st, Some(1));
    assert!(rows[1].acc_net_value.is_none());
    assert!(rows[0].futures_sett_price.is_none());
}

#[test]
fn line_list_preserves_lines() {
    let command = GetIndexStocks {
        code: String::from("000300.XSHG"),
        date: String::from("2018-05-03"),
    };
    let out = command.response("000001.XSHE\n000002.XSHE\n600000.XSHG").unwrap();
    assert_eq!(out, vec!["000001.XSHE", "000002.XSHE", "600000.XSHG"]);
    // a trailing newline opens no extra line; inner empty lines stay
    let out2 = command.response("a\n\nb\n").unwrap();
    assert_eq!(out2, vec!["a", "", "b"]);
    // joining the result with newlines reproduces the body modulo one
    // trailing newline
    assert_eq!(out2.join("\n"), "a\n\nb");
    let out3 = command.response("").unwrap();
    assert_eq!(out3, Vec::<String>::new());
    // carriage returns before newlines are stripped
    let out4 = command.response("a\r\nb").unwrap();
    assert_eq!(out4, vec!["a", "b"]);
}

#[test]
fn line_list_passes_sentinel_text_through() {
    // the deliberate asymmetry: a server error in line-list form surfaces
    // as ordinary data for the caller to inspect
    let command = GetIndexStocks {
        code: String::from("000300.XSHG"),
        date: String::from("2018-05-03"),
    };
    let out = command.response("error: no permission").unwrap();
    assert_eq!(out, vec!["error: no permission"]);
}

#[test]
fn scalar_parses_integer() {
    let command = GetQueryCount {};
    assert_eq!(command.response("42").unwrap(), 42);
    assert_eq!(command.response("-7").unwrap(), -7);
    assert!(matches!(command.response("not a number"), Err(Error::Decode(_))));
    assert!(matches!(command.response(""), Err(Error::Decode(_))));
    assert!(matches!(command.response("99999999999"), Err(Error::Decode(_))));
    match command.response("error: quota exceeded") {
        Err(Error::Server(m)) => assert_eq!(m, "error: quota exceeded"),
        _ => panic!("expected a server error"),
    }
}

#[test]
fn json_document_is_checked_and_framed() {
    let command = GetFundInfo {
        code: String::from("000001"),
        date: String::from("2020-01-10"),
    };
    let doc = "{\"fund_name\":\"x\"}";
    assert_eq!(command.response(doc).unwrap(), doc);
    match command.response("error: no such fund") {
        Err(Error::Server(m)) => assert_eq!(m, "error: no such fund"),
        _ => panic!("expected a server error"),
    }
}

#[test]
fn tabular_parent_column_is_kept() {
    let body = "code,display_name,name,start_date,end_date,type,parent\n512500.XSHG,ETF500,ETF500,2013-03-15,2200-01-01,etf,overlay\n";
    let command = GetAllSecurities { code: SecurityKind::Stock, date: None };
    let rows = command.response(body).unwrap();
    assert_eq!(rows.len(), 1);
    assert_eq!(rows[0].kind, SecurityKind::ETF);
    assert_eq!(rows[0].parent.as_deref(), Some("overlay"));
}

#[test]
fn tabular_columns_match_by_name_not_position() {
    let body = "type,code,name,display_name,end_date,start_date\nstock,000001.XSHE,PAYH,Ping An Bank,2200-01-01,1991-04-03\n";
    let command = GetAllSecurities { code: SecurityKind::Stock, date: None };
    let rows = command.response(body).unwrap();
    assert_eq!(rows[0].code, "000001.XSHE");
    assert_eq!(rows[0].start_date, "1991-04-03");
    assert_eq!(rows[0].kind, SecurityKind::Stock);
}

#[test]
fn tabular_empty_parent_cell_means_none() {
    let body = "code,display_name,name,start_date,end_date,type,parent\na,b,c,d,e,stock,\n";
    let command = GetAllSecurities { code: SecurityKind::Stock, date: None };
    let rows = command.response(body).unwrap();
    assert_eq!(rows[0].parent, None);
}
