//! Envelope construction: canonical member order, precedence, escaping.

use jqdata::model::Request;
use jqdata::model::SecurityKind;
use jqdata::model::GetAllSecurities;
use jqdata::catalog::GetPrice;
use jqdata::catalog::GetSecurityInfo;
use jqdata::catalog::GetTicks;
use jqdata::envelope::build_envelope;
use jqdata::envelope::FieldValue;

#[test]
fn model_test_get_all_securities() {
    let gas = GetAllSecurities {
        code: SecurityKind::Stock,
        date: Some(String::from("2020-02-16")),
    };
    assert_eq!(
        "{\"code\":\"stock\",\"date\":\"2020-02-16\",\"method\":\"get_all_securities\",\"token\":\"abc\"}",
        gas.request("abc").unwrap()
    );
}

#[test]
fn envelope_members_are_sorted() {
    let cmd = GetPrice {
        date: String::from("2020-01-01"),
        count: 120,
        unit: String::from("1d"),
        end_date: None,
        fq_ref_date: None,
    };
    assert_eq!(
        "{\"count\":120,\"date\":\"2020-01-01\",\"method\":\"get_price\",\"token\":\"t\",\"unit\":\"1d\"}",
        cmd.request("t").unwrap()
    );
}

#[test]
fn envelope_bool_and_optional_members() {
    let cmd = GetTicks {
        code: String::from("AG2012.XSGE"),
        count: Some(5),
        end_date: String::from("2020-07-03"),
        skip: true,
    };
    assert_eq!(
        "{\"code\":\"AG2012.XSGE\",\"count\":5,\"end_date\":\"2020-07-03\",\"method\":\"get_ticks\",\"skip\":true,\"token\":\"t\"}",
        cmd.request("t").unwrap()
    );
    let cmd2 = GetTicks {
        code: String::from("AG2012.XSGE"),
        count: None,
        end_date: String::from("2020-07-03"),
        skip: false,
    };
    assert_eq!(
        "{\"code\":\"AG2012.XSGE\",\"end_date\":\"2020-07-03\",\"method\":\"get_ticks\",\"skip\":false,\"token\":\"t\"}",
        cmd2.request("t").unwrap()
    );
}

#[test]
fn envelope_escapes_json_strings() {
    let cmd = GetSecurityInfo { code: String::from("a\"b\\c\nd") };
    assert_eq!(
        "{\"code\":\"a\\\"b\\\\c\\nd\",\"method\":\"get_security_info\",\"token\":\"t\"}",
        cmd.request("t").unwrap()
    );
}

#[test]
fn envelope_method_and_token_take_precedence() {
    // a colliding command field loses against the protocol's own members
    let payload = vec![
        (String::from("token"), FieldValue::Str(String::from("fake"))),
        (String::from("x"), FieldValue::UInt(1)),
    ];
    let body = build_envelope("m", "real", payload);
    assert_eq!("{\"method\":\"m\",\"token\":\"real\",\"x\":1}", body);
}

#[test]
fn envelope_of_field_free_command() {
    let cmd = jqdata::catalog::GetQueryCount {};
    assert_eq!(
        "{\"method\":\"get_query_count\",\"token\":\"abc\"}",
        cmd.request("abc").unwrap()
    );
}

#[test]
fn envelope_run_query_optionals() {
    let cmd = jqdata::catalog::RunQuery {
        table: String::from("finance.STK_XR_XD"),
        columns: String::from("code,company_id"),
        conditions: None,
        count: Some(10),
    };
    assert_eq!(
        "{\"columns\":\"code,company_id\",\"count\":10,\"method\":\"run_query\",\"table\":\"finance.STK_XR_XD\",\"token\":\"t\"}",
        cmd.request("t").unwrap()
    );
}
