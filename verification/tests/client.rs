//! Client construction, token lifecycle and end-to-end decoding scenarios.

use jqdata::client::JqdataClient;
use jqdata::error::Error;
use jqdata::model::Request;
use jqdata::model::Response;
use jqdata::model::Security;
use jqdata::model::SecurityKind;
use jqdata::model::GetAllSecurities;
use jqdata::catalog::GetQueryCount;

#[test]
fn test_error_response() {
    let response_body = "error: invalid token";
    let client = JqdataClient::with_token("abc").unwrap();
    let command = GetAllSecurities { code: SecurityKind::Stock, date: None };
    let envelope = client.prepare(&command).unwrap();
    assert!(envelope.contains("\"token\":\"abc\""));
    let response = command.response(response_body);
    assert!(response.is_err());
}

#[test]
fn cli_test_get_all_securities() {
    let response_body = {
        let mut s = String::from("code,display_name,name,start_date,end_date,type\n");
        s.push_str("000001.XSHE,平安银行,PAYH,1991-04-03,2200-01-01,stock\n");
        s.push_str("000002.XSHE,万科A,WKA,1991-01-29,2200-01-01,stock\n");
        s
    };
    let client = JqdataClient::with_token("abc").unwrap();
    let command = GetAllSecurities { code: SecurityKind::Stock, date: None };
    let _envelope = client.prepare(&command).unwrap();
    let ss = command.response(&response_body).unwrap();
    assert_eq!(
        vec![
            Security {
                code: "000001.XSHE".to_string(),
                display_name: "平安银行".to_string(),
                name: "PAYH".to_string(),
                start_date: "1991-04-03".to_string(),
                end_date: "2200-01-01".to_string(),
                kind: SecurityKind::Stock,
                parent: None,
            },
            Security {
                code: "000002.XSHE".to_string(),
                display_name: "万科A".to_string(),
                name: "WKA".to_string(),
                start_date: "1991-01-29".to_string(),
                end_date: "2200-01-01".to_string(),
                kind: SecurityKind::Stock,
                parent: None,
            }
        ],
        ss
    );
}

#[test]
fn lib_test_get_all_securities() {
    let response_body = {
        let mut s = String::from("code,display_name,name,start_date,end_date,type\n");
        s.push_str("000001.XSHE,平安银行,PAYH,1991-04-03,2200-01-01,stock\n");
        s.push_str("000002.XSHE,万科A,WKA,1991-01-29,2200-01-01,stock\n");
        s
    };
    let client =
        JqdataClient::with_credential_response("10000", "pass", "abc".to_string()).unwrap();
    assert_eq!(client.current_token(), "abc");
    let command = GetAllSecurities { code: SecurityKind::Stock, date: None };
    let _envelope = client.prepare(&command).unwrap();
    let ss = command.response(&response_body).unwrap();
    assert_eq!(
        vec![
            Security {
                code: "000001.XSHE".to_string(),
                display_name: "平安银行".to_string(),
                name: "PAYH".to_string(),
                start_date: "1991-04-03".to_string(),
                end_date: "2200-01-01".to_string(),
                kind: SecurityKind::Stock,
                parent: None,
            },
            Security {
                code: "000002.XSHE".to_string(),
                display_name: "万科A".to_string(),
                name: "WKA".to_string(),
                start_date: "1991-01-29".to_string(),
                end_date: "2200-01-01".to_string(),
                kind: SecurityKind::Stock,
                parent: None,
            }
        ],
        ss
    );
}

#[test]
fn credential_construction_fails_on_sentinel() {
    let r = JqdataClient::with_credential_response(
        "10000",
        "pass",
        "error: invalid credential".to_string(),
    );
    match r {
        Err(Error::Server(m)) => assert_eq!(m, "error: invalid credential"),
        _ => panic!("construction must fail with a server error"),
    }
}

#[test]
fn refresh_request_and_install() {
    let mut client =
        JqdataClient::with_credential_response("10000", "pass", "tok1".to_string()).unwrap();
    let body = client.refresh_request(true).unwrap();
    assert_eq!(
        body,
        "{\"method\":\"get_current_token\",\"mob\":\"10000\",\"pwd\":\"pass\"}"
    );
    let body2 = client.refresh_request(false).unwrap();
    assert_eq!(body2, "{\"method\":\"get_token\",\"mob\":\"10000\",\"pwd\":\"pass\"}");

    // a sentinel refresh response leaves the token untouched
    let r = client.install_token("error: expired".to_string());
    assert!(matches!(r, Err(Error::Server(_))));
    assert_eq!(client.current_token(), "tok1");

    // a fresh token replaces the old one wholesale
    client.install_token("tok2".to_string()).unwrap();
    assert_eq!(client.current_token(), "tok2");
}

#[test]
fn refresh_unavailable_without_credential() {
    let client = JqdataClient::with_token("abc").unwrap();
    let r = client.refresh_request(true);
    assert!(matches!(r, Err(Error::NoCredential)));
}

#[test]
fn shared_client_calls_are_independent() {
    // Two dispatches against one client read the same token snapshot, and
    // one call's failure leaves the other's outcome untouched.
    let client = JqdataClient::with_token("shared").unwrap();
    let a = GetAllSecurities { code: SecurityKind::Stock, date: None };
    let b = GetQueryCount {};
    let env_a = client.prepare(&a).unwrap();
    let env_b = client.prepare(&b).unwrap();
    assert!(env_a.contains("\"token\":\"shared\""));
    assert!(env_b.contains("\"token\":\"shared\""));
    let bad = a.response("error: broken");
    assert!(bad.is_err());
    let good = b.response("7");
    assert_eq!(good.unwrap(), 7);
    assert_eq!(client.current_token(), "shared");
}

#[test]
fn end_to_end_get_all_securities_scenario() {
    let body = "code,display_name,name,start_date,end_date,type\n000001.XSHE,Ping An Bank,PAYH,1991-04-03,2200-01-01,stock\n";
    let command = GetAllSecurities { code: SecurityKind::Stock, date: None };
    let rows = command.response(body).unwrap();
    assert_eq!(rows.len(), 1);
    assert_eq!(rows[0].code, "000001.XSHE");
    assert_eq!(rows[0].kind, SecurityKind::Stock);
}
