use kook_sdk::models::KookError;
use kook_sdk::rest::{api_result, api_url, auth_header, compress_param, http_status_error, page_query, stream_url, PageParams, API_BASE};

#[test]
fn auth_codes_become_auth_errors() {
    match KookError::from_code(40101, "bad token".to_string()) {
        KookError::Auth(m) => assert_eq!(m, "Authentication failed (40101): bad token"),
        other => panic!("{:?}", other),
    }
    match KookError::from_code(40199, String::new()) {
        KookError::Auth(m) => assert_eq!(m, "Authentication failed (40199): "),
        other => panic!("{:?}", other),
    }
}

#[test]
fn other_codes_become_generic_errors() {
    match KookError::from_code(40000, "nope".to_string()) {
        KookError::Generic(c, m) => {
            assert_eq!(c, 40000);
            assert_eq!(m, "nope");
        }
        other => panic!("{:?}", other),
    }
    assert!(matches!(KookError::from_code(40200, String::new()), KookError::Generic(40200, _)));
    assert!(matches!(KookError::from_code(-1, String::new()), KookError::Generic(-1, _)));
}

#[test]
fn errors_describe_themselves() {
    assert_eq!(KookError::Generic(-7, "x".to_string()).describe(), "KOOK API Error -7: x");
    assert_eq!(KookError::Network("down".to_string()).describe(), "Network Error: down");
    assert_eq!(KookError::Json("bad".to_string()).describe(), "JSON Error: bad");
    assert_eq!(KookError::WebSocket("closed".to_string()).describe(), "WebSocket Error: closed");
    assert_eq!(KookError::Auth("no".to_string()).describe(), "Auth Error: no");
    assert_eq!(KookError::Params("p".to_string()).describe(), "Params Error: p");
    assert!(KookError::Auth(String::new()).is_terminal());
    assert!(!KookError::Network(String::new()).is_terminal());
}

#[test]
fn api_paths_join_with_one_slash() {
    assert_eq!(api_url(API_BASE, "/v3/user/me"), "https://www.kookapp.cn/api/v3/user/me");
    assert_eq!(api_url(API_BASE, "v3/user/me"), "https://www.kookapp.cn/api/v3/user/me");
    assert_eq!(api_url("b", ""), "b/");
}

#[test]
fn headers_and_gateway_parameters() {
    assert_eq!(auth_header("abc"), "Bot abc");
    assert_eq!(compress_param(true), "1");
    assert_eq!(compress_param(false), "0");
    assert_eq!(stream_url("wss://g", "tok", true), "wss://g?token=tok&compress=1");
    assert_eq!(stream_url("wss://g", "tok", false), "wss://g?token=tok");
}

#[test]
fn page_query_lists_set_parameters_in_order() {
    let params = PageParams { page: Some(2), page_size: Some(50), sort: Some("id".to_string()) };
    let extra = vec![("guild_id".to_string(), "g1".to_string())];
    let q = page_query(&params, &extra);
    let expect: Vec<(String, String)> = vec![
        ("page".to_string(), "2".to_string()),
        ("page_size".to_string(), "50".to_string()),
        ("sort".to_string(), "id".to_string()),
        ("guild_id".to_string(), "g1".to_string()),
    ];
    assert_eq!(q, expect);
    assert!(page_query(&PageParams::default(), &Vec::new()).is_empty());
}

#[test]
fn response_envelope_is_checked() {
    assert_eq!(api_result(0, String::new(), Some(5)).unwrap(), 5);
    assert!(matches!(api_result::<i32>(0, String::new(), None), Err(KookError::Json(m)) if m == "Response data is null"));
    assert!(matches!(api_result::<i32>(40100, "t".to_string(), Some(1)), Err(KookError::Auth(_))));
    assert!(matches!(api_result::<i32>(500, "m".to_string(), Some(1)), Err(KookError::Generic(500, m)) if m == "m"));
}

#[test]
fn http_failures_are_network_errors() {
    assert!(http_status_error(200, "200 OK", "").is_none());
    assert!(http_status_error(299, "299", "").is_none());
    match http_status_error(404, "404 Not Found", "missing") {
        Some(KookError::Network(m)) => assert_eq!(m, "HTTP 404 Not Found: missing"),
        other => panic!("{:?}", other),
    }
    assert!(http_status_error(300, "300", "").is_some());
}
