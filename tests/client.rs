use reqwest_dav::client::{
    check_list_status, contains_text, has_pem_armour, is_dav2xx, is_pem_header, join_path,
    server_error,
};
use reqwest_dav::{Auth, ClientBuilder, DecodeError, Depth, Error};

#[test]
fn builder_requires_host() {
    let result = ClientBuilder::new().set_auth(Auth::Anonymous).settings();
    match result {
        Err(Error::Decode(DecodeError::FieldNotFound(f))) => assert_eq!(f.field, "host"),
        _ => panic!("expected a missing host"),
    }
}

#[test]
fn builder_defaults_to_anonymous() {
    let settings = ClientBuilder::new()
        .set_host("http://sever/remote.php/dav/files/user/".to_string())
        .settings()
        .unwrap();
    assert_eq!(settings.host, "http://sever/remote.php/dav/files/user/");
    assert!(matches!(settings.auth, Auth::Anonymous));
    assert!(settings.agent.is_none());
}

#[test]
fn builder_keeps_what_was_set() {
    let settings = ClientBuilder::new()
        .set_host("http://h".to_string())
        .set_auth(Auth::Basic("username".to_owned(), "password".to_owned()))
        .set_agent(reqwest::Client::new())
        .settings()
        .unwrap();
    assert!(settings.agent.is_some());
    match settings.auth {
        Auth::Basic(u, p) => {
            assert_eq!(u, "username");
            assert_eq!(p, "password");
        }
        _ => panic!("expected basic"),
    }
}

#[test]
fn joins_with_one_slash() {
    assert_eq!(join_path("http://sever/remote.php/dav/files/user/", "/test/1.txt"), "http://sever/remote.php/dav/files/user/test/1.txt");
    assert_eq!(join_path("http://h///", "///a"), "http://h/a");
    assert_eq!(join_path("http://h", "a/"), "http://h/a/");
    assert_eq!(join_path("", ""), "/");
    assert_eq!(join_path("/", "/"), "/");
}

#[test]
fn dav_statuses() {
    assert!(is_dav2xx(200));
    assert!(is_dav2xx(207));
    assert!(is_dav2xx(299));
    assert!(!is_dav2xx(199));
    assert!(!is_dav2xx(300));
    assert!(!is_dav2xx(404));
    assert!(check_list_status(207).is_ok());
    match check_list_status(200) {
        Err(Error::Decode(DecodeError::StatusMismatched(s))) => {
            assert_eq!(s.response_code, 200);
            assert_eq!(s.expected_code, 207);
        }
        _ => panic!("expected a status mismatch"),
    }
}

#[test]
fn server_errors() {
    match server_error(404, "<x/>".to_string(), Some(("Sabre\\DAV\\Exception\\NotFound".to_string(), "File not found".to_string()))) {
        Error::Decode(DecodeError::Server(s)) => {
            assert_eq!(s.response_code, 404);
            assert_eq!(s.exception, "Sabre\\DAV\\Exception\\NotFound");
            assert_eq!(s.message, "File not found");
        }
        _ => panic!("expected a server error"),
    }
    match server_error(500, "oops".to_string(), None) {
        Error::Decode(DecodeError::Server(s)) => {
            assert_eq!(s.response_code, 500);
            assert_eq!(s.exception, "server exception and parse error");
            assert_eq!(s.message, "oops");
        }
        _ => panic!("expected a server error"),
    }
}

#[test]
fn depth_header_values() {
    assert_eq!(Depth::Number(1).header_value(), "1");
    assert_eq!(Depth::Number(0).header_value(), "0");
    assert_eq!(Depth::Number(-42).header_value(), "-42");
    assert_eq!(Depth::Number(i64::MIN).header_value(), "-9223372036854775808");
    assert_eq!(Depth::Number(1234567890).header_value(), "1234567890");
    assert_eq!(Depth::Infinity.header_value(), "infinity");
}

#[test]
fn pem_headers() {
    assert!(is_pem_header(b"-----BEGIN CERTIFICATE-----\nMIIB"));
    assert!(is_pem_header(b"-----begin certificate-----\nMIIB"));
    assert!(is_pem_header(b"\n\n-----BeGiN RSA PRIVATE KEY"));
    assert!(!is_pem_header(b"0\x82\x03\x1d0\x82\x02\x05\xa0\x03\x02\x01\x02\x02"));
    assert!(!is_pem_header(b"-----BEGI\xff"));
    assert!(!is_pem_header(b"----BEGIN"));
    assert!(has_pem_armour("X-----BEGIN"));
    assert!(!has_pem_armour("-----begin"));
}

#[test]
fn text_search() {
    assert!(contains_text("abc", ""));
    assert!(contains_text("abc", "abc"));
    assert!(contains_text("xxabcxx", "bc"));
    assert!(!contains_text("ab", "abc"));
    assert!(!contains_text("aXbc", "abc"));
    assert!(contains_text("ééabc", "éa"));
}
