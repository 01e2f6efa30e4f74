use rustan::error::{Error, ErrorKind};
use rustan::protocol::locator::remove_dot_segments;
use rustan::protocol::request::Request;
use rustan::protocol::{EMPTY_REQ, PARSE_ERR, WRONG_DATA_SIZE};
use rustan::text::parse_usize;

#[test]
fn create_from_request_path_under_root() {
    let result =
        Request::create_from_request_line("my-good-host.com /../../../../etc/passwd 0".to_string());
    let except = Ok(Request {
        host: "my-good-host.com".to_string(),
        locator: "/etc/passwd".to_string(),
        data_len: 0,
        data: None,
    });

    assert!(result.is_ok());
    assert_eq!(result, except);
}

#[test]
fn create_from_request_line_empty_line() {
    let result = Request::create_from_request_line("".to_string());
    let expect = Err(Error::new_request_error(EMPTY_REQ));
    assert!(result.is_err());

    assert_eq!(result, expect);
}

#[test]
fn create_from_request_line_wrong_data_len() {
    let result = Request::create_from_request_line("somehost /some/path not-a-number".to_string());
    let except = Err(Error::new_request_error(PARSE_ERR));

    assert!(result.is_err());
    assert_eq!(except, result);
}

#[test]
fn create_from_request_line_zero_body() {
    let result =
        Request::create_from_request_line("my-good-host.com /resource%20test 0".to_string());
    let except = Ok(Request {
        host: "my-good-host.com".to_string(),
        locator: "/resource test".to_string(),
        data_len: 0,
        data: None,
    });

    assert!(result.is_ok());
    assert_eq!(result, except);
}

#[test]
fn create_from_request_line_body_contains_size() {
    let result = Request::create_from_request_line("host.com /addr 12".to_string());
    let except = Ok(Request {
        host: "host.com".to_string(),
        locator: "/addr".to_string(),
        data_len: 12,
        data: None,
    });

    assert!(result.is_ok());
    assert_eq!(result, except);
}

#[test]
fn append_data_empty_data_but_data_len_is_set() {
    let result = Request::create_from_request_line("host /addr 12".to_string())
        .and_then(|res| res.append_data(Vec::new()));

    let except = Err(Error::new_request_error(WRONG_DATA_SIZE));

    assert!(result.is_err());
    assert_eq!(except, result);
}

#[test]
fn append_data_right_size() {
    let byte_data = b"Hello world!".to_vec();

    let result = Request::create_from_request_line("host /addr 12".to_string())
        .and_then(|res| res.append_data(byte_data.clone()));

    let except = Ok(Request {
        host: "host".to_string(),
        locator: "/addr".to_string(),
        data_len: 12,
        data: Some(byte_data.clone()),
    });

    assert!(result.is_ok());
    assert_eq!(except, result);
}

#[test]
fn append_data_wrong_size() {
    let byte_data = b"lorem ipsum".to_vec();

    let result = Request::create_from_request_line("host /addr 12".to_string())
        .and_then(|res| res.append_data(byte_data.clone()));

    let except = Err(Error::new_request_error(WRONG_DATA_SIZE));

    assert!(result.is_err());
    assert_eq!(except, result);
}

#[test]
fn append_data_zero_length_matches() {
    let request = Request::create_from_request_line("host /addr 0".to_string()).unwrap();
    let result = request.append_data(Vec::new()).unwrap();
    assert_eq!(result.data, Some(Vec::new()));
    assert_eq!(result.data_len, 0);
}

#[test]
fn append_data_longer_than_announced() {
    let request = Request::create_from_request_line("host /addr 2".to_string()).unwrap();
    let result = request.append_data(b"abc".to_vec());
    assert_eq!(result, Err(Error::new_request_error(WRONG_DATA_SIZE)));
}

#[test]
fn too_many_pieces_is_malformed() {
    let result = Request::create_from_request_line("host /a b 0".to_string());
    assert_eq!(result, Err(Error::new_request_error(PARSE_ERR)));
}

#[test]
fn too_few_pieces_is_malformed() {
    let result = Request::create_from_request_line("host /a".to_string());
    assert_eq!(result, Err(Error::new_request_error(PARSE_ERR)));
}

#[test]
fn doubled_space_is_malformed() {
    let result = Request::create_from_request_line("host  /a 0".to_string());
    assert_eq!(result, Err(Error::new_request_error(PARSE_ERR)));
}

#[test]
fn dot_segments_are_removed() {
    let result = Request::create_from_request_line("h /a/./b/../c 0".to_string()).unwrap();
    assert_eq!(result.locator, "/a/c");
    assert_eq!(result.host, "h");
}

#[test]
fn encoded_dot_segments_are_removed() {
    let result = Request::create_from_request_line("h /a/%2e%2e/%2E%2E/x 0".to_string()).unwrap();
    assert_eq!(result.locator, "/x");
}

#[test]
fn url_failure_is_a_request_error() {
    let result = Request::create_from_request_line("[ /a 0".to_string());
    let e = result.unwrap_err();
    assert_eq!(e.kind, ErrorKind::RequestError);
    assert!(!e.msg.is_empty());
}

#[test]
fn data_len_with_plus_sign() {
    let result = Request::create_from_request_line("h /a +7".to_string()).unwrap();
    assert_eq!(result.data_len, 7);
}

#[test]
fn parse_usize_cases() {
    assert_eq!(parse_usize("0"), Some(0));
    assert_eq!(parse_usize("12"), Some(12));
    assert_eq!(parse_usize("+12"), Some(12));
    assert_eq!(parse_usize(""), None);
    assert_eq!(parse_usize("+"), None);
    assert_eq!(parse_usize("-1"), None);
    assert_eq!(parse_usize("1a"), None);
    assert_eq!(parse_usize(" 1"), None);
    assert_eq!(parse_usize("18446744073709551615"), Some(usize::MAX));
    assert_eq!(parse_usize("18446744073709551616"), None);
}

#[test]
fn default_request() {
    let r = Request::default();
    assert_eq!(r.host, "localhost");
    assert_eq!(r.locator, "/");
    assert_eq!(r.data_len, 0);
    assert_eq!(r.data, None);
}

#[test]
fn encoded_slashes_stay_under_the_root() {
    let result = Request::create_from_request_line("h /a%2F..%2F..%2Fetc 0".to_string()).unwrap();
    assert_eq!(result.locator, "/etc");
    let result = Request::create_from_request_line("h /..%2F..%2Fetc%2Fpasswd 0".to_string()).unwrap();
    assert_eq!(result.locator, "/etc/passwd");
    let result = Request::create_from_request_line("h /a%2F..%2Fb 0".to_string()).unwrap();
    assert_eq!(result.locator, "/b");
    let result = Request::create_from_request_line("h /d/x%2F.. 0".to_string()).unwrap();
    assert_eq!(result.locator, "/d/");
}

#[test]
fn request_from_decoded_parts() {
    let r = Request::request_from_parts("h".to_string(), Ok("/a/./../b/".to_string()), "3").unwrap();
    assert_eq!(r.host, "h");
    assert_eq!(r.locator, "/b/");
    assert_eq!(r.data_len, 3);
    assert_eq!(r.data, None);
    let e = Request::request_from_parts("h".to_string(), Err("bad escape".to_string()), "3");
    assert_eq!(e, Err(Error::new_request_error("bad escape")));
    let e = Request::request_from_parts("h".to_string(), Ok("x".to_string()), "3");
    assert_eq!(e, Err(Error::new_request_error(PARSE_ERR)));
    let e = Request::request_from_parts("h".to_string(), Ok("/x".to_string()), "three");
    assert_eq!(e, Err(Error::new_request_error(PARSE_ERR)));
}

#[test]
fn dot_segment_removal() {
    assert_eq!(remove_dot_segments("/"), Some("/".to_string()));
    assert_eq!(remove_dot_segments("/a/b"), Some("/a/b".to_string()));
    assert_eq!(remove_dot_segments("/a/./b"), Some("/a/b".to_string()));
    assert_eq!(remove_dot_segments("/a/../b"), Some("/b".to_string()));
    assert_eq!(remove_dot_segments("/../../x"), Some("/x".to_string()));
    assert_eq!(remove_dot_segments("/a/.."), Some("/".to_string()));
    assert_eq!(remove_dot_segments("/a/b/."), Some("/a/b/".to_string()));
    assert_eq!(remove_dot_segments("/a//b"), Some("/a//b".to_string()));
    assert_eq!(remove_dot_segments("/a..b/...c"), Some("/a..b/...c".to_string()));
    assert_eq!(remove_dot_segments("a/b"), None);
    assert_eq!(remove_dot_segments(""), None);
}

#[test]
fn encoded_dots_inside_a_name_are_kept() {
    let result = Request::create_from_request_line("h /a..b/%2E.c 0".to_string()).unwrap();
    assert_eq!(result.locator, "/a..b/..c");
}

#[test]
fn locator_without_path_is_malformed() {
    let result = Request::create_from_request_line("h ?x 0".to_string());
    assert_eq!(result, Err(Error::new_request_error(PARSE_ERR)));
}
