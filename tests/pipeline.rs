use rustan::configuration::Configuration;
use rustan::error::{Error, ErrorKind};
use rustan::mime::filename_to_mime;
use rustan::pipe::connection::{line_from_bytes, BodyBuffer};
use rustan::pipe::directory::{listing_response, DirEntry};
use rustan::pipe::file::{decode_cgi_output, resolve_path};
use rustan::pipe::router::{is_directory_locator, join, plain_host, select_host};
use rustan::pipe::{error_handler_middleware, upload_data_size_check, Action, Event, Session};
use rustan::protocol::request::Request;
use rustan::protocol::response::{Response, StatusCode};

#[test]
fn is_directory_locator_test() {
    assert_eq!(is_directory_locator("/".to_string()), true);
    assert_eq!(is_directory_locator("/some path/".to_string()), true);
    assert_eq!(
        is_directory_locator("/nested/path/to/directory/".to_string()),
        true
    );
    assert_eq!(is_directory_locator("/index.gmi".to_string()), false);
    assert_eq!(
        is_directory_locator("/long/path/to/file".to_string()),
        false
    );
}

#[test]
fn empty_locator_is_not_a_directory() {
    assert!(!is_directory_locator(String::new()));
}

#[test]
fn join_paths() {
    assert_eq!(join("./", "h"), "./h");
    assert_eq!(join("/srv", "h"), "/srv/h");
    assert_eq!(join("", "h"), "h");
    assert_eq!(resolve_path(&"/srv".to_string(), &"h".to_string(), &"/a/b.gmi".to_string()), "/srv/h/a/b.gmi");
    assert_eq!(resolve_path(&"/srv".to_string(), &"h".to_string(), &"//etc/passwd".to_string()), "/srv/h//etc/passwd");
}

#[test]
fn host_selection() {
    assert_eq!(select_host("h".to_string(), true, true), Some("h".to_string()));
    assert_eq!(select_host("h".to_string(), false, true), Some("any".to_string()));
    assert_eq!(select_host("h".to_string(), false, false), None);
}

#[test]
fn only_plain_host_names_have_own_directories() {
    assert_eq!(select_host("..".to_string(), true, true), Some("any".to_string()));
    assert_eq!(select_host(".".to_string(), true, false), None);
    assert_eq!(select_host("a/b".to_string(), true, true), Some("any".to_string()));
    assert_eq!(select_host(String::new(), true, false), None);
    assert!(plain_host(&"host.com".to_string()));
    assert!(plain_host(&"...".to_string()));
    assert!(!plain_host(&"..".to_string()));
}

#[test]
fn parent_host_is_not_served_from_outside_the_root() {
    let s = start("/srv", 4096);
    let (s, _) = s.step(Event::Line(b".. /etc/passwd 0\r\n".to_vec()));
    let (_, a) = s.step(Event::Hosts { any_exists: false, host_exists: true });
    let (header, _) = respond_parts(a);
    assert_eq!(header, b"5 Host not served\r\n".to_vec());
}

#[test]
fn cgi_output_is_decoded() {
    let r = decode_cgi_output(b"2 text/plain\r\nHello".to_vec()).unwrap();
    assert_eq!(
        r,
        Response {
            status_code: StatusCode::Success,
            status_line: "text/plain".to_string(),
            content: Some(b"Hello".to_vec()),
        }
    );
}

#[test]
fn cgi_output_unknown_digit_is_server_error() {
    let r = decode_cgi_output(b"x oops\nbody".to_vec()).unwrap();
    assert_eq!(r.status_code, StatusCode::ServerError);
    assert_eq!(r.status_line, "oops");
    assert_eq!(r.content, Some(b"body".to_vec()));
}

#[test]
fn cgi_output_two_digit_token_is_server_error() {
    let r = decode_cgi_output(b"25 x\n".to_vec()).unwrap();
    assert_eq!(r.status_code, StatusCode::ServerError);
    assert_eq!(r.status_line, "x");
}

#[test]
fn cgi_output_redirect_without_body() {
    let r = decode_cgi_output(b"3 /elsewhere\n".to_vec()).unwrap();
    assert_eq!(r.status_code, StatusCode::Redirect);
    assert_eq!(r.status_line, "/elsewhere");
    assert_eq!(r.content, Some(Vec::new()));
}

#[test]
fn cgi_output_empty() {
    let r = decode_cgi_output(Vec::new()).unwrap();
    assert_eq!(r.status_code, StatusCode::ServerError);
    assert_eq!(r.status_line, "");
    assert_eq!(r.content, Some(Vec::new()));
}

#[test]
fn cgi_output_invalid_text_is_io_error() {
    let e = decode_cgi_output(vec![b'2', b' ', 0xFF, b'\n']).unwrap_err();
    assert_eq!(e.kind, ErrorKind::Io);
}

#[test]
fn listing_of_a_directory() {
    let entries = vec![
        DirEntry { name: "a.gmi".to_string(), is_dir: false },
        DirEntry { name: ".listfiles".to_string(), is_dir: false },
        DirEntry { name: "sub".to_string(), is_dir: true },
    ];
    let r = listing_response(&"/dir/".to_string(), b"Header\r\n".to_vec(), &entries);
    assert_eq!(r.status_code, StatusCode::Success);
    assert_eq!(r.status_line, "text/gemini");
    assert_eq!(
        r.content,
        Some(b"Header\r\n\r\n=> /dir/a.gmi a.gmi\r\n=> /dir/sub/ <sub>\r\n".to_vec())
    );
}

#[test]
fn listing_escapes_names_in_links() {
    let entries = vec![DirEntry { name: "a b.txt".to_string(), is_dir: false }];
    let r = listing_response(&"/".to_string(), Vec::new(), &entries);
    assert_eq!(r.content, Some(b"\r\n=> /a%20b.txt a b.txt\r\n".to_vec()));
}

#[test]
fn listing_keeps_enumeration_order_and_escapes_utf8() {
    let entries = vec![
        DirEntry { name: "sub".to_string(), is_dir: true },
        DirEntry { name: "é~.txt".to_string(), is_dir: false },
        DirEntry { name: ".listfiles".to_string(), is_dir: false },
    ];
    let r = listing_response(&"/".to_string(), b"H".to_vec(), &entries);
    assert_eq!(
        r.content,
        Some("H\r\n=> /sub/ <sub>\r\n=> /%C3%A9~.txt é~.txt\r\n".as_bytes().to_vec())
    );
}

#[test]
fn mime_from_name() {
    assert_eq!(filename_to_mime("x/a.txt".to_string()), "text/plain");
    assert_eq!(filename_to_mime("x/a.gmi".to_string()), "text/gemini");
    assert_eq!(filename_to_mime("noext".to_string()), "application/octet-stream");
}

#[test]
fn request_line_from_bytes() {
    assert_eq!(line_from_bytes(b"h /a 0\r\n".to_vec()).unwrap(), "h /a 0");
    assert_eq!(line_from_bytes(b"h /a 0".to_vec()).unwrap(), "h /a 0");
    assert_eq!(line_from_bytes(vec![0xC3, 0xA9, b'\n']).unwrap(), "é");
    assert_eq!(line_from_bytes(vec![0xFF, b'\n']).unwrap_err().kind, ErrorKind::Io);
}

#[test]
fn body_buffer_collects_chunks() {
    let mut b = BodyBuffer::new(5);
    assert_eq!(b.remaining(), 5);
    assert!(b.push_chunk(b"ab".to_vec()));
    assert_eq!(b.remaining(), 3);
    assert!(!b.push_chunk(b"cde".to_vec()));
    assert_eq!(b.into_bytes(), b"abcde".to_vec());
    let mut short = BodyBuffer::new(4);
    assert!(short.push_chunk(b"a".to_vec()));
    assert!(!short.push_chunk(Vec::new()));
    assert_eq!(short.into_bytes(), b"a".to_vec());
}

#[test]
fn upload_limit() {
    let r = Request::create_from_request_line("h /a 10".to_string()).unwrap();
    assert!(upload_data_size_check(r.clone(), 10).is_ok());
    assert_eq!(
        upload_data_size_check(r, 9),
        Err(Error::new_request_error("Upload too big"))
    );
}

#[test]
fn middleware_maps_errors() {
    let r = error_handler_middleware(Err(Error::new_io("gone")));
    assert_eq!(r.status_code, StatusCode::ServerError);
    assert_eq!(r.status_line, "Io error: gone");
    let ok = Response::new_redirect("/x".to_string());
    assert_eq!(error_handler_middleware(Ok(ok.clone())), ok);
}

#[test]
fn configuration_values() {
    let c = Configuration::from_values(None, None, None).unwrap();
    assert_eq!(c.host, "0.0.0.0:300");
    assert_eq!(c.root_path, "./");
    assert_eq!(c.max_upload_size, 4096);
    let c = Configuration::from_values(
        Some("127.0.0.1:1".to_string()),
        Some("/srv".to_string()),
        Some("10".to_string()),
    )
    .unwrap();
    assert_eq!(c.host, "127.0.0.1:1");
    assert_eq!(c.root_path, "/srv");
    assert_eq!(c.max_upload_size, 10);
    let e = Configuration::from_values(None, None, Some("ten".to_string())).unwrap_err();
    assert_eq!(e.kind, ErrorKind::Io);
    let d = Configuration::default();
    assert_eq!(d.max_upload_size, 8388608);
    let n = Configuration::new("a".to_string(), "b".to_string(), 3);
    assert_eq!(n.max_upload_size, 3);
}

fn respond_parts(a: Action) -> (Vec<u8>, Option<Vec<u8>>) {
    match a {
        Action::Respond { header, content } => (header, content),
        _ => panic!("expected a response"),
    }
}

fn start(root: &str, max: usize) -> Session {
    let (s, a) = Session::start(root.to_string(), max);
    assert!(matches!(a, Action::ReadLine));
    s
}

#[test]
fn host_not_served_end_to_end() {
    let s = start("/srv", 4096);
    let (s, a) = s.step(Event::Line(b"host.com /missing.gmi 0\r\n".to_vec()));
    match a {
        Action::ProbeHosts { any_dir, host_dir } => {
            assert_eq!(any_dir, "/srv/any");
            assert_eq!(host_dir, "/srv/host.com");
        }
        _ => panic!("expected host probes"),
    }
    let (s, a) = s.step(Event::Hosts { any_exists: false, host_exists: false });
    let (header, content) = respond_parts(a);
    assert_eq!(header, b"5 Host not served\r\n".to_vec());
    assert_eq!(content, None);
    let (s, a) = s.step(Event::Written);
    assert!(matches!(a, Action::Close));
    assert!(s.is_done());
}

#[test]
fn existing_file_end_to_end() {
    let s = start("/srv", 4096);
    let (s, _) = s.step(Event::Line(b"h /index.gmi 0\r\n".to_vec()));
    let (s, a) = s.step(Event::Hosts { any_exists: false, host_exists: true });
    match a {
        Action::ProbeExecutable(p) => assert_eq!(p, "/srv/h/index.gmi"),
        _ => panic!("expected an executable probe"),
    }
    let (s, a) = s.step(Event::Executable(false));
    match a {
        Action::ReadFile(p) => assert_eq!(p, "/srv/h/index.gmi"),
        _ => panic!("expected a file read"),
    }
    let (_, a) = s.step(Event::Content(Ok(b"# Hi\n".to_vec())));
    let (header, content) = respond_parts(a);
    assert_eq!(header, b"2 text/gemini\r\n".to_vec());
    assert_eq!(content, Some(b"# Hi\n".to_vec()));
}

#[test]
fn named_host_wins_over_any() {
    let s = start("/srv", 4096);
    let (s, _) = s.step(Event::Line(b"h /f 0\r\n".to_vec()));
    let (_, a) = s.step(Event::Hosts { any_exists: true, host_exists: true });
    match a {
        Action::ProbeExecutable(p) => assert_eq!(p, "/srv/h/f"),
        _ => panic!("expected an executable probe"),
    }
}

#[test]
fn unknown_host_falls_back_to_any() {
    let s = start("/srv", 4096);
    let (s, _) = s.step(Event::Line(b"h /f 0\r\n".to_vec()));
    let (_, a) = s.step(Event::Hosts { any_exists: true, host_exists: false });
    match a {
        Action::ProbeExecutable(p) => assert_eq!(p, "/srv/any/f"),
        _ => panic!("expected an executable probe"),
    }
}

#[test]
fn oversized_upload_is_refused_without_reading() {
    let s = start("/srv", 4);
    let (s, a) = s.step(Event::Line(b"h /cgi 5\r\n".to_vec()));
    let (header, content) = respond_parts(a);
    assert_eq!(header, b"4 Request error: Upload too big\r\n".to_vec());
    assert_eq!(content, None);
    let (_, a) = s.step(Event::Body(b"12345".to_vec()));
    assert!(matches!(a, Action::Close));
}

#[test]
fn malformed_line_is_client_error() {
    let s = start("/srv", 4);
    let (_, a) = s.step(Event::Line(b"\r\n".to_vec()));
    let (header, _) = respond_parts(a);
    assert_eq!(header, b"4 Request error: Empty request\r\n".to_vec());
    let s = start("/srv", 4);
    let (_, a) = s.step(Event::Line(b"a b\r\n".to_vec()));
    let (header, _) = respond_parts(a);
    assert_eq!(header, b"4 Request error: Can't parse request string\r\n".to_vec());
}

#[test]
fn unreadable_line_closes() {
    let s = start("/srv", 4);
    let (s, a) = s.step(Event::Line(vec![0xFF, b'\n']));
    match a {
        Action::Abort(e) => assert_eq!(e.kind, ErrorKind::Io),
        _ => panic!("expected an abort"),
    }
    assert!(s.is_done());
}

#[test]
fn transport_failures_abort() {
    let s = start("/srv", 4);
    let (_, a) = s.step(Event::Failed(Error::new_io("reset")));
    match a {
        Action::Abort(e) => assert_eq!(e, Error::new_io("reset")),
        _ => panic!("expected an abort"),
    }
    let s = start("/srv", 4096);
    let (s, _) = s.step(Event::Line(b"h /missing 0\r\n".to_vec()));
    let (s, a) = s.step(Event::Hosts { any_exists: false, host_exists: false });
    assert!(matches!(a, Action::Respond { .. }));
    let (s, a) = s.step(Event::Failed(Error::new_io("broken pipe")));
    match a {
        Action::Abort(e) => assert_eq!(e, Error::new_io("broken pipe")),
        _ => panic!("expected an abort"),
    }
    assert!(s.is_done());
}

#[test]
fn body_goes_to_cgi() {
    let s = start("/srv", 4096);
    let (s, a) = s.step(Event::Line(b"h /run 3\r\n".to_vec()));
    assert!(matches!(a, Action::ReadBody(3)));
    let (s, _) = s.step(Event::Body(b"abc".to_vec()));
    let (s, _) = s.step(Event::Hosts { any_exists: false, host_exists: true });
    let (s, a) = s.step(Event::Executable(true));
    match a {
        Action::RunCgi { path, input } => {
            assert_eq!(path, "/srv/h/run");
            assert_eq!(input, b"abc".to_vec());
        }
        _ => panic!("expected a program run"),
    }
    let (_, a) = s.step(Event::Content(Ok(b"2 text/plain\r\nHello".to_vec())));
    let (header, content) = respond_parts(a);
    assert_eq!(header, b"2 text/plain\r\n".to_vec());
    assert_eq!(content, Some(b"Hello".to_vec()));
}

#[test]
fn short_body_is_client_error() {
    let s = start("/srv", 4096);
    let (s, _) = s.step(Event::Line(b"h /run 3\r\n".to_vec()));
    let (_, a) = s.step(Event::Body(b"ab".to_vec()));
    let (header, _) = respond_parts(a);
    assert_eq!(header, b"4 Request error: Wrong data size\r\n".to_vec());
}

#[test]
fn body_for_plain_file_is_not_allowed() {
    let s = start("/srv", 4096);
    let (s, _) = s.step(Event::Line(b"h /f.txt 1\r\n".to_vec()));
    let (s, _) = s.step(Event::Body(b"x".to_vec()));
    let (s, _) = s.step(Event::Hosts { any_exists: false, host_exists: true });
    let (_, a) = s.step(Event::Executable(false));
    let (header, _) = respond_parts(a);
    assert_eq!(header, b"4 Not allowed\r\n".to_vec());
}

#[test]
fn missing_file_is_server_error() {
    let s = start("/srv", 4096);
    let (s, _) = s.step(Event::Line(b"h /f.txt 0\r\n".to_vec()));
    let (s, _) = s.step(Event::Hosts { any_exists: false, host_exists: true });
    let (s, _) = s.step(Event::Executable(false));
    let (_, a) = s.step(Event::Content(Err(Error::new_io("No such file"))));
    let (header, _) = respond_parts(a);
    assert_eq!(header, b"5 Io error: No such file\r\n".to_vec());
}

#[test]
fn directory_falls_back_to_listing() {
    let s = start("/srv", 4096);
    let (s, _) = s.step(Event::Line(b"h /d/ 0\r\n".to_vec()));
    let (s, a) = s.step(Event::Hosts { any_exists: false, host_exists: true });
    match a {
        Action::ProbeExecutable(p) => assert_eq!(p, "/srv/h/d/index.gmi"),
        _ => panic!("expected an executable probe"),
    }
    let (s, _) = s.step(Event::Executable(false));
    let (s, a) = s.step(Event::Content(Err(Error::new_io("missing"))));
    match a {
        Action::ProbeExecutable(p) => assert_eq!(p, "/srv/h/d/index.txt"),
        _ => panic!("expected an executable probe"),
    }
    let (s, _) = s.step(Event::Executable(false));
    let (s, a) = s.step(Event::Content(Err(Error::new_io("missing"))));
    match a {
        Action::ReadFile(p) => assert_eq!(p, "/srv/h/d/.listfiles"),
        _ => panic!("expected the list file read"),
    }
    let (s, a) = s.step(Event::Content(Ok(b"Header\r\n".to_vec())));
    match a {
        Action::ListEntries(p) => assert_eq!(p, "/srv/h/d/"),
        _ => panic!("expected a directory listing"),
    }
    let entries = vec![
        DirEntry { name: "a.gmi".to_string(), is_dir: false },
        DirEntry { name: "sub".to_string(), is_dir: true },
    ];
    let (_, a) = s.step(Event::Entries(Ok(entries)));
    let (header, content) = respond_parts(a);
    assert_eq!(header, b"2 text/gemini\r\n".to_vec());
    assert_eq!(
        content,
        Some(b"Header\r\n\r\n=> /d/a.gmi a.gmi\r\n=> /d/sub/ <sub>\r\n".to_vec())
    );
}

#[test]
fn directory_without_list_file_is_not_allowed() {
    let s = start("/srv", 4096);
    let (s, _) = s.step(Event::Line(b"h / 0\r\n".to_vec()));
    let (s, _) = s.step(Event::Hosts { any_exists: true, host_exists: false });
    let (s, _) = s.step(Event::Executable(false));
    let (s, _) = s.step(Event::Content(Err(Error::new_io("missing"))));
    let (s, _) = s.step(Event::Executable(false));
    let (s, a) = s.step(Event::Content(Err(Error::new_io("missing"))));
    match a {
        Action::ReadFile(p) => assert_eq!(p, "/srv/any/.listfiles"),
        _ => panic!("expected the list file read"),
    }
    let (_, a) = s.step(Event::Content(Err(Error::new_io("missing"))));
    let (header, _) = respond_parts(a);
    assert_eq!(header, b"5 Request error: Not allowed\r\n".to_vec());
}

#[test]
fn index_found_stops_the_fallback() {
    let s = start("/srv", 4096);
    let (s, _) = s.step(Event::Line(b"h /d/ 0\r\n".to_vec()));
    let (s, _) = s.step(Event::Hosts { any_exists: false, host_exists: true });
    let (s, _) = s.step(Event::Executable(false));
    let (_, a) = s.step(Event::Content(Ok(b"index".to_vec())));
    let (header, content) = respond_parts(a);
    assert_eq!(header, b"2 text/gemini\r\n".to_vec());
    assert_eq!(content, Some(b"index".to_vec()));
}
