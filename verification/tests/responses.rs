use rix::client::account::whoami_response;
use rix::client::media::upload_response;
use rix::client::message::{send_needs_body, send_response};
use rix::RixError;

fn json_error() -> serde_json::Error {
    serde_json::from_str::<serde_json::Value>("{").unwrap_err()
}

#[test]
fn whoami_ok_gives_the_user_id() {
    let body = br#"{"user_id":"@alice:hs"}"#;
    let res = whoami_response(200, body, Ok("@alice:hs".to_string()));
    assert_eq!(res.unwrap(), "@alice:hs");
}

#[test]
fn whoami_ok_with_bad_json_is_a_json_error() {
    match whoami_response(200, b"{", Err(json_error())) {
        Err(RixError::JSON(_)) => {}
        other => panic!("unexpected {:?}", other),
    }
}

#[test]
fn whoami_error_status_gives_the_body_text() {
    match whoami_response(401, br#"{"errcode":"M_UNKNOWN_TOKEN"}"#, Err(json_error())) {
        Err(RixError::Other(m)) => assert_eq!(m, r#"{"errcode":"M_UNKNOWN_TOKEN"}"#),
        other => panic!("unexpected {:?}", other),
    }
}

#[test]
fn whoami_error_status_keeps_valid_utf8() {
    match whoami_response(403, "é forbidden".as_bytes(), Ok("@x:hs".to_string())) {
        Err(RixError::Other(m)) => assert_eq!(m, "é forbidden"),
        other => panic!("unexpected {:?}", other),
    }
}

#[test]
fn whoami_error_status_replaces_bad_utf8() {
    match whoami_response(500, &[b'a', 0xff, b'b'], Ok("@x:hs".to_string())) {
        Err(RixError::Other(m)) => assert_eq!(m, "a\u{fffd}b"),
        other => panic!("unexpected {:?}", other),
    }
}

#[test]
fn upload_ok_gives_the_content_uri() {
    let res = upload_response(200, br#"{"content_uri":"mxc://hs/abc","x":1}"#.to_vec());
    assert_eq!(res.unwrap(), "mxc://hs/abc");
}

#[test]
fn upload_ok_without_content_uri() {
    for body in [&br#"{"content_uri":5}"#[..], &br#"{}"#[..], &br#"["mxc://x"]"#[..]] {
        match upload_response(200, body.to_vec()) {
            Err(RixError::Other(m)) => {
                assert_eq!(m, "Failed uploading media: content_uri missing in response")
            }
            other => panic!("unexpected {:?}", other),
        }
    }
}

#[test]
fn upload_ok_with_bad_json() {
    match upload_response(200, b"not json".to_vec()) {
        Err(RixError::JSON(_)) => {}
        other => panic!("unexpected {:?}", other),
    }
}

#[test]
fn upload_error_status() {
    match upload_response(413, b"too large".to_vec()) {
        Err(RixError::Other(m)) => assert_eq!(m, "Failed uploading media: too large"),
        other => panic!("unexpected {:?}", other),
    }
    match upload_response(500, vec![0xc3]) {
        Err(RixError::UTF8(_)) => {}
        other => panic!("unexpected {:?}", other),
    }
}

#[test]
fn send_ok() {
    assert!(send_response(200, br#"{"event_id":"$e"}"#.to_vec()).is_ok());
    assert!(send_response(200, vec![0xff]).is_ok());
}

#[test]
fn send_error_status() {
    match send_response(403, b"forbidden".to_vec()) {
        Err(RixError::Other(m)) => assert_eq!(m, "Failed sending message: forbidden"),
        other => panic!("unexpected {:?}", other),
    }
    match send_response(404, vec![0xff, 0xfe]) {
        Err(RixError::UTF8(_)) => {}
        other => panic!("unexpected {:?}", other),
    }
}

#[test]
fn error_conversions() {
    assert!(matches!(RixError::from("x".to_string()), RixError::Other(ref m) if m == "x"));
    assert!(matches!(RixError::from(json_error()), RixError::JSON(_)));
    let utf8 = String::from_utf8(vec![0xff]).unwrap_err();
    assert!(matches!(RixError::from(utf8), RixError::UTF8(_)));
}

#[test]
fn send_reads_the_body_of_failures_only() {
    assert!(!send_needs_body(200));
    assert!(send_needs_body(201));
    assert!(send_needs_body(500));
}
