use rix::client::account::whoami_request;
use rix::client::media::upload_request;
use rix::client::message::{
    file_content, image_content, send_image_request, send_message_internal, send_message_request,
    send_request, text_content,
};
use rix::client::sync::sync_request;
use rix::http::{prepare, Endpoint, Headers, HttpRequest, Method};
use rix::Client;
use rix::RixError;

fn txn_of(uri: &str, prefix: &str, suffix: &str) -> String {
    assert!(uri.starts_with(prefix), "{} does not start with {}", uri, prefix);
    assert!(uri.ends_with(suffix), "{} does not end with {}", uri, suffix);
    uri[prefix.len()..uri.len() - suffix.len()].to_string()
}

#[test]
fn whoami_request_is_a_bare_get() {
    let req = whoami_request("https://hs.example", "tok");
    assert_eq!(req.method, Method::Get);
    assert_eq!(req.uri, "https://hs.example/_matrix/client/r0/account/whoami?access_token=tok");
    assert!(matches!(req.headers, Headers::Bare));
    assert!(req.body.is_empty());
}

#[test]
fn sync_request_from_the_start() {
    let req = sync_request("https://hs", "abc", None);
    assert_eq!(req.method, Method::Get);
    assert_eq!(req.uri, "https://hs/_matrix/client/r0/sync?access_token=abc");
    assert!(matches!(req.headers, Headers::Bare));
    assert!(req.body.is_empty());
}

#[test]
fn sync_request_from_a_batch() {
    let req = sync_request("https://hs", "abc", Some("s72594_4483".to_string()));
    assert_eq!(
        req.uri,
        "https://hs/_matrix/client/r0/sync?access_token=abc&since=s72594_4483&timeout=30000"
    );
}

#[test]
fn upload_request_encodes_the_file_name() {
    let req = upload_request("https://hs", "tok", "text/plain", "my file&x=1.txt", vec![1, 2, 3]);
    assert_eq!(req.method, Method::Post);
    assert_eq!(
        req.uri,
        "https://hs/_matrix/media/r0/upload?filename=my%20file%26x%3D1.txt&access_token=tok"
    );
    match &req.headers {
        Headers::ContentType(t) => assert_eq!(t, "text/plain"),
        other => panic!("unexpected headers {:?}", other),
    }
    assert_eq!(req.body, vec![1, 2, 3]);
}

#[test]
fn upload_request_encodes_non_ascii_as_utf8_bytes() {
    let req = upload_request("h", "t", "image/png", "é~a-b_c.d/", Vec::new());
    assert_eq!(req.uri, "h/_matrix/media/r0/upload?filename=%C3%A9~a-b_c.d%2F&access_token=t");
}

#[test]
fn message_contents_are_json_objects() {
    assert_eq!(text_content("hi"), r#"{"body":"hi","msgtype":"m.text"}"#);
    assert_eq!(
        image_content("mxc://hs/abc", "cat.png"),
        r#"{"body":"cat.png","msgtype":"m.image","url":"mxc://hs/abc"}"#
    );
    assert_eq!(
        file_content("mxc://hs/f", "a \"quoted\" name"),
        r#"{"body":"a \"quoted\" name","msgtype":"m.file","url":"mxc://hs/f"}"#
    );
}

#[test]
fn message_content_reads_back() {
    let content = text_content("pong");
    let v: serde_json::Value = serde_json::from_str(&content).unwrap();
    assert_eq!(v["body"], "pong");
    assert_eq!(v["msgtype"], "m.text");
    assert!(v.get("url").is_none());
}

fn member_names(content: &str) -> Vec<String> {
    let v: serde_json::Value = serde_json::from_str(content).unwrap();
    let mut names: Vec<String> = v.as_object().unwrap().keys().cloned().collect();
    names.sort();
    names
}

#[test]
fn message_contents_have_exactly_their_members() {
    let msg = r#"a"b\c"#;
    let text: serde_json::Value = serde_json::from_str(&text_content(msg)).unwrap();
    let mut expected = serde_json::Map::new();
    expected.insert("msgtype".to_string(), serde_json::Value::String("m.text".to_string()));
    expected.insert("body".to_string(), serde_json::Value::String(msg.to_string()));
    assert_eq!(text, serde_json::Value::Object(expected));
    assert_eq!(member_names(&image_content("mxc://i", "i")), vec!["body", "msgtype", "url"]);
    assert_eq!(member_names(&file_content("mxc://f", "f")), vec!["body", "msgtype", "url"]);
}

#[test]
fn send_request_with_a_given_txn() {
    let req = send_request("https://hs", "tok", "!room:hs", "abcDEF0123456789", "{\"a\":\"é\"}".to_string());
    assert_eq!(req.method, Method::Put);
    assert_eq!(
        req.uri,
        "https://hs/_matrix/client/r0/rooms/!room:hs/send/m.room.message/abcDEF0123456789?access_token=tok"
    );
    match &req.headers {
        Headers::ContentTypeAndLength(t, n) => {
            assert_eq!(t, "application/json");
            assert_eq!(*n, 10);
        }
        other => panic!("unexpected headers {:?}", other),
    }
    assert_eq!(req.body, "{\"a\":\"é\"}".as_bytes().to_vec());
}

#[test]
fn send_message_uses_a_random_sixteen_char_txn() {
    let prefix = "https://hs/_matrix/client/r0/rooms/!r:hs/send/m.room.message/";
    let suffix = "?access_token=tok";
    let req = send_message_request("https://hs", "tok", "!r:hs", "ping");
    let txn = txn_of(&req.uri, prefix, suffix);
    assert_eq!(txn.chars().count(), 16);
    assert!(txn.chars().all(|c| c.is_ascii_alphanumeric()));
    assert_eq!(req.body, text_content("ping").into_bytes());
    let other = send_message_request("https://hs", "tok", "!r:hs", "ping");
    let txn2 = txn_of(&other.uri, prefix, suffix);
    assert_ne!(txn, txn2);
}

#[test]
fn send_image_request_carries_the_url() {
    let req = send_image_request("h", "t", "!r", "mxc://x", "pic");
    assert_eq!(req.body, image_content("mxc://x", "pic").into_bytes());
    let internal = send_message_internal("h", "t", "!r", "raw".to_string());
    assert_eq!(internal.body, b"raw".to_vec());
}

#[test]
fn client_builds_the_same_requests() {
    let client = Client::new("https://hs".to_string(), "tok".to_string());
    assert_eq!(client.host(), "https://hs");
    assert_eq!(client.token(), "tok");
    assert_eq!(client.whoami_request().uri, whoami_request("https://hs", "tok").uri);
    assert_eq!(
        client.sync_request(Some("b".to_string())).uri,
        sync_request("https://hs", "tok", Some("b".to_string())).uri
    );
    let up = client.upload_media_request("text/plain", "a b", vec![9]);
    assert_eq!(up.uri, upload_request("https://hs", "tok", "text/plain", "a b", vec![9]).uri);
    let file = client.send_file_request("!r", "mxc://f", "f.txt");
    assert_eq!(file.body, file_content("mxc://f", "f.txt").into_bytes());
    let msg = client.send_message_request("!r", "x");
    assert!(msg.uri.starts_with("https://hs/_matrix/client/r0/rooms/!r/send/m.room.message/"));
    let img = client.send_image_request("!r", "mxc://i", "i");
    assert_eq!(img.body, image_content("mxc://i", "i").into_bytes());
    let stream = client.sync_stream();
    assert_eq!(stream.next_request().uri, "https://hs/_matrix/client/r0/sync?access_token=tok");
}

#[test]
fn prepare_accepts_well_formed_requests() {
    assert!(prepare(whoami_request("https://hs.example", "tok"), Endpoint::Whoami).is_ok());
    let typed = upload_request("https://hs", "t", "text/plain", "f", vec![1]);
    assert!(prepare(typed, Endpoint::Upload).is_ok());
    let sized = send_request("https://hs", "t", "!r", "abc", "{}".to_string());
    assert!(prepare(sized, Endpoint::SendMessage).is_ok());
}

#[test]
fn prepare_builds_the_request_it_is_given() {
    let req = send_request("https://hs", "t", "!r", "abc", "{\"k\":1}".to_string());
    let built = prepare(req, Endpoint::SendMessage).unwrap();
    assert_eq!(built.method(), &hyper::Method::PUT);
    assert_eq!(built.uri().to_string(), "https://hs/_matrix/client/r0/rooms/!r/send/m.room.message/abc?access_token=t");
    assert_eq!(built.headers()[hyper::header::CONTENT_TYPE], "application/json");
    assert_eq!(built.headers()[hyper::header::CONTENT_LENGTH], "7");
    let up = prepare(upload_request("https://hs", "t", "image/png", "f", vec![7]), Endpoint::Upload).unwrap();
    assert_eq!(up.method(), &hyper::Method::POST);
    assert_eq!(up.headers()[hyper::header::CONTENT_TYPE], "image/png");
    assert!(up.headers().get(hyper::header::CONTENT_LENGTH).is_none());
    let get = prepare(whoami_request("https://hs", "t"), Endpoint::Whoami).unwrap();
    assert_eq!(get.method(), &hyper::Method::GET);
    assert!(get.headers().is_empty());
}

#[test]
fn prepare_refuses_a_bad_uri() {
    let req = whoami_request("not a host", "tok");
    match prepare(req, Endpoint::Whoami) {
        Err(RixError::Other(m)) => {
            assert!(m.starts_with("Failed to construct whoami request: "));
            assert!(m.len() > "Failed to construct whoami request: ".len());
        }
        other => panic!("unexpected {:?}", other.map(|_| ())),
    }
    let req = sync_request("bad host", "t", None);
    match prepare(req, Endpoint::Sync) {
        Err(RixError::Other(m)) => assert!(m.starts_with("Unable to create request: ")),
        other => panic!("unexpected {:?}", other.map(|_| ())),
    }
}

#[test]
fn prepare_refuses_a_bad_content_type() {
    let req = upload_request("https://hs", "t", "text/plain\n", "f", Vec::new());
    match prepare(req, Endpoint::Upload) {
        Err(RixError::Other(m)) => assert!(m.starts_with("Failed to construct request: ")),
        other => panic!("unexpected {:?}", other.map(|_| ())),
    }
    let req = HttpRequest {
        method: Method::Put,
        uri: "https://hs/x".to_string(),
        headers: Headers::ContentTypeAndLength("a\u{7f}".to_string(), 0),
        body: Vec::new(),
    };
    assert!(prepare(req, Endpoint::SendMessage).is_err());
}
