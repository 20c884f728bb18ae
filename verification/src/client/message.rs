//! `PUT /rooms/{room}/send/m.room.message/{txn}`: messages to a room.
use vstd::prelude::*;
use vstd::string::*;
use vstd::utf8::*;
use crate::error::RixError;
use crate::http::{Headers, HttpRequest, Method};
use crate::json::json_string_object;
use crate::text::{random_alphanumeric, string_from_utf8};

verus! {

/// The (name, value) pairs of a message event's content: its `msgtype`,
/// then `url` when the message points at uploaded media, then `body`.
pub open spec fn message_fields(
    msgtype: Seq<char>,
    url: Option<Seq<char>>,
    body: Seq<char>,
) -> Seq<(Seq<char>, Seq<char>)> {
    match url {
        Some(u) => seq![("msgtype"@, msgtype), ("url"@, u), ("body"@, body)],
        None => seq![("msgtype"@, msgtype), ("body"@, body)],
    }
}

/// The JSON text of a message event's content.
pub open spec fn message_content(msgtype: Seq<char>, url: Option<Seq<char>>, body: Seq<char>) -> Seq<
    char,
> {
    crate::json::json_object_text(message_fields(msgtype, url, body))
}

/// The member names of a message's content: `msgtype` and `body`, and
/// `url` when the message points at uploaded media.
pub open spec fn content_names(url: Option<Seq<char>>) -> Set<Seq<char>> {
    match url {
        Some(_) => set!["msgtype"@, "url"@, "body"@],
        None => set!["msgtype"@, "body"@],
    }
}

/// Reading the JSON text of a message's content back gives exactly the
/// object of the message: its members are `content_names(url)`, with the
/// type under `msgtype`, the text under `body` and the URL, if any, under
/// `url`; under any other name there is no string.
pub open spec fn content_reads_back(
    content: Seq<char>,
    msgtype: Seq<char>,
    url: Option<Seq<char>>,
    body: Seq<char>,
) -> bool {
    let bytes = encode_utf8(content);
    &&& crate::json::json_member_names(bytes) == Some(content_names(url))
    &&& crate::json::json_member_text(bytes, "msgtype"@) == Some(Some(msgtype))
    &&& crate::json::json_member_text(bytes, "body"@) == Some(Some(body))
    &&& crate::json::json_member_text(bytes, "url"@) == Some(url)
    &&& forall|k: Seq<char>|
        !content_names(url).contains(k) ==> #[trigger] crate::json::json_member_text(bytes, k)
            == Some(None::<Seq<char>>)
}

/// The three member names of a message's content differ.
proof fn lemma_member_names_differ()
    ensures
        "msgtype"@ != "body"@,
        "msgtype"@ != "url"@,
        "url"@ != "body"@,
{
    reveal_strlit("msgtype");
    reveal_strlit("body");
    reveal_strlit("url");
    assert("msgtype"@.len() != "body"@.len());
    assert("msgtype"@.len() != "url"@.len());
    assert("url"@[0] != "body"@[0]);
}

/// The content of a text message: `{"msgtype": "m.text", "body": msg}`.
pub fn text_content(msg: &str) -> (content: String)
    ensures
        content@ == message_content("m.text"@, None, msg@),
        content_reads_back(content@, "m.text"@, None, msg@),
{
    let mut fields: Vec<(String, String)> = Vec::new();
    fields.push((String::from_str("msgtype"), String::from_str("m.text")));
    fields.push((String::from_str("body"), String::from_str(msg)));
    proof {
        assert(crate::json::pairs_view(fields@) =~= message_fields("m.text"@, None, msg@));
        lemma_member_names_differ();
    }
    let ghost fs = fields@;
    let content = json_string_object(fields);
    proof {
        let pv = crate::json::pairs_view(fs);
        assert(fs[0].0@ == "msgtype"@);
        assert(fs[1].0@ == "body"@);
        assert(pv[0].0 == "msgtype"@);
        assert(pv[1].0 == "body"@);
        assert(forall|i: int| 0 <= i < fs.len() ==> #[trigger] fs[i].0@ != "url"@);
        assert(crate::json::field_names(pv) =~= content_names(None));
        assert forall|k: Seq<char>| !content_names(None).contains(k) implies (forall|i: int|
            0 <= i < fs.len() ==> #[trigger] fs[i].0@ != k) by {
            assert(k != "msgtype"@ && k != "body"@);
        }
    }
    content
}

/// The content of a message that shows uploaded media: `msgtype`, then
/// the media's `url`, then the message `body`.
fn media_content(msgtype: &str, url: &str, msg: &str) -> (content: String)
    ensures
        content@ == message_content(msgtype@, Some(url@), msg@),
        content_reads_back(content@, msgtype@, Some(url@), msg@),
{
    let mut fields: Vec<(String, String)> = Vec::new();
    fields.push((String::from_str("msgtype"), String::from_str(msgtype)));
    fields.push((String::from_str("url"), String::from_str(url)));
    fields.push((String::from_str("body"), String::from_str(msg)));
    proof {
        assert(crate::json::pairs_view(fields@) =~= message_fields(msgtype@, Some(url@), msg@));
        lemma_member_names_differ();
    }
    let ghost fs = fields@;
    let content = json_string_object(fields);
    proof {
        let pv = crate::json::pairs_view(fs);
        assert(fs[0].0@ == "msgtype"@);
        assert(fs[1].0@ == "url"@);
        assert(fs[2].0@ == "body"@);
        assert(pv[0].0 == "msgtype"@);
        assert(pv[1].0 == "url"@);
        assert(pv[2].0 == "body"@);
        assert(crate::json::field_names(pv) =~= content_names(Some(url@)));
        assert forall|k: Seq<char>| !content_names(Some(url@)).contains(k) implies (forall|i: int|
            0 <= i < fs.len() ==> #[trigger] fs[i].0@ != k) by {
            assert(k != "msgtype"@ && k != "url"@ && k != "body"@);
        }
    }
    content
}

/// The content of an image message: `m.image` with the image's URL.
pub fn image_content(url: &str, msg: &str) -> (content: String)
    ensures
        content@ == message_content("m.image"@, Some(url@), msg@),
        content_reads_back(content@, "m.image"@, Some(url@), msg@),
{
    media_content("m.image", url, msg)
}

/// The content of a file message: `m.file` with the file's URL.
pub fn file_content(url: &str, msg: &str) -> (content: String)
    ensures
        content@ == message_content("m.file"@, Some(url@), msg@),
        content_reads_back(content@, "m.file"@, Some(url@), msg@),
{
    media_content("m.file", url, msg)
}

/// The length of a transaction id.
pub const TXN_ID_LEN: usize = 16;

/// A transaction id: sixteen ASCII letters and digits.
pub open spec fn is_txn_id(id: Seq<char>) -> bool {
    &&& id.len() == TXN_ID_LEN
    &&& forall|i: int| 0 <= i < id.len() ==> crate::text::is_ascii_alphanumeric(#[trigger] id[i])
}

/// The URI that sends a message event to `room` under transaction `txn`.
pub open spec fn send_uri(host: Seq<char>, token: Seq<char>, room: Seq<char>, txn: Seq<char>) -> Seq<
    char,
> {
    host + "/_matrix/client/r0/rooms/"@ + room + "/send/m.room.message/"@ + txn + "?access_token="@
        + token
}

/// The URI of a send is the homeserver, `/_matrix/client/r0/rooms/`, the
/// whole room id, `/send/m.room.message/`, the transaction id,
/// `?access_token=`, and the whole access token, and nothing more.
pub proof fn lemma_send_uri_parts(host: Seq<char>, token: Seq<char>, room: Seq<char>, txn: Seq<char>)
    ensures
        ({
            let u = send_uri(host, token, room, txn);
            let rooms = "/_matrix/client/r0/rooms/"@;
            let send = "/send/m.room.message/"@;
            let key = "?access_token="@;
            let a = host.len() as int;
            let b = a + rooms.len();
            let c = b + room.len();
            let d = c + send.len();
            let e = d + txn.len();
            let f = e + key.len();
            &&& u.len() == f + token.len()
            &&& crate::text::stands_at(u, 0, host)
            &&& crate::text::stands_at(u, a, rooms)
            &&& crate::text::stands_at(u, b, room)
            &&& crate::text::stands_at(u, c, send)
            &&& crate::text::stands_at(u, d, txn)
            &&& crate::text::stands_at(u, e, key)
            &&& crate::text::stands_at(u, f, token)
        }),
{
    let u = send_uri(host, token, room, txn);
    let rooms = "/_matrix/client/r0/rooms/"@;
    let send = "/send/m.room.message/"@;
    let key = "?access_token="@;
    let a = host.len() as int;
    let b = a + rooms.len();
    let c = b + room.len();
    let d = c + send.len();
    let e = d + txn.len();
    let f = e + key.len();
    assert(u.subrange(0, a) =~= host);
    assert(u.subrange(a, b) =~= rooms);
    assert(u.subrange(b, c) =~= room);
    assert(u.subrange(c, d) =~= send);
    assert(u.subrange(d, e) =~= txn);
    assert(u.subrange(e, f) =~= key);
    assert(u.subrange(f, f + token.len()) =~= token);
}

/// The media type of a message event's content.
pub open spec fn json_media_type() -> Seq<char> {
    "application/json"@
}

/// `req` is the send request for `content` under transaction `txn`: a
/// `PUT` of `send_uri` that carries the content as UTF-8, typed as JSON
/// and with its length in bytes.
pub open spec fn is_send_request(
    req: HttpRequest,
    host: Seq<char>,
    token: Seq<char>,
    room: Seq<char>,
    txn: Seq<char>,
    content: Seq<char>,
) -> bool {
    &&& req.method == Method::Put
    &&& req.uri@ == send_uri(host, token, room, txn)
    &&& req.headers matches Headers::ContentTypeAndLength(t, n) && t@ == json_media_type() && n
        == encode_utf8(content).len()
    &&& req.body@ == encode_utf8(content)
}

/// The send request for `content` under the transaction id `txn`.
pub fn send_request(host: &str, token: &str, room: &str, txn: &str, content: String) -> (req:
    HttpRequest)
    ensures
        is_send_request(req, host@, token@, room@, txn@, content@),
        crate::text::stands_at(req.uri@, host@.len() + "/_matrix/client/r0/rooms/"@.len() as int, room@),
        crate::text::stands_at(req.uri@, req.uri@.len() - token@.len(), token@),
{
    proof {
        lemma_send_uri_parts(host@, token@, room@, txn@);
    }
    let mut uri = String::from_str(host);
    uri.append("/_matrix/client/r0/rooms/");
    uri.append(room);
    uri.append("/send/m.room.message/");
    uri.append(txn);
    uri.append("?access_token=");
    uri.append(token);
    let body = content.as_str().as_bytes_vec();
    let length = body.len();
    HttpRequest {
        method: Method::Put,
        uri,
        headers: Headers::ContentTypeAndLength(String::from_str("application/json"), length),
        body,
    }
}

/// The send request for `content`, under a fresh random transaction id.
/// Which id is chance; it is always one of sixteen letters and digits.
pub fn send_message_internal(host: &str, token: &str, room: &str, content: String) -> (req:
    HttpRequest)
    ensures
        exists|txn: Seq<char>|
            is_txn_id(txn) && #[trigger] is_send_request(req, host@, token@, room@, txn, content@),
{
    let txn = random_alphanumeric(TXN_ID_LEN);
    let req = send_request(host, token, room, txn.as_str(), content);
    assert(is_txn_id(txn@));
    req
}

/// The request that sends the text `msg` to `room`.
pub fn send_message_request(host: &str, token: &str, room: &str, msg: &str) -> (req: HttpRequest)
    ensures
        exists|txn: Seq<char>|
            is_txn_id(txn) && #[trigger] is_send_request(
                req,
                host@,
                token@,
                room@,
                txn,
                message_content("m.text"@, None, msg@),
            ),
        content_reads_back(message_content("m.text"@, None, msg@), "m.text"@, None, msg@),
{
    send_message_internal(host, token, room, text_content(msg))
}

/// The request that sends an image, at `url`, to `room`.
pub fn send_image_request(host: &str, token: &str, room: &str, url: &str, msg: &str) -> (req:
    HttpRequest)
    ensures
        exists|txn: Seq<char>|
            is_txn_id(txn) && #[trigger] is_send_request(
                req,
                host@,
                token@,
                room@,
                txn,
                message_content("m.image"@, Some(url@), msg@),
            ),
        content_reads_back(message_content("m.image"@, Some(url@), msg@), "m.image"@, Some(url@), msg@),
{
    send_message_internal(host, token, room, image_content(url, msg))
}

/// The request that sends a file, at `url`, to `room`.
pub fn send_file_request(host: &str, token: &str, room: &str, url: &str, msg: &str) -> (req:
    HttpRequest)
    ensures
        exists|txn: Seq<char>|
            is_txn_id(txn) && #[trigger] is_send_request(
                req,
                host@,
                token@,
                room@,
                txn,
                message_content("m.file"@, Some(url@), msg@),
            ),
        content_reads_back(message_content("m.file"@, Some(url@), msg@), "m.file"@, Some(url@), msg@),
{
    send_message_internal(host, token, room, file_content(url, msg))
}

/// Whether the answer to a send must be read: only a failure, whose
/// body explains it.
pub fn send_needs_body(status: u16) -> (needed: bool)
    ensures
        needed == (status != 200),
{
    status != 200
}

/// The answer to a send: 200 is success; any other status gives an
/// `Other` error with the body's text, or the UTF-8 error when the body
/// is not text.
pub fn send_response(status: u16, body: Vec<u8>) -> (res: Result<(), RixError>)
    ensures
        status == 200 ==> res is Ok,
        status != 200 && valid_utf8(body@) ==> (res matches Err(e) && crate::error::is_other(
            e,
            "Failed sending message: "@ + decode_utf8(body@),
        )),
        status != 200 && !valid_utf8(body@) ==> res matches Err(RixError::UTF8(_)),
{
    if status == 200 {
        Ok(())
    } else {
        match string_from_utf8(body) {
            Ok(text) => {
                let mut msg = String::from_str("Failed sending message: ");
                msg.append(text.as_str());
                Err(RixError::Other(msg))
            },
            Err(e) => Err(RixError::UTF8(e)),
        }
    }
}

} // verus!
