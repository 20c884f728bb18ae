//! `POST /upload` on the media repository.
use vstd::prelude::*;
use vstd::string::*;
use vstd::utf8::*;
use crate::error::RixError;
use crate::http::{Headers, HttpRequest, Method};
use crate::json::json_member_str;
use crate::text::{string_from_utf8, url_encode};

verus! {

/// The URI of an upload: the file name goes percent-encoded into the
/// query.
pub open spec fn upload_uri(host: Seq<char>, token: Seq<char>, filename: Seq<char>) -> Seq<char> {
    host + "/_matrix/media/r0/upload?filename="@ + crate::text::percent_encode(filename) + "&access_token="@
        + token
}

/// The URI of an upload is the homeserver, the upload path with
/// `?filename=`, the percent-encoded file name, `&access_token=`, and the
/// whole access token, and nothing more.
pub proof fn lemma_upload_uri_parts(host: Seq<char>, token: Seq<char>, filename: Seq<char>)
    ensures
        ({
            let u = upload_uri(host, token, filename);
            let path = "/_matrix/media/r0/upload?filename="@;
            let name = crate::text::percent_encode(filename);
            let key = "&access_token="@;
            let a = host.len() as int;
            let b = a + path.len();
            let c = b + name.len();
            let d = c + key.len();
            &&& u.len() == d + token.len()
            &&& crate::text::stands_at(u, 0, host)
            &&& crate::text::stands_at(u, a, path)
            &&& crate::text::stands_at(u, b, name)
            &&& crate::text::stands_at(u, c, key)
            &&& crate::text::stands_at(u, d, token)
        }),
{
    let u = upload_uri(host, token, filename);
    let path = "/_matrix/media/r0/upload?filename="@;
    let name = crate::text::percent_encode(filename);
    let key = "&access_token="@;
    let a = host.len() as int;
    let b = a + path.len();
    let c = b + name.len();
    let d = c + key.len();
    assert(u.subrange(0, a) =~= host);
    assert(u.subrange(a, b) =~= path);
    assert(u.subrange(b, c) =~= name);
    assert(u.subrange(c, d) =~= key);
    assert(u.subrange(d, d + token.len()) =~= token);
}

/// The request of an upload: a `POST` of `upload_uri` that carries the
/// content type and the file's bytes.
pub fn upload_request(host: &str, token: &str, content_type: &str, filename: &str, body: Vec<u8>) -> (req:
    HttpRequest)
    ensures
        req.method == Method::Post,
        req.uri@ == upload_uri(host@, token@, filename@),
        crate::text::stands_at(req.uri@, req.uri@.len() - token@.len(), token@),
        req.headers matches Headers::ContentType(t) && t@ == content_type@,
        req.body@ == body@,
{
    proof {
        lemma_upload_uri_parts(host@, token@, filename@);
    }
    let mut uri = String::from_str(host);
    uri.append("/_matrix/media/r0/upload?filename=");
    let encoded = url_encode(filename);
    uri.append(encoded.as_str());
    uri.append("&access_token=");
    uri.append(token);
    HttpRequest {
        method: Method::Post,
        uri,
        headers: Headers::ContentType(String::from_str(content_type)),
        body,
    }
}

/// The words of the error for a 200 answer without a content URI.
pub open spec fn missing_uri_message() -> Seq<char> {
    "Failed uploading media: content_uri missing in response"@
}

/// The answer to an upload. A 200 answer must be JSON (else the JSON
/// error) and gives its top-level string member `content_uri`, or an
/// `Other` error when there is none. Any other status gives an `Other`
/// error with the body's text, or the UTF-8 error when the body is not
/// text.
pub fn upload_response(status: u16, body: Vec<u8>) -> (res: Result<String, RixError>)
    ensures
        status == 200 ==> match crate::json::json_member_text(body@, "content_uri"@) {
            None => res matches Err(RixError::JSON(_)),
            Some(Some(uri)) => res matches Ok(u) && u@ == uri,
            Some(None) => (res matches Err(e) && crate::error::is_other(e, missing_uri_message())),
        },
        status != 200 && valid_utf8(body@) ==> (res matches Err(e) && crate::error::is_other(
            e,
            "Failed uploading media: "@ + decode_utf8(body@),
        )),
        status != 200 && !valid_utf8(body@) ==> res matches Err(RixError::UTF8(_)),
{
    if status == 200 {
        match json_member_str(body.as_slice(), "content_uri") {
            Err(e) => Err(RixError::JSON(e)),
            Ok(Some(uri)) => Ok(uri),
            Ok(None) => Err(
                RixError::Other(
                    String::from_str("Failed uploading media: content_uri missing in response"),
                ),
            ),
        }
    } else {
        match string_from_utf8(body) {
            Ok(text) => {
                let mut msg = String::from_str("Failed uploading media: ");
                msg.append(text.as_str());
                Err(RixError::Other(msg))
            },
            Err(e) => Err(RixError::UTF8(e)),
        }
    }
}

} // verus!
