//! `GET /account/whoami`: who the access token belongs to.
use vstd::prelude::*;
use vstd::string::*;
use crate::error::RixError;
use crate::http::{Headers, HttpRequest, Method};
use crate::text::string_from_utf8_lossy;

verus! {

/// The URI of the whoami call.
pub open spec fn whoami_uri(host: Seq<char>, token: Seq<char>) -> Seq<char> {
    host + "/_matrix/client/r0/account/whoami?access_token="@ + token
}

/// The whoami URI is the homeserver, then the whoami path with
/// `?access_token=`, then the whole access token, and nothing more.
pub proof fn lemma_whoami_uri_carries_token(host: Seq<char>, token: Seq<char>)
    ensures
        ({
            let u = whoami_uri(host, token);
            let path = "/_matrix/client/r0/account/whoami?access_token="@;
            &&& u.len() == host.len() + path.len() + token.len()
            &&& crate::text::stands_at(u, 0, host)
            &&& crate::text::stands_at(u, host.len() as int, path)
            &&& crate::text::stands_at(u, host.len() + path.len() as int, token)
        }),
{
    let u = whoami_uri(host, token);
    let path = "/_matrix/client/r0/account/whoami?access_token="@;
    let a = host.len() as int;
    let b = a + path.len();
    assert(u.subrange(0, a) =~= host);
    assert(u.subrange(a, b) =~= path);
    assert(u.subrange(b, b + token.len()) =~= token);
}

/// The request of the whoami call: a bare `GET` of `whoami_uri` with an
/// empty body.
pub fn whoami_request(host: &str, token: &str) -> (req: HttpRequest)
    ensures
        req.method == Method::Get,
        req.uri@ == whoami_uri(host@, token@),
        crate::text::stands_at(req.uri@, req.uri@.len() - token@.len(), token@),
        req.headers is Bare,
        req.body@ == Seq::<u8>::empty(),
{
    let mut uri = String::from_str(host);
    uri.append("/_matrix/client/r0/account/whoami?access_token=");
    uri.append(token);
    proof {
        lemma_whoami_uri_carries_token(host@, token@);
    }
    HttpRequest { method: Method::Get, uri, headers: Headers::Bare, body: Vec::new() }
}

/// The answer to the whoami call, from the status and body of the
/// response and from `user_id`, the body read as a JSON object with a
/// string member `user_id`. A 200 answer gives that user id, or the JSON
/// error; any other status gives the body's text (ill-formed UTF-8
/// replaced, valid UTF-8 as it is) as an `Other` error.
pub fn whoami_response(status: u16, body: &[u8], user_id: Result<String, serde_json::Error>) -> (res:
    Result<String, RixError>)
    ensures
        status == 200 ==> match user_id {
            Ok(u) => res matches Ok(v) && v == u,
            Err(e) => res matches Err(RixError::JSON(f)) && f == e,
        },
        status != 200 ==> (res matches Err(e) && crate::error::is_other(e, crate::text::lossy_utf8(body@))),
        status != 200 && vstd::utf8::valid_utf8(body@) ==> (res matches Err(e) && crate::error::is_other(
            e,
            vstd::utf8::decode_utf8(body@),
        )),
{
    if status == 200 {
        match user_id {
            Ok(u) => Ok(u),
            Err(e) => Err(RixError::JSON(e)),
        }
    } else {
        Err(RixError::Other(string_from_utf8_lossy(body)))
    }
}

} // verus!
