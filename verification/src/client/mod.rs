//! The calls of the client-server API that the client makes, and a
//! client that holds the homeserver and the access token for them.
pub mod account;
pub mod media;
pub mod message;
pub mod sync;

use vstd::prelude::*;
use vstd::string::*;
use crate::http::HttpRequest;
use self::sync::SyncStream;

verus! {

/// A homeserver and the access token to use there.
pub struct Client {
    host: String,
    token: String,
}

impl Client {
    /// The homeserver, such as `https://matrix.org`.
    pub closed spec fn host_view(&self) -> Seq<char> {
        self.host@
    }

    /// The access token.
    pub closed spec fn token_view(&self) -> Seq<char> {
        self.token@
    }

    /// A client of `host` with `token`.
    pub fn new(host: String, token: String) -> (c: Client)
        ensures
            c.host_view() == host@,
            c.token_view() == token@,
    {
        Client { host, token }
    }

    /// The homeserver.
    pub fn host(&self) -> (h: &str)
        ensures
            h@ == self.host_view(),
    {
        self.host.as_str()
    }

    /// The access token.
    pub fn token(&self) -> (t: &str)
        ensures
            t@ == self.token_view(),
    {
        self.token.as_str()
    }

    /// The request that asks whom the token belongs to.
    pub fn whoami_request(&self) -> (req: HttpRequest)
        ensures
            req.method == crate::http::Method::Get,
            req.uri@ == account::whoami_uri(self.host_view(), self.token_view()),
            req.headers is Bare,
            req.body@ == Seq::<u8>::empty(),
    {
        account::whoami_request(self.host.as_str(), self.token.as_str())
    }

    /// The request of one sync, from `since` if given.
    pub fn sync_request(&self, since: Option<String>) -> (req: HttpRequest)
        ensures
            req.method == crate::http::Method::Get,
            req.uri@ == sync::sync_uri(self.host_view(), self.token_view(), crate::text::opt_view(since)),
            req.headers is Bare,
            req.body@ == Seq::<u8>::empty(),
    {
        sync::sync_request(self.host.as_str(), self.token.as_str(), since)
    }

    /// An endless stream of syncs, starting from nothing.
    pub fn sync_stream(&self) -> (s: SyncStream)
        ensures
            s.host_view() == self.host_view(),
            s.token_view() == self.token_view(),
            s.since_token() == None::<Seq<char>>,
    {
        sync::sync_stream(self.host.as_str(), self.token.as_str())
    }

    /// The request that uploads `body` as `filename` of type `content_type`.
    pub fn upload_media_request(&self, content_type: &str, filename: &str, body: Vec<u8>) -> (req:
        HttpRequest)
        ensures
            req.method == crate::http::Method::Post,
            req.uri@ == media::upload_uri(self.host_view(), self.token_view(), filename@),
            req.headers matches crate::http::Headers::ContentType(t) && t@ == content_type@,
            req.body@ == body@,
    {
        media::upload_request(self.host.as_str(), self.token.as_str(), content_type, filename, body)
    }

    /// The request that sends the text `msg` to `room`.
    pub fn send_message_request(&self, room: &str, msg: &str) -> (req: HttpRequest)
        ensures
            exists|txn: Seq<char>|
                message::is_txn_id(txn) && #[trigger] message::is_send_request(
                    req,
                    self.host_view(),
                    self.token_view(),
                    room@,
                    txn,
                    message::message_content("m.text"@, None, msg@),
                ),
            message::content_reads_back(
                message::message_content("m.text"@, None, msg@),
                "m.text"@,
                None,
                msg@,
            ),
    {
        let req = message::send_message_request(self.host.as_str(), self.token.as_str(), room, msg);
        proof {
            let content = message::message_content("m.text"@, None, msg@);
            let txn = choose|txn: Seq<char>|
                message::is_txn_id(txn) && #[trigger] message::is_send_request(
                    req, self.host@, self.token@, room@, txn, content);
            assert(message::is_send_request(req, self.host_view(), self.token_view(), room@, txn, content));
        }
        req
    }

    /// The request that sends the image at `url` to `room`.
    pub fn send_image_request(&self, room: &str, url: &str, msg: &str) -> (req: HttpRequest)
        ensures
            exists|txn: Seq<char>|
                message::is_txn_id(txn) && #[trigger] message::is_send_request(
                    req,
                    self.host_view(),
                    self.token_view(),
                    room@,
                    txn,
                    message::message_content("m.image"@, Some(url@), msg@),
                ),
            message::content_reads_back(
                message::message_content("m.image"@, Some(url@), msg@),
                "m.image"@,
                Some(url@),
                msg@,
            ),
    {
        let req = message::send_image_request(self.host.as_str(), self.token.as_str(), room, url, msg);
        proof {
            let content = message::message_content("m.image"@, Some(url@), msg@);
            let txn = choose|txn: Seq<char>|
                message::is_txn_id(txn) && #[trigger] message::is_send_request(
                    req, self.host@, self.token@, room@, txn, content);
            assert(message::is_send_request(req, self.host_view(), self.token_view(), room@, txn, content));
        }
        req
    }

    /// The request that sends the file at `url` to `room`.
    pub fn send_file_request(&self, room: &str, url: &str, msg: &str) -> (req: HttpRequest)
        ensures
            exists|txn: Seq<char>|
                message::is_txn_id(txn) && #[trigger] message::is_send_request(
                    req,
                    self.host_view(),
                    self.token_view(),
                    room@,
                    txn,
                    message::message_content("m.file"@, Some(url@), msg@),
                ),
            message::content_reads_back(
                message::message_content("m.file"@, Some(url@), msg@),
                "m.file"@,
                Some(url@),
                msg@,
            ),
    {
        let req = message::send_file_request(self.host.as_str(), self.token.as_str(), room, url, msg);
        proof {
            let content = message::message_content("m.file"@, Some(url@), msg@);
            let txn = choose|txn: Seq<char>|
                message::is_txn_id(txn) && #[trigger] message::is_send_request(
                    req, self.host@, self.token@, room@, txn, content);
            assert(message::is_send_request(req, self.host_view(), self.token_view(), room@, txn, content));
        }
        req
    }
}

} // verus!
