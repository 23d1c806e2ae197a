//! The HTTP reply that ends a request.

use vstd::prelude::*;

verus! {

/// An HTTP reply as plain values: the status code, the headers in the order in
/// which they are to be written, and the body.
#[derive(Debug, PartialEq, Eq)]
pub struct Reply {
    pub status: u16,
    pub headers: Vec<(String, String)>,
    pub body: String,
}

/// The mathematical model of a [`Reply`].
pub struct ReplyView {
    pub status: u16,
    pub headers: Seq<(Seq<char>, Seq<char>)>,
    pub body: Seq<char>,
}

impl View for Reply {
    type V = ReplyView;

    open spec fn view(&self) -> ReplyView {
        ReplyView { status: self.status, headers: self.headers.deep_view(), body: self.body@ }
    }
}

impl DeepView for Reply {
    type V = ReplyView;

    open spec fn deep_view(&self) -> ReplyView {
        self@
    }
}

/// Status of a reply that carries the rendered matches.
pub const STATUS_OK: u16 = 200;

/// Status of a reply to a request that the client has to correct.
pub const STATUS_BAD_REQUEST: u16 = 400;

/// Status of a reply after the pipeline itself was driven out of order.
pub const STATUS_INTERNAL_ERROR: u16 = 500;

/// Status of a reply after the embedding provider or the vector store failed.
pub const STATUS_BAD_GATEWAY: u16 = 502;

/// The reply with status `code` and the plain text `message` as its body. It
/// carries no header.
pub open spec fn error_reply(code: u16, message: Seq<char>) -> ReplyView {
    ReplyView { status: code, headers: Seq::empty(), body: message }
}

/// The reply with status 200 that announces `body` as HTML.
pub open spec fn html_reply(body: Seq<char>) -> ReplyView {
    ReplyView { status: STATUS_OK, headers: seq![("content-type"@, "text/html"@)], body }
}

/// Builds the reply that reports a failure: status `code`, no header, and
/// `message` as the body.
pub fn error_response(code: u16, message: &str) -> (reply: Reply)
    ensures
        reply@ == error_reply(code, message@),
{
    let reply = Reply { status: code, headers: Vec::new(), body: message.to_owned() };
    assert(reply.headers.deep_view() =~= Seq::empty());
    reply
}

/// Builds the reply that carries a rendered page: status 200, the header
/// `content-type: text/html`, and `body`.
pub fn html_response(body: String) -> (reply: Reply)
    ensures
        reply@ == html_reply(body@),
{
    let mut headers: Vec<(String, String)> = Vec::new();
    headers.push(("content-type".to_owned(), "text/html".to_owned()));
    let reply = Reply { status: STATUS_OK, headers, body };
    assert(reply.headers.deep_view() =~= seq![("content-type"@, "text/html"@)]);
    reply
}

} // verus!
