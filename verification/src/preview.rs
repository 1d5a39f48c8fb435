//! What the preview server answers.
//!
//! The server reads the rendered page from disk on every request and never
//! caches it, so a page always shows the last successful rebuild. The reading
//! is the caller's part; what goes back to the browser is decided here.

use vstd::prelude::*;
use vstd::string::StringExecFns;
use crate::text::{chars_of, contains, occurs_in};

verus! {

/// The status of an answer that carries what was asked for.
pub const STATUS_OK: u16 = 200;

/// The status of the answer for a page that cannot be read.
pub const STATUS_NOT_FOUND: u16 = 404;

/// The content type of the rendered page.
pub const HTML_TYPE: &'static str = "text/html; charset=utf-8";

/// The content type of the reload script.
pub const SCRIPT_TYPE: &'static str = "application/javascript";

/// The content type of a plain message.
pub const PLAIN_TYPE: &'static str = "text/plain; charset=utf-8";

/// The path under which the rendered page is served.
pub const PAGE_PATH: &'static str = "/";

/// The path under which a browser opens its reload socket.
pub const SOCKET_PATH: &'static str = "/ws";

/// The path under which the reload script is served.
pub const SCRIPT_PATH: &'static str = "/live.js";

/// The element that makes a page load the reload script.
pub const SCRIPT_ELEMENT: &'static str = "<script src=\"/live.js\"></script>";

/// What is appended to a page that lacks the element: the element on a line of
/// its own.
pub const SCRIPT_TAG: &'static str = "\n<script src=\"/live.js\"></script>\n";

/// The body of the answer for a page that cannot be read.
pub const NOT_FOUND_BODY: &'static str = "output not found";

/// The reload script: it opens a socket to `/ws`, over TLS where the page came
/// over TLS, reloads the page on any message, and reloads it one second after
/// the socket closes.
pub const LIVE_SCRIPT: &'static str =
    "(() => {\nconst proto = location.protocol === \"https:\" ? \"wss://\" : \"ws://\";\nconst ws = new WebSocket(proto + location.host + \"/ws\");\nws.onmessage = () => location.reload();\nws.onclose = () => setTimeout(() => location.reload(), 1000);\n})();";

/// An answer to one request.
#[derive(Debug, PartialEq, Eq)]
pub struct Reply {
    /// The HTTP status.
    pub status: u16,
    /// The value of the `Content-Type` header.
    pub content_type: String,
    /// The body.
    pub body: String,
}

/// The mathematical content of a [`Reply`].
pub struct ReplyView {
    pub status: u16,
    pub content_type: Seq<char>,
    pub body: Seq<char>,
}

impl View for Reply {
    type V = ReplyView;

    open spec fn view(&self) -> ReplyView {
        ReplyView { status: self.status, content_type: self.content_type@, body: self.body@ }
    }
}

/// A page with the reload script: the page as it is where it holds the
/// script's element already, else the page with the element appended. A page
/// that merely mentions the script's path gets the element like any other.
pub open spec fn with_live_script(html: Seq<char>) -> Seq<char> {
    if occurs_in(html, SCRIPT_ELEMENT@) {
        html
    } else {
        html + SCRIPT_TAG@
    }
}

/// Makes sure that a page loads the reload script: appends the element unless
/// the page holds it already.
pub fn inject_live_script(html: String) -> (page: String)
    ensures
        page@ == with_live_script(html@),
        occurs_in(page@, SCRIPT_ELEMENT@),
{
    proof {
        lemma_injection_is_idempotent(html@);
    }
    let text = chars_of(html.as_str());
    let element = chars_of(SCRIPT_ELEMENT);
    if contains(text.as_slice(), element.as_slice()) {
        html
    } else {
        html.concat(SCRIPT_TAG)
    }
}

/// The answer to a request for the page, given what reading the artifact
/// gave: the page with the reload script, or "not found" where it could not be
/// read.
pub open spec fn page_reply(artifact: Option<Seq<char>>) -> ReplyView {
    match artifact {
        Some(html) => ReplyView {
            status: STATUS_OK,
            content_type: HTML_TYPE@,
            body: with_live_script(html),
        },
        None => ReplyView {
            status: STATUS_NOT_FOUND,
            content_type: PLAIN_TYPE@,
            body: NOT_FOUND_BODY@,
        },
    }
}

/// Answers a request for the page. `artifact` is the rendered page as it was
/// read just now, or `None` where it could not be read.
pub fn serve_output(artifact: Option<String>) -> (reply: Reply)
    ensures
        reply@ == page_reply(
            match artifact {
                Some(html) => Some(html@),
                None => None,
            },
        ),
        artifact is None <==> reply.status == STATUS_NOT_FOUND,
        artifact is Some ==> occurs_in(reply@.body, SCRIPT_ELEMENT@),
{
    match artifact {
        Some(html) => Reply {
            status: STATUS_OK,
            content_type: HTML_TYPE.to_owned(),
            body: inject_live_script(html),
        },
        None => Reply {
            status: STATUS_NOT_FOUND,
            content_type: PLAIN_TYPE.to_owned(),
            body: NOT_FOUND_BODY.to_owned(),
        },
    }
}

/// Answers a request for the reload script.
pub fn live_js() -> (reply: Reply)
    ensures
        reply@ == (ReplyView {
            status: STATUS_OK,
            content_type: SCRIPT_TYPE@,
            body: LIVE_SCRIPT@,
        }),
{
    Reply {
        status: STATUS_OK,
        content_type: SCRIPT_TYPE.to_owned(),
        body: LIVE_SCRIPT.to_owned(),
    }
}

/// A page that went through [`inject_live_script`] holds the script's
/// element, so injecting twice changes nothing.
pub proof fn lemma_injection_is_idempotent(html: Seq<char>)
    ensures
        occurs_in(with_live_script(html), SCRIPT_ELEMENT@),
        with_live_script(with_live_script(html)) == with_live_script(html),
{
    reveal_strlit("<script src=\"/live.js\"></script>");
    reveal_strlit("\n<script src=\"/live.js\"></script>\n");
    if !occurs_in(html, SCRIPT_ELEMENT@) {
        let page = html + SCRIPT_TAG@;
        let at: int = html.len() as int + 1;
        assert(page.subrange(at, at + 32) =~= SCRIPT_ELEMENT@);
        assert(crate::text::occurs_at(page, at, SCRIPT_ELEMENT@));
    }
}

} // verus!
