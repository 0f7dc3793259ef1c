//! Who may call: the secret key in a header or in the query.

use vstd::prelude::*;

use crate::json::{Json, JsonTree};
use crate::text;

verus! {

// ---------------------------------------------------------------------------
// Requests and replies
// ---------------------------------------------------------------------------

/// One header of a request. The name is in lower case.
pub struct Header {
    pub name: String,
    pub value: Vec<u8>,
}

/// What the connector reads of an HTTP request.
pub struct HttpRequest {
    pub method: String,
    pub headers: Vec<Header>,
    pub query: Option<String>,
    pub body: Vec<u8>,
}

/// The headers of a request, names with values.
pub type Headers = Seq<(Seq<char>, Seq<u8>)>;

/// What an HTTP request says.
pub struct RequestModel {
    pub method: Seq<char>,
    pub headers: Headers,
    pub query: Option<Seq<char>>,
    pub body: Seq<u8>,
}

pub open spec fn headers_view(headers: Seq<Header>) -> Headers {
    headers.map_values(|h: Header| (h.name@, h.value@))
}

impl View for HttpRequest {
    type V = RequestModel;

    open spec fn view(&self) -> RequestModel {
        RequestModel {
            method: self.method@,
            headers: headers_view(self.headers@),
            query: match self.query {
                Some(q) => Some(q@),
                None => None,
            },
            body: self.body@,
        }
    }
}

/// A reply: the HTTP status and the JSON body.
pub struct HttpReply {
    pub status: u16,
    pub body: Json,
}

// ---------------------------------------------------------------------------
// Reading headers
// ---------------------------------------------------------------------------

/// The value of the first header with that name.
pub open spec fn header_value(headers: Headers, name: Seq<char>) -> Option<Seq<u8>>
    decreases headers.len(),
{
    if headers.len() == 0 {
        None
    } else if headers[0].0 == name {
        Some(headers[0].1)
    } else {
        header_value(headers.drop_first(), name)
    }
}

/// Printable ASCII, the space or the tab.
pub open spec fn is_visible(b: u8) -> bool {
    32 <= b < 127 || b == 9
}

/// The text of a header value, which only visible ASCII has.
pub open spec fn visible_text(value: Seq<u8>) -> Option<Seq<char>> {
    if forall|i: int| 0 <= i < value.len() ==> is_visible(#[trigger] value[i]) {
        Some(value.map_values(|b: u8| b as char))
    } else {
        None
    }
}

/// The text of the first header with that name.
pub open spec fn header_text(headers: Headers, name: Seq<char>) -> Option<Seq<char>> {
    match header_value(headers, name) {
        Some(value) => visible_text(value),
        None => None,
    }
}

/// `axum::http::HeaderValue::to_str`: the bytes as text where all of them are
/// visible ASCII, else nothing. A value that cannot be a header value at all
/// has other bytes in it, so it gives nothing either.
#[verifier::external_body]
fn header_to_str(value: &Vec<u8>) -> (res: Option<String>)
    ensures
        match res {
            Some(s) => visible_text(value@) == Some(s@),
            None => visible_text(value@) is None,
        },
{
    let value = axum::http::HeaderValue::from_bytes(value).ok()?;
    value.to_str().ok().map(String::from)
}

impl HttpRequest {
    /// The value of the first header with that name.
    fn header(&self, name: &str) -> (res: Option<&Vec<u8>>)
        ensures
            match res {
                Some(value) => header_value(self@.headers, name@) == Some(value@),
                None => header_value(self@.headers, name@) is None,
            },
    {
        let ghost all = self@.headers;
        let mut i: usize = 0;
        proof {
            assert(all.skip(0) =~= all);
        }
        while i < self.headers.len()
            invariant
                i <= self.headers@.len(),
                all == headers_view(self.headers@),
                header_value(all, name@) == header_value(all.skip(i as int), name@),
            decreases self.headers@.len() - i,
        {
            proof {
                assert(all.skip(i as int)[0] == all[i as int]);
                assert(all.skip(i as int).drop_first() =~= all.skip(i + 1));
            }
            if text::same(self.headers[i].name.as_str(), name) {
                return Some(&self.headers[i].value);
            }
            i = i + 1;
        }
        None
    }

    /// The text of the first header with that name.
    pub fn header_str(&self, name: &str) -> (res: Option<String>)
        ensures
            match res {
                Some(s) => header_text(self@.headers, name@) == Some(s@),
                None => header_text(self@.headers, name@) is None,
            },
    {
        match self.header(name) {
            Some(value) => header_to_str(value),
            None => None,
        }
    }
}

// ---------------------------------------------------------------------------
// The check
// ---------------------------------------------------------------------------

/// The secret as a bearer token.
pub open spec fn bears_secret(headers: Headers, secret: Seq<char>) -> bool {
    match header_text(headers, "authorization"@) {
        Some(value) => text::has_prefix(value, "Bearer "@) && text::trimmed(
            text::without_prefixes(value, "Bearer "@),
        ) == secret,
        None => false,
    }
}

/// The header that carries a key: `x-mcp-key`, or `x-api-key` in a request
/// without the first.
pub open spec fn key_header(headers: Headers) -> Option<Seq<u8>> {
    match header_value(headers, "x-mcp-key"@) {
        Some(value) => Some(value),
        None => header_value(headers, "x-api-key"@),
    }
}

/// The secret in a key header.
pub open spec fn has_key_header(headers: Headers, secret: Seq<char>) -> bool {
    match key_header(headers) {
        Some(value) => match visible_text(value) {
            Some(key) => text::trimmed(key) == secret,
            None => false,
        },
        None => false,
    }
}

/// The names a query parameter with the secret can have.
pub open spec fn is_key_name(name: Seq<char>) -> bool {
    ||| name == "api_key"@
    ||| name == "token"@
    ||| name == "key"@
    ||| name == "api-key"@
    ||| name == "mcp_key"@
}

/// A query parameter with the secret as its value.
pub open spec fn is_key_pair(pair: Seq<char>, secret: Seq<char>) -> bool {
    match text::halves(pair, '=') {
        Some((name, value)) => is_key_name(name) && value == secret,
        None => false,
    }
}

/// The secret in a query parameter.
pub open spec fn queries_secret(query: Option<Seq<char>>, secret: Seq<char>) -> bool {
    match query {
        Some(q) => exists|i: int|
            0 <= i < text::pieces(q, '&').len() && is_key_pair(
                #[trigger] text::pieces(q, '&')[i],
                secret,
            ),
        None => false,
    }
}

/// The request carries the secret in one of the ways there are.
pub open spec fn carries_secret(request: RequestModel, secret: Seq<char>) -> bool {
    ||| bears_secret(request.headers, secret)
    ||| has_key_header(request.headers, secret)
    ||| queries_secret(request.query, secret)
}

/// Who is let in.
pub enum Guard {
    /// Everyone.
    Open,
    /// Requests that carry the secret.
    Locked(String),
}

impl Guard {
    pub open spec fn admits(self, request: RequestModel) -> bool {
        match self {
            Guard::Open => true,
            Guard::Locked(secret) => carries_secret(request, secret@),
        }
    }
}

/// The body of the reply to a request that is not let in.
pub open spec fn unauthorized_body() -> JsonTree {
    JsonTree::object().with_text("jsonrpc"@, "2.0"@).with(
        "error"@,
        JsonTree::object().with("code"@, JsonTree::Number(-32001)).with_text(
            "message"@,
            "Unauthorized: Invalid or missing MCP authentication secret key. Provide 'Authorization: Bearer <key>', 'X-MCP-Key: <key>', or query parameter '?api_key=<key>'."@,
        ),
    )
}

/// Whether the environment switches the check off: its variable reads `true`.
pub fn auth_disabled(variable: Option<&str>) -> (res: bool)
    ensures
        res <==> (variable matches Some(value) && value@ == "true"@),
{
    match variable {
        Some(value) => text::same(value, "true"),
        None => false,
    }
}

/// Lets a request in or gives the reply that refuses it.
pub fn check_mcp_auth(guard: &Guard, request: &HttpRequest) -> (res: Result<(), HttpReply>)
    ensures
        res is Ok <==> guard.admits(request@),
        res matches Err(reply) ==> reply.status == 401 && reply.body@ == unauthorized_body(),
{
    match guard {
        Guard::Open => Ok(()),
        Guard::Locked(secret) => {
            if bearer(request, secret.as_str()) || keyed(request, secret.as_str()) || queried(
                request,
                secret.as_str(),
            ) {
                Ok(())
            } else {
                Err(unauthorized())
            }
        },
    }
}

fn unauthorized() -> (reply: HttpReply)
    ensures
        reply.status == 401,
        reply.body@ == unauthorized_body(),
{
    let error = Json::object().with("code", Json::number(-32001)).with_text(
        "message",
        "Unauthorized: Invalid or missing MCP authentication secret key. Provide 'Authorization: Bearer <key>', 'X-MCP-Key: <key>', or query parameter '?api_key=<key>'.",
    );
    HttpReply { status: 401, body: Json::object().with_text("jsonrpc", "2.0").with("error", error) }
}

fn bearer(request: &HttpRequest, secret: &str) -> (res: bool)
    ensures
        res == bears_secret(request@.headers, secret@),
{
    match request.header_str("authorization") {
        Some(value) => text::starts_with(value.as_str(), "Bearer ") && text::same(
            text::trim(text::strip_prefixes(value.as_str(), "Bearer ")),
            secret,
        ),
        None => false,
    }
}

fn keyed(request: &HttpRequest, secret: &str) -> (res: bool)
    ensures
        res == has_key_header(request@.headers, secret@),
{
    let header = match request.header("x-mcp-key") {
        Some(value) => Some(value),
        None => request.header("x-api-key"),
    };
    match header {
        Some(value) => match header_to_str(value) {
            Some(key) => text::same(text::trim(key.as_str()), secret),
            None => false,
        },
        None => false,
    }
}

fn key_name(name: &str) -> (res: bool)
    ensures
        res == is_key_name(name@),
{
    text::same(name, "api_key") || text::same(name, "token") || text::same(name, "key")
        || text::same(name, "api-key") || text::same(name, "mcp_key")
}

fn queried(request: &HttpRequest, secret: &str) -> (res: bool)
    ensures
        res == queries_secret(request@.query, secret@),
{
    match &request.query {
        Some(query) => {
            let pairs = text::split(query.as_str(), '&');
            let ghost all = text::pieces(query@, '&');
            let mut i: usize = 0;
            while i < pairs.len()
                invariant
                    i <= pairs@.len(),
                    text::slices_view(pairs@) == all,
                    all == text::pieces(query@, '&'),
                    request.query == Some(*query),
                    forall|k: int| 0 <= k < i ==> !is_key_pair(#[trigger] all[k], secret@),
                decreases pairs@.len() - i,
            {
                assert(all.len() == pairs@.len() && all[i as int] == pairs@[i as int]@);
                if let Some((name, value)) = text::split_once(pairs[i], '=') {
                    if key_name(name) && text::same(value, secret) {
                        proof {
                            let pieces = text::pieces(query@, '&');
                            assert(is_key_pair(pieces[i as int], secret@));
                            assert(queries_secret(Some(query@), secret@));
                        }
                        return true;
                    }
                }
                i = i + 1;
            }
            false
        },
        None => false,
    }
}

} // verus!
