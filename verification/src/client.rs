//! The requests that the catalog is asked, and what its answers hold.

use crate::error::ConfigError;
use crate::text::views;
use reqwest::header::{HeaderValue, InvalidHeaderValue};
use vstd::prelude::*;
use vstd::utf8::encode_utf8;

verus! {

/// The address every request path is appended to.
pub const BASE_URL: &'static str = "https://api.myfans.jp/api/v2";

/// The value of the user agent header.
pub const USER_AGENT: &'static str =
    "user-agent: Mozilla/5.0 (Windows NT 10.0; Win64; x64) AppleWebKit/537.36 (KHTML, like Gecko) Chrome/119.0.0.0 Safari/537.36";

/// `reqwest::header::HeaderValue`, the parsed value of a header. Nothing is
/// known of what is inside one.
#[verifier::external_type_specification]
#[verifier::external_body]
pub struct ExHeaderValue(reqwest::header::HeaderValue);

/// `reqwest::header::InvalidHeaderValue`, the error of a text that is no
/// header value. Nothing is known of what is inside one.
#[verifier::external_type_specification]
#[verifier::external_body]
pub struct ExInvalidHeaderValue(reqwest::header::InvalidHeaderValue);

/// Whether a byte may stand in the value of a request header: a tab, or any
/// byte from the space on but the delete character.
pub open spec fn header_byte_ok(byte: u8) -> bool {
    (byte >= 32 && byte != 127) || byte == 9
}

/// Whether `text` can be the value of a request header: each byte of its
/// UTF-8 encoding may stand there.
pub open spec fn header_text_ok(text: Seq<char>) -> bool {
    forall|i: int| 0 <= i < encode_utf8(text).len() ==> header_byte_ok(#[trigger] encode_utf8(text)[i])
}

/// Calls `reqwest::header::HeaderValue::from_str` on `text`. Trusted: the
/// call succeeds exactly on the texts whose bytes may all stand in a header
/// value.
#[verifier::external_body]
fn parse_header_value(text: &str) -> (res: Result<HeaderValue, InvalidHeaderValue>)
    ensures
        res is Ok <==> header_text_ok(text@),
{
    HeaderValue::from_str(text)
}

/// One request header.
#[derive(Debug, PartialEq, Eq)]
pub struct Header {
    pub name: String,
    pub value: String,
}

/// The mathematical value of a [`Header`].
pub struct HeaderView {
    pub name: Seq<char>,
    pub value: Seq<char>,
}

impl View for Header {
    type V = HeaderView;

    open spec fn view(&self) -> HeaderView {
        HeaderView { name: self.name@, value: self.value@ }
    }
}

impl Clone for Header {
    fn clone(&self) -> (res: Self)
        ensures
            res == *self,
    {
        Header { name: self.name.clone(), value: self.value.clone() }
    }
}

/// The query of a listing request.
#[derive(Debug, PartialEq, Eq)]
pub struct Query {
    pub sort_key: String,
    pub per_page: usize,
    pub page: usize,
}

/// The mathematical value of a [`Query`].
pub struct QueryView {
    pub sort_key: Seq<char>,
    pub per_page: usize,
    pub page: usize,
}

impl View for Query {
    type V = QueryView;

    open spec fn view(&self) -> QueryView {
        QueryView { sort_key: self.sort_key@, per_page: self.per_page, page: self.page }
    }
}

/// The mathematical value of an optional [`Query`].
pub open spec fn query_view(query: Option<Query>) -> Option<QueryView> {
    match query {
        Some(query) => Some(query@),
        None => None,
    }
}

/// One GET request, ready to be sent.
#[derive(Debug, PartialEq, Eq)]
pub struct Request {
    pub url: String,
    pub headers: Vec<Header>,
    pub query: Option<Query>,
}

/// The mathematical value of a [`Request`].
pub struct RequestView {
    pub url: Seq<char>,
    pub headers: Seq<HeaderView>,
    pub query: Option<QueryView>,
}

impl View for Request {
    type V = RequestView;

    open spec fn view(&self) -> RequestView {
        RequestView {
            url: self.url@,
            headers: views(self.headers@),
            query: query_view(self.query),
        }
    }
}

/// The value of the authorization header that carries `token`.
pub open spec fn authorization_value(token: Seq<char>) -> Seq<char> {
    "Token token="@ + token
}

/// The headers that a client with `token` attaches to every request.
pub open spec fn client_headers(token: Seq<char>) -> Seq<HeaderView> {
    seq![
        HeaderView { name: "authorization"@, value: authorization_value(token) },
        HeaderView { name: "user-agent"@, value: USER_AGENT@ },
        HeaderView { name: "google-ga-data"@, value: "event328"@ },
    ]
}

/// The path of the listing of the posts of the plan `plan_id`.
pub open spec fn posts_path(plan_id: Seq<char>) -> Seq<char> {
    "/plans/"@ + plan_id + "/posts"@
}

/// The path of the videos of the post `post_id`.
pub open spec fn videos_path(post_id: Seq<char>) -> Seq<char> {
    "/posts/"@ + post_id + "/videos"@
}

/// A client of the catalog: the credential and the fixed headers that go
/// with every request.
#[derive(Debug, PartialEq, Eq)]
pub struct MyfansClient {
    headers: Vec<Header>,
}

impl MyfansClient {
    /// The headers attached to every request of this client.
    pub closed spec fn headers(&self) -> Seq<HeaderView> {
        views(self.headers@)
    }

    /// A client that authenticates with `token`. The token is refused where
    /// the authorization value made from it cannot stand in a header.
    pub fn new(token: String) -> (res: Result<MyfansClient, ConfigError>)
        ensures
            header_text_ok(authorization_value(token@)) ==> res is Ok && res.unwrap().headers()
                == client_headers(token@),
            !header_text_ok(authorization_value(token@)) ==> res == Err::<MyfansClient, ConfigError>(
                ConfigError::InvalidToken,
            ),
    {
        let authorization = String::from_str("Token token=").concat(token.as_str());
        match parse_header_value(authorization.as_str()) {
            Ok(_) => {
                let mut headers: Vec<Header> = Vec::new();
                headers.push(
                    Header { name: String::from_str("authorization"), value: authorization },
                );
                headers.push(
                    Header {
                        name: String::from_str("user-agent"),
                        value: String::from_str(USER_AGENT),
                    },
                );
                headers.push(
                    Header {
                        name: String::from_str("google-ga-data"),
                        value: String::from_str("event328"),
                    },
                );
                Ok(MyfansClient { headers })
            },
            Err(_) => Err(ConfigError::InvalidToken),
        }
    }

    /// A copy of the headers attached to every request.
    pub fn request_headers(&self) -> (res: Vec<Header>)
        ensures
            views(res@) == self.headers(),
    {
        let mut copy: Vec<Header> = Vec::new();
        let mut i: usize = 0;
        while i < self.headers.len()
            invariant
                i <= self.headers.len(),
                copy.len() == i,
                forall|j: int| 0 <= j < i ==> copy[j]@ == self.headers[j]@,
            decreases self.headers.len() - i,
        {
            copy.push(self.headers[i].clone());
            i = i + 1;
        }
        copy
    }

    /// The GET request for `path` below the base address, with `query`.
    pub fn get(&self, path: &str, query: Option<Query>) -> (res: Request)
        ensures
            res@ == (RequestView {
                url: BASE_URL@ + path@,
                headers: self.headers(),
                query: query_view(query),
            }),
    {
        Request {
            url: String::from_str(BASE_URL).concat(path),
            headers: self.request_headers(),
            query,
        }
    }

    /// The request for page `page` of the posts of the plan `plan_id`, with
    /// `per_page` posts to a page, ordered by `sort_key`.
    pub fn post_ids_by_plan_id(
        &self,
        plan_id: &str,
        sort_key: &str,
        per_page: usize,
        page: usize,
    ) -> (res: Request)
        ensures
            res@ == (RequestView {
                url: BASE_URL@ + posts_path(plan_id@),
                headers: self.headers(),
                query: Some(QueryView { sort_key: sort_key@, per_page, page }),
            }),
    {
        let path = String::from_str("/plans/").concat(plan_id).concat("/posts");
        self.get(path.as_str(), Some(Query { sort_key: String::from_str(sort_key), per_page, page }))
    }

    /// The request for the video variants of the post `post_id`.
    pub fn post_video_url(&self, post_id: &str) -> (res: Request)
        ensures
            res@ == (RequestView {
                url: BASE_URL@ + videos_path(post_id@),
                headers: self.headers(),
                query: None,
            }),
    {
        let path = String::from_str("/posts/").concat(post_id).concat("/videos");
        self.get(path.as_str(), None)
    }
}

} // verus!
