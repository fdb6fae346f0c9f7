//! The reply the gateway sends: built from an object's metadata, or from a
//! failure, as an immutable description that the HTTP layer writes out.
use vstd::prelude::*;
use crate::content_type::{is_media, is_media_type, resolve_content_type, resolved_type};
use crate::text::opt_chars;

verus! {

/// What the store reports about an object, besides its bytes.
#[derive(Debug, Clone, PartialEq, Eq)]
pub struct ObjectMetadata {
    pub content_length: Option<i64>,
    pub content_type: Option<String>,
    pub e_tag: Option<String>,
    pub content_range: Option<String>,
    pub accept_ranges: Option<String>,
    pub last_modified: Option<String>,
}

/// The mathematical value of `ObjectMetadata`.
pub struct MetadataView {
    pub content_length: Option<i64>,
    pub content_type: Option<Seq<char>>,
    pub e_tag: Option<Seq<char>>,
    pub content_range: Option<Seq<char>>,
    pub accept_ranges: Option<Seq<char>>,
    pub last_modified: Option<Seq<char>>,
}

impl View for ObjectMetadata {
    type V = MetadataView;

    open spec fn view(&self) -> MetadataView {
        MetadataView {
            content_length: self.content_length,
            content_type: opt_chars(self.content_type),
            e_tag: opt_chars(self.e_tag),
            content_range: opt_chars(self.content_range),
            accept_ranges: opt_chars(self.accept_ranges),
            last_modified: opt_chars(self.last_modified),
        }
    }
}

/// How a fetch from the store failed.
#[derive(Debug, Clone, PartialEq, Eq)]
pub enum StoreError {
    /// The store holds no object under the key.
    NoSuchKey(String),
    /// The object is archived and cannot be read as it is.
    InvalidObjectState(String),
    /// The request did not reach the store, or its answer did not come back.
    HttpDispatch(String),
    /// No usable credentials.
    Credentials(String),
    /// The request was malformed.
    Validation(String),
    /// The store's answer could not be read.
    ParseError(String),
    /// Any other answer of the store, with its HTTP status and body.
    Unknown { status: u16, body: String },
    /// A blocking call failed.
    Blocking,
}

/// The two classes of failure the gateway tells apart.
#[derive(Debug, Clone, PartialEq, Eq)]
pub enum FetchFailure {
    NotFound,
    Other(StoreError),
}

/// The class of a store error: only a missing key counts as not found.
pub open spec fn failure_class(e: StoreError) -> FetchFailure {
    match e {
        StoreError::NoSuchKey(_) => FetchFailure::NotFound,
        _ => FetchFailure::Other(e),
    }
}

/// Sorts a store error into "not found" and everything else, keeping the cause.
pub fn classify_store_error(e: StoreError) -> (r: FetchFailure)
    ensures
        r == failure_class(e),
{
    match e {
        StoreError::NoSuchKey(_) => FetchFailure::NotFound,
        other => FetchFailure::Other(other),
    }
}

/// The body of a reply: a fixed text, or the object's bytes as the store streams them.
#[derive(Debug, Clone, PartialEq, Eq)]
pub enum ReplyBody {
    Text(String),
    Stream,
}

/// The mathematical value of a `ReplyBody`.
pub enum BodyView {
    Text(Seq<char>),
    Stream,
}

/// Status, headers and body of a reply. A header that is `None` is not sent.
#[derive(Debug, Clone, PartialEq, Eq)]
pub struct Reply {
    pub status: u16,
    pub content_length: Option<u64>,
    pub content_type: Option<String>,
    /// Whether `Content-Encoding: identity` is sent, which keeps the body uncompressed.
    pub identity_encoding: bool,
    pub e_tag: Option<String>,
    pub content_range: Option<String>,
    pub accept_ranges: Option<String>,
    pub last_modified: Option<String>,
    pub cache_control: Option<String>,
    pub body: ReplyBody,
}

/// The mathematical value of a `Reply`.
pub struct ReplyView {
    pub status: u16,
    pub content_length: Option<u64>,
    pub content_type: Option<Seq<char>>,
    pub identity_encoding: bool,
    pub e_tag: Option<Seq<char>>,
    pub content_range: Option<Seq<char>>,
    pub accept_ranges: Option<Seq<char>>,
    pub last_modified: Option<Seq<char>>,
    pub cache_control: Option<Seq<char>>,
    pub body: BodyView,
}

impl View for Reply {
    type V = ReplyView;

    open spec fn view(&self) -> ReplyView {
        ReplyView {
            status: self.status,
            content_length: self.content_length,
            content_type: opt_chars(self.content_type),
            identity_encoding: self.identity_encoding,
            e_tag: opt_chars(self.e_tag),
            content_range: opt_chars(self.content_range),
            accept_ranges: opt_chars(self.accept_ranges),
            last_modified: opt_chars(self.last_modified),
            cache_control: opt_chars(self.cache_control),
            body: match self.body {
                ReplyBody::Text(t) => BodyView::Text(t@),
                ReplyBody::Stream => BodyView::Stream,
            },
        }
    }
}

/// The cache policy of every object reply: keys are taken never to change content.
pub open spec fn cache_policy() -> Seq<char> {
    "public, max-age=31536000"@
}

/// The reply that streams an object, given its metadata and key.
pub open spec fn object_reply(m: MetadataView, key: Seq<char>) -> ReplyView {
    let ct = resolved_type(m.content_type, key);
    ReplyView {
        status: if m.content_range is Some { 206 } else { 200 },
        content_length: match m.content_length {
            Some(n) => if n >= 0 { Some(n as u64) } else { None },
            None => None,
        },
        content_type: ct,
        identity_encoding: match ct {
            Some(t) => is_media_type(t),
            None => false,
        },
        e_tag: m.e_tag,
        content_range: m.content_range,
        accept_ranges: m.accept_ranges,
        last_modified: m.last_modified,
        cache_control: Some(cache_policy()),
        body: BodyView::Stream,
    }
}

/// A reply with a status and a fixed text, and no other header.
pub open spec fn text_reply(status: u16, body: Seq<char>) -> ReplyView {
    ReplyView {
        status,
        content_length: None,
        content_type: None,
        identity_encoding: false,
        e_tag: None,
        content_range: None,
        accept_ranges: None,
        last_modified: None,
        cache_control: None,
        body: BodyView::Text(body),
    }
}

/// The reply to a path that names no object.
pub open spec fn unrouted_reply() -> ReplyView {
    text_reply(404, "Resource not found!"@)
}

/// The reply to a failed fetch.
pub open spec fn failure_reply(f: FetchFailure) -> ReplyView {
    match f {
        FetchFailure::NotFound => text_reply(404, "404 - Not found"@),
        FetchFailure::Other(_) => text_reply(500, "500 - Internal Server Error"@),
    }
}

fn plain_reply(status: u16, body: &str) -> (r: Reply)
    ensures
        r@ == text_reply(status, body@),
{
    Reply {
        status,
        content_length: None,
        content_type: None,
        identity_encoding: false,
        e_tag: None,
        content_range: None,
        accept_ranges: None,
        last_modified: None,
        cache_control: None,
        body: ReplyBody::Text(body.to_owned()),
    }
}

/// The 404 reply to a path that names no object; the store is not asked.
pub fn unrouted_response() -> (r: Reply)
    ensures
        r@ == unrouted_reply(),
{
    plain_reply(404, "Resource not found!")
}

/// The reply to a failed fetch: 404 when the key is missing, 500 otherwise.
/// The cause of any other failure stays out of the reply.
pub fn failure_response(f: &FetchFailure) -> (r: Reply)
    ensures
        r@ == failure_reply(*f),
{
    match f {
        FetchFailure::NotFound => plain_reply(404, "404 - Not found"),
        FetchFailure::Other(_) => plain_reply(500, "500 - Internal Server Error"),
    }
}

/// Builds the reply that streams an object. Status 206 when the store reports a
/// content range, 200 otherwise; the length, tag, ranges and modification time
/// are handed on as reported; the content type is resolved against the key;
/// media types are sent with identity encoding; and the cache policy is fixed.
pub fn object_response(m: ObjectMetadata, key: &str) -> (r: Reply)
    ensures
        r@ == object_reply(m@, key@),
{
    let status: u16 = if m.content_range.is_some() { 206 } else { 200 };
    let content_length: Option<u64> = match m.content_length {
        Some(n) => if n >= 0 { Some(n as u64) } else { None },
        None => None,
    };
    let content_type = resolve_content_type(m.content_type, key);
    let identity_encoding = match &content_type {
        Some(t) => is_media(t.as_str()),
        None => false,
    };
    Reply {
        status,
        content_length,
        content_type,
        identity_encoding,
        e_tag: m.e_tag,
        content_range: m.content_range,
        accept_ranges: m.accept_ranges,
        last_modified: m.last_modified,
        cache_control: Some("public, max-age=31536000".to_owned()),
        body: ReplyBody::Stream,
    }
}

} // verus!
