//! One request from start to end: the path is routed, and either answered at
//! once or turned into a fetch; the fetch's outcome becomes the reply. The HTTP
//! layer performs the fetch in between and streams the body.
use vstd::prelude::*;
use crate::content_type::{extension_of, guessed_mime, is_generic_type, is_media_type};
use crate::response::{
    classify_store_error, failure_class, failure_reply, failure_response, object_reply,
    object_response, unrouted_reply, unrouted_response, MetadataView, ObjectMetadata, Reply,
    ReplyView, StoreError,
};
use crate::route::{build_fetch_request, resolve_route, FetchRequest, RouteConfig, RouteResult, RouteView};
use crate::text::{after_last, last_pos, opt_chars};

verus! {

/// What to do after routing: answer at once, or fetch from the store.
#[derive(Debug, Clone, PartialEq, Eq)]
pub enum RequestPlan {
    Respond(Reply),
    Fetch(FetchRequest),
}

/// The mathematical value of a `RequestPlan`.
pub enum PlanView {
    Respond(ReplyView),
    Fetch { bucket: Seq<char>, key: Seq<char>, range: Option<Seq<char>> },
}

impl View for RequestPlan {
    type V = PlanView;

    open spec fn view(&self) -> PlanView {
        match self {
            RequestPlan::Respond(r) => PlanView::Respond(r@),
            RequestPlan::Fetch(f) => PlanView::Fetch {
                bucket: f.bucket@,
                key: f.key@,
                range: opt_chars(f.range),
            },
        }
    }
}

/// The plan for a request: a path that names no object is answered with 404;
/// any other becomes a fetch of its bucket and key, with the `Range` value.
pub open spec fn plan_of(route: RouteView, range: Option<Seq<char>>) -> PlanView {
    match route {
        RouteView::NotFound => PlanView::Respond(unrouted_reply()),
        RouteView::Object { bucket, key } => PlanView::Fetch { bucket, key, range },
    }
}

/// The reply to the store's answer for `key`.
pub open spec fn outcome_reply(outcome: Result<MetadataView, StoreError>, key: Seq<char>) -> ReplyView {
    match outcome {
        Ok(m) => object_reply(m, key),
        Err(e) => failure_reply(failure_class(e)),
    }
}

/// The view of a store answer.
pub open spec fn outcome_view(outcome: Result<ObjectMetadata, StoreError>) -> Result<MetadataView, StoreError> {
    match outcome {
        Ok(m) => Ok(m@),
        Err(e) => Err(e),
    }
}

/// Routes a request path and decides what comes next. `range` is the client's
/// `Range` header, if it sent one.
pub fn plan_request(path: &str, config: &RouteConfig, range: Option<String>) -> (r: RequestPlan)
    ensures
        r@ == plan_of(config.route_spec(path@), opt_chars(range)),
{
    match resolve_route(path, config) {
        RouteResult::NotFound => RequestPlan::Respond(unrouted_response()),
        RouteResult::Object { bucket, key } => RequestPlan::Fetch(build_fetch_request(bucket, key, range)),
    }
}

/// Turns the store's answer for `key` into the reply.
pub fn complete_fetch(outcome: Result<ObjectMetadata, StoreError>, key: &str) -> (r: Reply)
    ensures
        r@ == outcome_reply(outcome_view(outcome), key@),
{
    match outcome {
        Ok(m) => object_response(m, key),
        Err(e) => {
            let failure = classify_store_error(e);
            failure_response(&failure)
        },
    }
}

/// A path that does not resolve to a non-empty bucket and key is answered with
/// 404 at once, and no fetch is planned.
pub proof fn lemma_unrouted_path_never_fetches(path: Seq<char>, config: RouteConfig, range: Option<Seq<char>>)
    requires
        config.route_spec(path) is NotFound,
    ensures
        plan_of(config.route_spec(path), range) matches PlanView::Respond(reply)
            && reply.status == 404,
        !(plan_of(config.route_spec(path), range) is Fetch),
{
}

/// A fetch is planned only for a non-empty bucket and key.
pub proof fn lemma_fetch_has_address(path: Seq<char>, config: RouteConfig, range: Option<Seq<char>>)
    ensures
        plan_of(config.route_spec(path), range) matches PlanView::Fetch { bucket, key, range: _ }
            ==> bucket.len() > 0 && key.len() > 0,
{
}

/// An object whose store type is `application/octet-stream` and whose key ends
/// in `.mp4` (after a file name of at least one character) is served with the
/// type registered for `mp4`.
pub proof fn lemma_mp4_served_by_extension(m: MetadataView, key: Seq<char>)
    requires
        m.content_type == Some("application/octet-stream"@),
        ".mp4"@.is_suffix_of(key),
        key.len() > 4,
        key[key.len() - 5] != '/',
    ensures
        object_reply(m, key).content_type == match guessed_mime("mp4"@) {
            Some(t) => Some(t),
            None => m.content_type,
        },
{
    reveal_strlit("application/octet-stream");
    reveal_strlit(".mp4");
    reveal_strlit("mp4");
    assert(is_generic_type(m.content_type->0));
    lemma_extension_of_mp4(key);
}

proof fn lemma_extension_of_mp4(key: Seq<char>)
    requires
        ".mp4"@.is_suffix_of(key),
        key.len() > 4,
        key[key.len() - 5] != '/',
    ensures
        extension_of(key) == Some("mp4"@),
{
    reveal_strlit(".mp4");
    reveal_strlit("mp4");
    let n = key.len() as int;
    assert(key[n - 4] == '.' && key[n - 3] == 'm' && key[n - 2] == 'p' && key[n - 1] == '4') by {
        assert(key.subrange(n - 4, n) =~= ".mp4"@);
        assert(key.subrange(n - 4, n)[0] == key[n - 4]);
        assert(key.subrange(n - 4, n)[1] == key[n - 3]);
        assert(key.subrange(n - 4, n)[2] == key[n - 2]);
        assert(key.subrange(n - 4, n)[3] == key[n - 1]);
    }
    assert(key =~= key.subrange(0, n));
    lemma_last_pos_step(key, n - 1, '/');
    lemma_last_pos_step(key, n - 2, '/');
    lemma_last_pos_step(key, n - 3, '/');
    lemma_last_pos_step(key, n - 4, '/');
    lemma_last_pos_step(key, n - 5, '/');
    assert(last_pos(key, '/') == last_pos(key.subrange(0, n - 5), '/'));
    lemma_last_pos_bound(key.subrange(0, n - 5), '/');
    let name = after_last(key, '/');
    let s = match last_pos(key, '/') { Some(i) => i + 1, None => 0 };
    assert(name =~= key.subrange(s, n));
    let l = name.len() as int;
    assert(l >= 5);
    assert(name[l - 4] == '.' && name[l - 3] == 'm' && name[l - 2] == 'p' && name[l - 1] == '4');
    assert(name =~= name.subrange(0, l));
    lemma_last_pos_step(name, l - 1, '.');
    lemma_last_pos_step(name, l - 2, '.');
    lemma_last_pos_step(name, l - 3, '.');
    lemma_last_pos_step(name, l - 4, '.');
    assert(last_pos(name, '.') == Some(l - 4));
    assert(after_last(name, '.') =~= "mp4"@);
}

proof fn lemma_last_pos_step(s: Seq<char>, j: int, c: char)
    requires
        0 <= j < s.len(),
    ensures
        last_pos(s.subrange(0, j + 1), c) == (if s[j] == c {
            Some(j)
        } else {
            last_pos(s.subrange(0, j), c)
        }),
{
    assert(s.subrange(0, j + 1).drop_last() =~= s.subrange(0, j));
}

proof fn lemma_last_pos_bound(s: Seq<char>, c: char)
    ensures
        last_pos_in(s, c),
    decreases s.len(),
{
    if s.len() > 0 && s.last() != c {
        lemma_last_pos_bound(s.drop_last(), c);
    }
}

spec fn last_pos_in(s: Seq<char>, c: char) -> bool {
    match last_pos(s, c) {
        Some(i) => 0 <= i < s.len(),
        None => true,
    }
}

/// Audio, video and image replies are always sent with identity encoding.
pub proof fn lemma_media_sent_uncompressed(m: MetadataView, key: Seq<char>)
    ensures
        object_reply(m, key).content_type matches Some(t) && is_media_type(t)
            ==> object_reply(m, key).identity_encoding,
{
}

/// An object reply has status 206 exactly when the store reports a content
/// range, and 200 otherwise; the range is handed on as reported.
pub proof fn lemma_partial_content_status(m: MetadataView, key: Seq<char>)
    ensures
        object_reply(m, key).status == (if m.content_range is Some { 206u16 } else { 200u16 }),
        object_reply(m, key).content_range == m.content_range,
{
}

/// Two answers for the same key about an unchanged object (metadata equal but
/// perhaps for its modification time) give replies equal in all but that time.
pub proof fn lemma_same_object_same_reply(m1: MetadataView, m2: MetadataView, key: Seq<char>)
    requires
        m1.content_length == m2.content_length,
        m1.content_type == m2.content_type,
        m1.e_tag == m2.e_tag,
        m1.content_range == m2.content_range,
        m1.accept_ranges == m2.accept_ranges,
    ensures
        object_reply(m1, key) == (ReplyView { last_modified: m1.last_modified, ..object_reply(m2, key) }),
{
}

/// The client's `Range` value reaches the store unchanged, and a content range
/// in the store's answer comes back to the client with status 206.
pub proof fn lemma_range_round_trip(
    path: Seq<char>,
    config: RouteConfig,
    range: Seq<char>,
    m: MetadataView,
)
    requires
        config.route_spec(path) is Object,
    ensures
        plan_of(config.route_spec(path), Some(range)) matches PlanView::Fetch { bucket: _, key: _, range: r }
            && r == Some(range),
        m.content_range is Some ==> outcome_reply(Ok(m), config.route_spec(path)->Object_key).status == 206
            && outcome_reply(Ok(m), config.route_spec(path)->Object_key).content_range == m.content_range,
{
}

} // verus!
