//! Turning a request path into an object address, and an address and the
//! client's `Range` header into a fetch request for the store.
use vstd::prelude::*;
use crate::text::{opt_chars, find_char, first_pos};

verus! {

/// The part of the configuration that routing reads.
#[derive(Debug, Clone, PartialEq, Eq)]
pub struct RouteConfig {
    /// The bucket every key lives in; when absent, the path's first segment names it.
    pub bucket: Option<String>,
    /// A path segment that every request path begins with; absent when there is none.
    pub url_prefix: Option<String>,
}

/// Where a request path leads.
#[derive(Debug, Clone, PartialEq, Eq)]
pub enum RouteResult {
    Object { bucket: String, key: String },
    NotFound,
}

/// The mathematical value of a `RouteResult`.
pub enum RouteView {
    Object { bucket: Seq<char>, key: Seq<char> },
    NotFound,
}

impl View for RouteResult {
    type V = RouteView;

    open spec fn view(&self) -> RouteView {
        match self {
            RouteResult::Object { bucket, key } => RouteView::Object { bucket: bucket@, key: key@ },
            RouteResult::NotFound => RouteView::NotFound,
        }
    }
}

/// The path with the configured prefix segment and its `/` taken off; none when
/// the path does not begin with them. An empty prefix takes nothing off.
pub open spec fn strip_url_prefix(path: Seq<char>, prefix: Option<Seq<char>>) -> Option<Seq<char>> {
    match prefix {
        None => Some(path),
        Some(p) => if p.len() == 0 {
            Some(path)
        } else if (p + seq!['/']).is_prefix_of(path) {
            Some(path.subrange(p.len() + 1int, path.len() as int))
        } else {
            None
        },
    }
}

/// Bucket and key named by a path with the prefix already taken off.
pub open spec fn split_address(rest: Seq<char>, bucket: Option<Seq<char>>) -> (Seq<char>, Seq<char>) {
    match bucket {
        Some(b) => (b, rest),
        None => match first_pos(rest, '/') {
            Some(i) => (rest.subrange(0, i), rest.subrange(i + 1, rest.len() as int)),
            None => (rest, Seq::empty()),
        },
    }
}

/// Where `path` leads under the given bucket and prefix: an object only when
/// both its bucket and its key are non-empty.
pub open spec fn route_of(path: Seq<char>, bucket: Option<Seq<char>>, prefix: Option<Seq<char>>) -> RouteView {
    match strip_url_prefix(path, prefix) {
        None => RouteView::NotFound,
        Some(rest) => {
            let (b, k) = split_address(rest, bucket);
            if b.len() == 0 || k.len() == 0 {
                RouteView::NotFound
            } else {
                RouteView::Object { bucket: b, key: k }
            }
        },
    }
}

impl RouteConfig {
    /// The route that `path` takes under this configuration.
    pub open spec fn route_spec(&self, path: Seq<char>) -> RouteView {
        route_of(path, opt_chars(self.bucket), opt_chars(self.url_prefix))
    }
}

/// Takes the configured prefix segment off `path`.
fn strip_prefix_of(path: &str, prefix: &Option<String>) -> (r: Option<String>)
    ensures
        match r {
            Some(out) => strip_url_prefix(path@, opt_chars(*prefix)) == Some(out@),
            None => strip_url_prefix(path@, opt_chars(*prefix)) is None,
        },
{
    match prefix {
        None => {
            let whole = path.to_owned();
            assert(whole@ == path@);
            Some(whole)
        },
        Some(p) => {
            let m = p.unicode_len();
            let n = path.unicode_len();
            if m == 0 {
                return Some(path.to_owned());
            }
            if m >= n {
                assert((p@ + seq!['/']).len() == m + 1);
                return None;
            }
            let head = path.substring_char(0, m);
            let sep = path.get_char(m);
            if crate::text::same_text(head, p.as_str()) && sep == '/' {
                let rest = path.substring_char(m + 1, n);
                proof {
                    assert((p@ + seq!['/']) =~= path@.subrange(0, m + 1));
                }
                Some(rest.to_owned())
            } else {
                proof {
                    let q = p@ + seq!['/'];
                    if q.is_prefix_of(path@) {
                        assert(q.subrange(0, m as int) =~= p@);
                        assert(head@ =~= path@.subrange(0, m as int));
                        assert(path@.subrange(0, m as int) =~= q.subrange(0, m as int));
                        assert(q[m as int] == '/');
                        assert(path@.subrange(0, q.len() as int)[m as int] == path@[m as int]);
                    }
                }
                None
            }
        },
    }
}

/// Resolves a request path (without its leading `/`) into a bucket and a key.
/// With a configured bucket the whole path, less the prefix segment, is the key;
/// otherwise the path's first segment is the bucket and the rest is the key.
/// An empty bucket or key resolves to `NotFound`.
pub fn resolve_route(path: &str, config: &RouteConfig) -> (r: RouteResult)
    ensures
        r@ == config.route_spec(path@),
{
    let rest = match strip_prefix_of(path, &config.url_prefix) {
        None => return RouteResult::NotFound,
        Some(rest) => rest,
    };
    let (bucket, key): (String, String) = match &config.bucket {
        Some(b) => (b.clone(), rest),
        None => {
            let n = rest.unicode_len();
            let (first_slash, _) = find_char(rest.as_str(), '/');
            match first_slash {
                Some(i) => (
                    rest.substring_char(0, i).to_owned(),
                    rest.substring_char(i + 1, n).to_owned(),
                ),
                None => (rest, String::new()),
            }
        },
    };
    if bucket.unicode_len() == 0 || key.unicode_len() == 0 {
        RouteResult::NotFound
    } else {
        RouteResult::Object { bucket, key }
    }
}

/// What the gateway asks of the store.
#[derive(Debug, Clone, PartialEq, Eq)]
pub struct FetchRequest {
    pub bucket: String,
    pub key: String,
    /// The client's `Range` header, as it came.
    pub range: Option<String>,
}

/// Builds the store request for an object: bucket and key as resolved, and the
/// client's `Range` value handed on untouched.
pub fn build_fetch_request(bucket: String, key: String, range: Option<String>) -> (r: FetchRequest)
    ensures
        r.bucket@ == bucket@,
        r.key@ == key@,
        opt_chars(r.range) == opt_chars(range),
{
    FetchRequest { bucket, key, range }
}

} // verus!
