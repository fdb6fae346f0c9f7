use s3_proxy::content_type::{file_extension, is_generic, is_media, resolve_content_type};
use s3_proxy::gateway::{complete_fetch, plan_request, RequestPlan};
use s3_proxy::option_ext::OptionExt;
use s3_proxy::response::{
    classify_store_error, failure_response, object_response, unrouted_response, FetchFailure,
    ObjectMetadata, Reply, ReplyBody, StoreError,
};
use s3_proxy::route::{build_fetch_request, resolve_route, RouteConfig, RouteResult};
use s3_proxy::text::{find_char, has_prefix, same_text};

fn no_bucket() -> RouteConfig {
    RouteConfig { bucket: None, url_prefix: None }
}

fn with_bucket(b: &str) -> RouteConfig {
    RouteConfig { bucket: Some(b.to_string()), url_prefix: None }
}

fn object(bucket: &str, key: &str) -> RouteResult {
    RouteResult::Object { bucket: bucket.to_string(), key: key.to_string() }
}

fn meta(content_type: Option<&str>) -> ObjectMetadata {
    ObjectMetadata {
        content_length: Some(100),
        content_type: content_type.map(|s| s.to_string()),
        e_tag: Some("\"abc\"".to_string()),
        content_range: None,
        accept_ranges: Some("bytes".to_string()),
        last_modified: Some("Tue, 01 Jan 2019 00:00:00 GMT".to_string()),
    }
}

fn text_of(r: &Reply) -> String {
    match &r.body {
        ReplyBody::Text(t) => t.clone(),
        ReplyBody::Stream => panic!("expected a text body"),
    }
}

#[test]
fn path_splits_into_bucket_and_key() {
    assert_eq!(resolve_route("bucket1/dir/file.txt", &no_bucket()), object("bucket1", "dir/file.txt"));
}

#[test]
fn default_bucket_takes_whole_path_as_key() {
    assert_eq!(resolve_route("dir/file.txt", &with_bucket("media")), object("media", "dir/file.txt"));
}

#[test]
fn empty_path_is_not_found() {
    assert_eq!(resolve_route("", &no_bucket()), RouteResult::NotFound);
    assert_eq!(resolve_route("", &with_bucket("media")), RouteResult::NotFound);
}

#[test]
fn bucket_without_key_is_not_found() {
    assert_eq!(resolve_route("bucket1", &no_bucket()), RouteResult::NotFound);
    assert_eq!(resolve_route("bucket1/", &no_bucket()), RouteResult::NotFound);
    assert_eq!(resolve_route("/file.txt", &no_bucket()), RouteResult::NotFound);
}

#[test]
fn empty_default_bucket_is_not_found() {
    assert_eq!(resolve_route("file.txt", &with_bucket("")), RouteResult::NotFound);
}

#[test]
fn url_prefix_is_stripped() {
    let cfg = RouteConfig { bucket: None, url_prefix: Some("files".to_string()) };
    assert_eq!(resolve_route("files/b/k.txt", &cfg), object("b", "k.txt"));
    assert_eq!(resolve_route("other/b/k.txt", &cfg), RouteResult::NotFound);
    assert_eq!(resolve_route("filesb/k.txt", &cfg), RouteResult::NotFound);
    assert_eq!(resolve_route("files", &cfg), RouteResult::NotFound);
    let empty = RouteConfig { bucket: None, url_prefix: Some(String::new()) };
    assert_eq!(resolve_route("b/k", &empty), object("b", "k"));
}

#[test]
fn keys_keep_dot_segments() {
    assert_eq!(resolve_route("b/../x", &no_bucket()), object("b", "../x"));
}

#[test]
fn empty_path_plan_is_resource_not_found() {
    match plan_request("", &no_bucket(), None) {
        RequestPlan::Respond(r) => {
            assert_eq!(r.status, 404);
            assert_eq!(text_of(&r), "Resource not found!");
        }
        RequestPlan::Fetch(_) => panic!("store must not be contacted"),
    }
    assert_eq!(unrouted_response().status, 404);
}

#[test]
fn unroutable_paths_never_fetch() {
    for p in ["", "bucket", "bucket/", "/key"] {
        assert!(matches!(plan_request(p, &no_bucket(), Some("bytes=0-1".to_string())), RequestPlan::Respond(_)));
    }
}

#[test]
fn missing_key_is_404() {
    let r = complete_fetch(Err(StoreError::NoSuchKey("missing.txt".to_string())), "missing.txt");
    assert_eq!(r.status, 404);
    assert_eq!(text_of(&r), "404 - Not found");
}

#[test]
fn other_store_errors_are_500() {
    let errs = vec![
        StoreError::InvalidObjectState("archived".to_string()),
        StoreError::HttpDispatch("reset".to_string()),
        StoreError::Credentials("none".to_string()),
        StoreError::Validation("bad".to_string()),
        StoreError::ParseError("xml".to_string()),
        StoreError::Unknown { status: 403, body: "denied".to_string() },
        StoreError::Blocking,
    ];
    for e in errs {
        assert_eq!(classify_store_error(e.clone()), FetchFailure::Other(e.clone()));
        let r = complete_fetch(Err(e), "k");
        assert_eq!(r.status, 500);
        assert_eq!(text_of(&r), "500 - Internal Server Error");
    }
    assert_eq!(classify_store_error(StoreError::NoSuchKey("k".to_string())), FetchFailure::NotFound);
    assert_eq!(failure_response(&FetchFailure::NotFound).status, 404);
}

#[test]
fn range_is_forwarded_and_content_range_returned() {
    let plan = plan_request("b/video.mp4", &no_bucket(), Some("bytes=0-99".to_string()));
    let fetch = match plan {
        RequestPlan::Fetch(f) => f,
        RequestPlan::Respond(_) => panic!("expected a fetch"),
    };
    assert_eq!(fetch.bucket, "b");
    assert_eq!(fetch.key, "video.mp4");
    assert_eq!(fetch.range, Some("bytes=0-99".to_string()));
    let mut m = meta(Some("video/mp4"));
    m.content_range = Some("bytes 0-99/1000".to_string());
    let r = complete_fetch(Ok(m), &fetch.key);
    assert_eq!(r.status, 206);
    assert_eq!(r.content_range, Some("bytes 0-99/1000".to_string()));
}

#[test]
fn fetch_request_copies_its_parts() {
    let f = build_fetch_request("b".to_string(), "k".to_string(), None);
    assert_eq!(f.bucket, "b");
    assert_eq!(f.key, "k");
    assert_eq!(f.range, None);
}

#[test]
fn status_is_200_without_content_range() {
    let r = object_response(meta(Some("text/plain")), "a.txt");
    assert_eq!(r.status, 200);
    assert_eq!(r.content_range, None);
    assert_eq!(r.body, ReplyBody::Stream);
}

#[test]
fn octet_stream_mp4_is_served_as_video() {
    let r = object_response(meta(Some("application/octet-stream")), "clips/movie.mp4");
    assert_eq!(r.content_type, Some("video/mp4".to_string()));
    assert!(r.identity_encoding);
}

#[test]
fn binary_octet_stream_uses_extension() {
    let r = object_response(meta(Some("binary/octet-stream")), "song.mp3");
    assert_eq!(r.content_type, Some("audio/mpeg".to_string()));
    assert!(r.identity_encoding);
    let r = object_response(meta(Some("binary/octet-stream")), "data.json");
    assert_eq!(r.content_type, Some("application/json".to_string()));
    assert!(!r.identity_encoding);
}

#[test]
fn unknown_extension_keeps_generic_type() {
    let r = object_response(meta(Some("application/octet-stream")), "blob.zzqx");
    assert_eq!(r.content_type, Some("application/octet-stream".to_string()));
    let r = object_response(meta(Some("binary/octet-stream")), "noext");
    assert_eq!(r.content_type, Some("binary/octet-stream".to_string()));
    let r = object_response(meta(Some("binary/octet-stream")), "dir/.mp4");
    assert_eq!(r.content_type, Some("binary/octet-stream".to_string()));
}

#[test]
fn specific_store_type_is_kept() {
    let r = object_response(meta(Some("text/html")), "page.mp4");
    assert_eq!(r.content_type, Some("text/html".to_string()));
    assert!(!r.identity_encoding);
    assert_eq!(object_response(meta(None), "a.mp4").content_type, None);
}

#[test]
fn media_types_get_identity_encoding() {
    for t in ["audio/ogg", "video/webm", "image/png"] {
        assert!(object_response(meta(Some(t)), "x").identity_encoding);
    }
    assert!(object_response(meta(Some("application/octet-stream")), "p.png").identity_encoding);
    assert!(!object_response(meta(Some("text/plain")), "x").identity_encoding);
}

#[test]
fn headers_are_passed_through() {
    let r = object_response(meta(Some("text/plain")), "a.txt");
    assert_eq!(r.content_length, Some(100));
    assert_eq!(r.e_tag, Some("\"abc\"".to_string()));
    assert_eq!(r.accept_ranges, Some("bytes".to_string()));
    assert_eq!(r.last_modified, Some("Tue, 01 Jan 2019 00:00:00 GMT".to_string()));
    assert_eq!(r.cache_control, Some("public, max-age=31536000".to_string()));
    let mut m = meta(Some("text/plain"));
    m.content_length = None;
    m.e_tag = None;
    let r = object_response(m, "a.txt");
    assert_eq!(r.content_length, None);
    assert_eq!(r.e_tag, None);
}

#[test]
fn same_object_gives_same_reply() {
    let a = complete_fetch(Ok(meta(Some("application/octet-stream"))), "v.mp4");
    let b = complete_fetch(Ok(meta(Some("application/octet-stream"))), "v.mp4");
    assert_eq!(a, b);
    let mut m = meta(Some("application/octet-stream"));
    m.last_modified = Some("Wed, 02 Jan 2019 00:00:00 GMT".to_string());
    let mut c = complete_fetch(Ok(m), "v.mp4");
    c.last_modified = a.last_modified.clone();
    assert_eq!(a, c);
}

#[test]
fn extension_follows_last_dot_of_file_name() {
    assert_eq!(file_extension("a/b/c.tar.gz"), Some("gz".to_string()));
    assert_eq!(file_extension("a.b/c"), None);
    assert_eq!(file_extension(".hidden"), None);
    assert_eq!(file_extension("name."), Some(String::new()));
    assert_eq!(file_extension(""), None);
    assert_eq!(resolve_content_type(Some("application/octet-stream".to_string()), "x.PNG"), Some("image/png".to_string()));
}

#[test]
fn text_helpers() {
    assert_eq!(find_char("a/b/c", '/'), (Some(1), Some(3)));
    assert_eq!(find_char("abc", '/'), (None, None));
    assert!(has_prefix("video/mp4", "video"));
    assert!(!has_prefix("vid", "video"));
    assert!(same_text("abc", "abc"));
    assert!(!same_text("abc", "abd"));
    assert!(is_generic("binary/octet-stream"));
    assert!(!is_generic("application/octet-streams"));
    assert!(is_media("image/jpeg"));
    assert!(!is_media("text/image"));
}

#[test]
fn filter_val_keeps_matching_values() {
    assert_eq!(Some(4).filter_val(|x: &i32| *x % 2 == 0), Some(4));
    assert_eq!(Some(3).filter_val(|x: &i32| *x % 2 == 0), None);
    assert_eq!(None.filter_val(|x: &i32| *x % 2 == 0), None);
}
