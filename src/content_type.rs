//! Content-type resolution: a key's file extension, the type registered for
//! it, and the rule that decides which type a reply carries.
use vstd::prelude::*;
use crate::text::{opt_chars, after_last, find_char, has_prefix, same_text};

verus! {

/// The first media type that mime_guess registers for an extension, if any.
pub uninterp spec fn guessed_mime(ext: Seq<char>) -> Option<Seq<char>>;

/// Relies on `mime_guess::from_ext(..).first_raw()`: the first media type of the
/// crate's static table for the extension (looked up without regard to case),
/// and none for an empty extension.
#[verifier::external_body]
fn mime_for_extension(ext: &str) -> (r: Option<String>)
    ensures
        match r {
            Some(m) => guessed_mime(ext@) == Some(m@),
            None => guessed_mime(ext@) is None,
        },
        ext@.len() == 0 ==> r is None,
{
    mime_guess::from_ext(ext).first_raw().map(|m| m.to_string())
}

/// The last path segment of a key: what follows its last `/`.
pub open spec fn file_name(key: Seq<char>) -> Seq<char> {
    after_last(key, '/')
}

/// The extension of a key's file name: what follows the last `.` of the name,
/// provided that `.` is not the name's first character.
pub open spec fn extension_of(key: Seq<char>) -> Option<Seq<char>> {
    let name = file_name(key);
    let ext = after_last(name, '.');
    if ext.len() + 1 < name.len() {
        Some(ext)
    } else {
        None
    }
}

/// The two types an object store reports when it knows nothing better.
pub open spec fn is_generic_type(ct: Seq<char>) -> bool {
    ct == "application/octet-stream"@ || ct == "binary/octet-stream"@
}

/// The content type a reply carries, given what the store reported and the key.
pub open spec fn resolved_type(reported: Option<Seq<char>>, key: Seq<char>) -> Option<Seq<char>> {
    match reported {
        None => None,
        Some(ct) => if is_generic_type(ct) {
            match extension_of(key) {
                Some(ext) => match guessed_mime(ext) {
                    Some(m) => Some(m),
                    None => Some(ct),
                },
                None => Some(ct),
            }
        } else {
            Some(ct)
        },
    }
}

/// Whether a content type names audio, video or an image.
pub open spec fn is_media_type(ct: Seq<char>) -> bool {
    "audio"@.is_prefix_of(ct) || "video"@.is_prefix_of(ct) || "image"@.is_prefix_of(ct)
}

/// The extension of `key`'s file name, as `extension_of` defines it.
pub fn file_extension(key: &str) -> (r: Option<String>)
    ensures
        match r {
            Some(e) => extension_of(key@) == Some(e@),
            None => extension_of(key@) is None,
        },
{
    let n = key.unicode_len();
    let (_, last_slash) = find_char(key, '/');
    let start: usize = match last_slash {
        Some(i) => i + 1,
        None => 0,
    };
    let name = key.substring_char(start, n);
    assert(name@ == file_name(key@));
    let m = name.unicode_len();
    let (_, last_dot) = find_char(name, '.');
    match last_dot {
        Some(d) => {
            if d > 0 {
                Some(name.substring_char(d + 1, m).to_owned())
            } else {
                None
            }
        },
        None => None,
    }
}

/// Whether `ct` is one of the generic binary types.
pub fn is_generic(ct: &str) -> (r: bool)
    ensures
        r == is_generic_type(ct@),
{
    same_text(ct, "application/octet-stream") || same_text(ct, "binary/octet-stream")
}

/// Whether `ct` names audio, video or an image.
pub fn is_media(ct: &str) -> (r: bool)
    ensures
        r == is_media_type(ct@),
{
    has_prefix(ct, "audio") || has_prefix(ct, "video") || has_prefix(ct, "image")
}

/// Chooses the content type of a reply: a generic type reported by the store
/// gives way to the type registered for the key's extension, when there is one;
/// any other reported type is kept as it is.
pub fn resolve_content_type(reported: Option<String>, key: &str) -> (r: Option<String>)
    ensures
        match r {
            Some(t) => resolved_type(opt_chars(reported), key@) == Some(t@),
            None => resolved_type(opt_chars(reported), key@) is None,
        },
{
    match reported {
        None => None,
        Some(ct) => {
            if is_generic(ct.as_str()) {
                match file_extension(key) {
                    Some(ext) => match mime_for_extension(ext.as_str()) {
                        Some(m) => Some(m),
                        None => Some(ct),
                    },
                    None => Some(ct),
                }
            } else {
                Some(ct)
            }
        },
    }
}

} // verus!
