//! Decision logic of the content-addressed image cache: where an image
//! lives on disk, and what to do with each HTTP response to a conditional
//! fetch. The file system itself is an outside collaborator that carries
//! these decisions out.

use vstd::prelude::*;

use crate::error::ApiError;
use crate::text::dec_chars;

verus! {

/// Bodies of this many bytes or fewer are placeholder images the server
/// returns for missing assets; they are never persisted.
pub const IMAGE_SIZE_THRESHOLD: usize = 1000;

/// The file name of a cached image: `{id}-{image_type}-{tag}`, with tag 0
/// when none is given.
pub open spec fn cache_name_chars(id: Seq<char>, image_type: Seq<char>, tag: Option<u8>) -> Seq<
    char,
> {
    id + "-"@ + image_type + "-"@ + dec_chars(
        match tag {
            Some(t) => t as nat,
            None => 0,
        },
    )
}

/// The full local path of a cached image under the cache directory.
pub open spec fn cache_path_chars(
    cache_dir: Seq<char>,
    id: Seq<char>,
    image_type: Seq<char>,
    tag: Option<u8>,
) -> Seq<char> {
    cache_dir + "/"@ + cache_name_chars(id, image_type, tag)
}

/// Computes the local path of the cache entry for `(id, image_type, tag)`.
pub fn image_cache_path(cache_dir: &str, id: &str, image_type: &str, tag: Option<u8>) -> (r:
    String)
    ensures
        r@ == cache_path_chars(cache_dir@, id@, image_type@, tag),
{
    let mut r = cache_dir.to_owned();
    r.append("/");
    r.append(id);
    r.append("-");
    r.append(image_type);
    r.append("-");
    let t: u64 = match tag {
        Some(t) => t as u64,
        None => 0,
    };
    let d = crate::text::u64_to_dec(t);
    r.append(d.as_str());
    r
}

/// What the caller must do with the response to a conditional image fetch.
pub enum ImageAction {
    /// Not modified: the existing file is current; return its path and do
    /// not touch the file.
    UseCached,
    /// A real image arrived: write the body to the computed path,
    /// overwriting, and record the entity tag (best effort) for later
    /// revalidation.
    Store { etag: Option<String> },
    /// A placeholder arrived (body at or under the size threshold): write
    /// nothing and report no meaningful image.
    Discard,
    /// Any other status: the fetch failed.
    Fail { status: u16 },
}

/// Decides what to do with the response to a conditional image fetch:
/// a redirection-class status means the cached copy is current; a success
/// means store the body when it is larger than the placeholder threshold
/// and discard it otherwise; anything else is a failure carrying the
/// status.
pub fn plan_image_response(status: u16, etag: Option<String>, body_len: usize) -> (r: ImageAction)
    ensures
        300 <= status < 400 ==> r == ImageAction::UseCached,
        200 <= status < 300 && body_len > IMAGE_SIZE_THRESHOLD ==> r == (ImageAction::Store {
            etag,
        }),
        200 <= status < 300 && body_len <= IMAGE_SIZE_THRESHOLD ==> r == ImageAction::Discard,
        !(200 <= status < 400) ==> r == (ImageAction::Fail { status }),
{
    if 300 <= status && status < 400 {
        ImageAction::UseCached
    } else if 200 <= status && status < 300 {
        if body_len > IMAGE_SIZE_THRESHOLD {
            ImageAction::Store { etag }
        } else {
            ImageAction::Discard
        }
    } else {
        ImageAction::Fail { status }
    }
}

/// Folds an image-fetch decision into the caller-facing result: the local
/// path for a current or newly stored image, the empty path for a
/// discarded placeholder, and an `Http` error for a failed fetch.
pub fn image_result(path: String, action: &ImageAction) -> (r: Result<String, ApiError>)
    ensures
        match action {
            ImageAction::UseCached => r matches Ok(p) && p@ == path@,
            ImageAction::Store { .. } => r matches Ok(p) && p@ == path@,
            ImageAction::Discard => r matches Ok(p) && p@.len() == 0,
            ImageAction::Fail { status } => r == Err::<String, ApiError>(
                ApiError::Http(*status),
            ),
        },
{
    match action {
        ImageAction::UseCached => Ok(path),
        ImageAction::Store { .. } => Ok(path),
        ImageAction::Discard => Ok(String::new()),
        ImageAction::Fail { status } => Err(ApiError::Http(*status)),
    }
}

} // verus!
