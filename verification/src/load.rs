//! The source resolver: classifies a locator, maps between extensions and
//! media types, and decides which stored asset serves a request — a cached
//! lower-resolution derivative, the full-resolution original, a previously
//! fetched remote asset, or a fresh remote fetch whose outcome is validated
//! and persisted.
//!
//! The resolver works over the in-library store model; reading the real
//! backing files and performing the HTTP transfer are the caller's work, and
//! every decision about their outcomes is made here.

use vstd::prelude::*;
use vstd::string::StringSliceAdditionalSpecFns;

use crate::cachekey::{cache_key_chars, remote_cache_key};
use crate::store::{EntryView, ImageMeta, MetaView, Store, StoreEntry, meta_view_of};
use crate::text::{begins_with, char_matches_lower, find_char_in, has_prefix, matches_lower,
    str_eq, str_matches_lower};
use crate::tier::chain_sufficient;
use crate::tier::check_image_for_using_regular;
use crate::transformation::Transformation;

verus! {

/// The media type an extension names; an unrecognized extension maps to
/// plain text, matching letters of the extension without regard to case.
pub open spec fn content_type_of_ext(ext: Seq<char>) -> Seq<char> {
    if matches_lower(ext, "jpg"@) || matches_lower(ext, "jpeg"@) {
        "image/jpeg"@
    } else if matches_lower(ext, "png"@) {
        "image/png"@
    } else if matches_lower(ext, "tif"@) || matches_lower(ext, "tiff"@) {
        "image/tiff"@
    } else {
        "text/plain"@
    }
}

/// The canonical extension of a supported media type; empty when the media
/// type is not an image format this library serves.
pub open spec fn ext_of_content_type(content_type: Seq<char>) -> Seq<char> {
    if content_type == "image/jpeg"@ {
        "jpg"@
    } else if content_type == "image/png"@ {
        "png"@
    } else if content_type == "image/tiff"@ {
        "tif"@
    } else {
        ""@
    }
}

/// Maps a file extension to the media type it names.
pub fn ext_to_content_type(ext: String) -> (r: String)
    ensures
        r@ == content_type_of_ext(ext@),
{
    let s = ext.as_str();
    if str_matches_lower(s, "jpg") || str_matches_lower(s, "jpeg") {
        String::from_str("image/jpeg")
    } else if str_matches_lower(s, "png") {
        String::from_str("image/png")
    } else if str_matches_lower(s, "tif") || str_matches_lower(s, "tiff") {
        String::from_str("image/tiff")
    } else {
        String::from_str("text/plain")
    }
}

/// Maps a media type to the canonical extension used when serving it.
pub fn content_type_to_ext(content_type: String) -> (r: String)
    ensures
        r@ == ext_of_content_type(content_type@),
{
    let s = content_type.as_str();
    if str_eq(s, "image/jpeg") {
        String::from_str("jpg")
    } else if str_eq(s, "image/png") {
        String::from_str("png")
    } else if str_eq(s, "image/tiff") {
        String::from_str("tif")
    } else {
        String::from_str("")
    }
}

/// A character a remote host name may start with.
pub open spec fn is_url_char(c: char) -> bool {
    ('0' <= c && c <= '9') || ('a' <= c && c <= 'z') || c == '.' || c == '-'
}

/// A locator naming a remote source: an `http://` or `https://` scheme
/// followed by at least one host character.
pub open spec fn is_remote_locator(s: Seq<char>) -> bool {
    ||| (begins_with(s, "http://"@) && s.len() > "http://"@.len() && is_url_char(
        s["http://"@.len() as int],
    ))
    ||| (begins_with(s, "https://"@) && s.len() > "https://"@.len() && is_url_char(
        s["https://"@.len() as int],
    ))
}

/// `s` names a file of the given lower-case extension, with a non-empty stem
/// before the dot, matching the extension without regard to case.
pub open spec fn ends_with_ext(s: Seq<char>, ext: Seq<char>) -> bool {
    s.len() >= ext.len() + 2 && s[s.len() - ext.len() - 1] == '.' && matches_lower(
        s.subrange(s.len() - ext.len(), s.len() as int),
        ext,
    )
}

/// A locator naming a local image: a relative path with a recognized image
/// extension.
pub open spec fn has_image_extension(s: Seq<char>) -> bool {
    ||| ends_with_ext(s, "jpg"@)
    ||| ends_with_ext(s, "jpeg"@)
    ||| ends_with_ext(s, "png"@)
    ||| ends_with_ext(s, "tif"@)
    ||| ends_with_ext(s, "tiff"@)
}

/// How a locator is served.
#[derive(Debug, Clone, Copy, PartialEq, Eq, Structural)]
pub enum LocatorKind {
    /// An absolute URL: served from the remote-fetch cache.
    Remote,
    /// A relative path with a recognized image extension: served from the
    /// local stores.
    LocalImage,
    /// Anything else: refused.
    Invalid,
}

/// The shape of a locator: a URL is remote, a path with a recognized image
/// extension is local, anything else is refused.
pub open spec fn classify_locator_spec(s: Seq<char>) -> LocatorKind {
    if is_remote_locator(s) {
        LocatorKind::Remote
    } else if has_image_extension(s) {
        LocatorKind::LocalImage
    } else {
        LocatorKind::Invalid
    }
}

fn is_url_char_exec(c: char) -> (r: bool)
    ensures
        r == is_url_char(c),
{
    ('0' <= c && c <= '9') || ('a' <= c && c <= 'z') || c == '.' || c == '-'
}

fn is_remote_exec(locator: &str) -> (r: bool)
    ensures
        r == is_remote_locator(locator@),
{
    proof {
        reveal_strlit("http://");
        reveal_strlit("https://");
    }
    if has_prefix(locator, "http://") {
        proof {
            if begins_with(locator@, "https://"@) {
                assert(locator@[4] == ':' && locator@[4] == 's');
            }
        }
        locator.unicode_len() > 7 && is_url_char_exec(locator.get_char(7))
    } else if has_prefix(locator, "https://") {
        locator.unicode_len() > 8 && is_url_char_exec(locator.get_char(8))
    } else {
        false
    }
}

fn ends_with_ext_exec(s: &str, ext: &str) -> (r: bool)
    ensures
        r == ends_with_ext(s@, ext@),
{
    let n = s.unicode_len();
    let m = ext.unicode_len();
    if n <= m || n - m < 2 {
        false
    } else if s.get_char(n - m - 1) != '.' {
        false
    } else {
        str_matches_lower(s.substring_char(n - m, n), ext)
    }
}

/// Classifies a locator by its shape.
pub fn classify_locator(locator: &str) -> (r: LocatorKind)
    ensures
        r == classify_locator_spec(locator@),
{
    if is_remote_exec(locator) {
        LocatorKind::Remote
    } else if ends_with_ext_exec(locator, "jpg") || ends_with_ext_exec(locator, "jpeg")
        || ends_with_ext_exec(locator, "png") || ends_with_ext_exec(locator, "tif")
        || ends_with_ext_exec(locator, "tiff") {
        LocatorKind::LocalImage
    } else {
        LocatorKind::Invalid
    }
}

/// Why a locator could not be resolved to an image.
#[derive(Debug, Clone, Copy, PartialEq, Eq, Structural)]
pub enum ResolveError {
    /// The locator's extension or the asset's media type is not recognized.
    InvalidFormat,
    /// No asset is stored under the locator.
    NotFound,
    /// The remote source was unreachable, answered without success, or did
    /// not answer with an image.
    FetchFailed,
    /// The fetched asset could not be persisted.
    IoError,
    /// A located asset's metadata could not be read.
    CrashedImage,
}

impl ResolveError {
    /// The diagnostic this failure is reported with.
    pub open spec fn message_spec(self) -> Seq<char> {
        match self {
            ResolveError::InvalidFormat => "Invalid format"@,
            ResolveError::NotFound => "Image not found"@,
            ResolveError::FetchFailed => "Invalid image link"@,
            ResolveError::IoError => "System Error"@,
            ResolveError::CrashedImage => "Crashed image"@,
        }
    }

    /// Renders the diagnostic this failure is reported with.
    pub fn message(&self) -> (r: String)
        ensures
            r@ == self.message_spec(),
    {
        match *self {
            ResolveError::InvalidFormat => String::from_str("Invalid format"),
            ResolveError::NotFound => String::from_str("Image not found"),
            ResolveError::FetchFailed => String::from_str("Invalid image link"),
            ResolveError::IoError => String::from_str("System Error"),
            ResolveError::CrashedImage => String::from_str("Crashed image"),
        }
    }
}

/// The storage level an asset is served from.
#[derive(Debug, Clone, Copy, PartialEq, Eq, Structural)]
pub enum Tier {
    /// The full-resolution, authoritative asset.
    Original,
    /// A cached lower-resolution derivative.
    Regular,
}

/// A resolved source: the stored bytes chosen to serve one request and the
/// extension naming their format, read from the chosen entry's metadata.
#[derive(Debug)]
pub struct ResolvedSource {
    pub bytes: Vec<u8>,
    pub ext: String,
    pub tier: Tier,
}

/// The metadata of the entry under `key`, where the entry exists and its
/// metadata is readable.
pub open spec fn readable_meta(store: Map<Seq<char>, EntryView>, key: Seq<char>) -> Option<
    MetaView,
> {
    if store.contains_key(key) {
        store[key].meta
    } else {
        None
    }
}

/// Serving from the original store: the entry's bytes under the format its
/// metadata reports; unreadable metadata of the original is fatal for the
/// request.
pub open spec fn resolve_from_original_spec(
    original: Map<Seq<char>, EntryView>,
    path: Seq<char>,
) -> Result<(Tier, Seq<u8>, Seq<char>), ResolveError> {
    match readable_meta(original, path) {
        Some(m) => Ok((Tier::Original, original[path].bytes, ext_of_content_type(m.media_type))),
        None => Err(ResolveError::CrashedImage),
    }
}

/// The local resolution decision: a missing original is not found; a
/// derivative with readable metadata serves when the tier selector accepts
/// it; everything else falls back to the original, whose metadata then must
/// be readable.
pub open spec fn resolve_local_spec(
    original: Map<Seq<char>, EntryView>,
    regular: Map<Seq<char>, EntryView>,
    path: Seq<char>,
    ops: Seq<Transformation>,
) -> Result<(Tier, Seq<u8>, Seq<char>), ResolveError> {
    if !original.contains_key(path) {
        Err(ResolveError::NotFound)
    } else {
        match readable_meta(regular, path) {
            Some(m) => if chain_sufficient(ops, m.pixel_width, m.pixel_height) {
                Ok((Tier::Regular, regular[path].bytes, ext_of_content_type(m.media_type)))
            } else {
                resolve_from_original_spec(original, path)
            },
            None => resolve_from_original_spec(original, path),
        }
    }
}

/// The local resolution decision depends on the store contents alone: with
/// no intervening store mutation, resolving the same locator twice chooses
/// the same tier, bytes and format.
pub proof fn lemma_local_resolution_idempotent(
    original_then: Map<Seq<char>, EntryView>,
    regular_then: Map<Seq<char>, EntryView>,
    original_now: Map<Seq<char>, EntryView>,
    regular_now: Map<Seq<char>, EntryView>,
    path: Seq<char>,
    ops: Seq<Transformation>,
)
    requires
        original_then == original_now,
        regular_then == regular_now,
    ensures
        resolve_local_spec(original_then, regular_then, path, ops) == resolve_local_spec(
            original_now,
            regular_now,
            path,
            ops,
        ),
{
}

fn copy_bytes(v: &Vec<u8>) -> (r: Vec<u8>)
    ensures
        r@ == v@,
{
    let n = v.len();
    let mut r: Vec<u8> = Vec::new();
    let mut i: usize = 0;
    while i < n
        invariant
            i <= n,
            n == v@.len(),
            r@ == v@.subrange(0, i as int),
        decreases n - i,
    {
        r.push(v[i]);
        proof {
            assert(r@ =~= v@.subrange(0, i + 1 as int));
        }
        i = i + 1;
    }
    proof {
        assert(v@.subrange(0, n as int) =~= v@);
    }
    r
}

fn serve_entry(entry: &StoreEntry, tier: Tier) -> (r: Result<ResolvedSource, ResolveError>)
    ensures
        match entry@.meta {
            Some(m) => r matches Ok(res) && res.tier == tier && res.bytes@ == entry@.bytes
                && res.ext@ == ext_of_content_type(m.media_type),
            None => r matches Err(e) && e == ResolveError::CrashedImage,
        },
{
    match &entry.meta {
        Some(m) => Ok(
            ResolvedSource {
                bytes: copy_bytes(&entry.bytes),
                ext: content_type_to_ext(m.media_type.clone()),
                tier,
            },
        ),
        None => Err(ResolveError::CrashedImage),
    }
}

/// Resolves a local locator against the original and derivative stores.
pub fn load_image_from_disk(
    relative_path: &str,
    operations: &Vec<Transformation>,
    original: &Store,
    regular: &Store,
) -> (r: Result<ResolvedSource, ResolveError>)
    ensures
        match r {
            Ok(res) => resolve_local_spec(original@, regular@, relative_path@, operations@)
                == Ok::<(Tier, Seq<u8>, Seq<char>), ResolveError>((res.tier, res.bytes@, res.ext@)),
            Err(e) => resolve_local_spec(original@, regular@, relative_path@, operations@)
                == Err::<(Tier, Seq<u8>, Seq<char>), ResolveError>(e),
        },
{
    let orig_entry = match original.get(relative_path) {
        Some(e) => e,
        None => {
            return Err(ResolveError::NotFound);
        },
    };
    match regular.get(relative_path) {
        Some(reg_entry) => match &reg_entry.meta {
            Some(m) => {
                if check_image_for_using_regular(m.pixel_width, m.pixel_height, operations) {
                    Ok(
                        ResolvedSource {
                            bytes: copy_bytes(&reg_entry.bytes),
                            ext: content_type_to_ext(m.media_type.clone()),
                            tier: Tier::Regular,
                        },
                    )
                } else {
                    serve_entry(orig_entry, Tier::Original)
                }
            },
            None => serve_entry(orig_entry, Tier::Original),
        },
        None => serve_entry(orig_entry, Tier::Original),
    }
}

/// What a previously fetched remote asset serves, when its cache slot holds
/// an entry with readable metadata.
pub open spec fn remote_lookup_spec(cache: Map<Seq<char>, EntryView>, key: Seq<char>) -> Option<
    (Seq<u8>, Seq<char>),
> {
    match readable_meta(cache, key) {
        Some(m) => Some((cache[key].bytes, ext_of_content_type(m.media_type))),
        None => None,
    }
}

/// Looks a remote locator up in its cache slot; a hit serves the persisted
/// bytes, a miss (or unreadable metadata) demands a fetch.
pub fn remote_cache_lookup(cache: &Store, url: &str) -> (r: Option<ResolvedSource>)
    ensures
        ({
            let key = cache_key_chars(url.spec_bytes());
            match r {
                Some(res) => remote_lookup_spec(cache@, key) == Some((res.bytes@, res.ext@))
                    && res.tier == Tier::Original,
                None => remote_lookup_spec(cache@, key) is None,
            }
        }),
{
    let key = remote_cache_key(url);
    match cache.get(key.as_str()) {
        Some(entry) => match &entry.meta {
            Some(m) => Some(
                ResolvedSource {
                    bytes: copy_bytes(&entry.bytes),
                    ext: content_type_to_ext(m.media_type.clone()),
                    tier: Tier::Original,
                },
            ),
            None => None,
        },
        None => None,
    }
}

/// What the transport reports of one HTTP GET: whether the status was a
/// success, the answer's content type, and its body.
#[derive(Debug)]
pub struct FetchResponse {
    pub status_success: bool,
    pub content_type: String,
    pub body: Vec<u8>,
}

/// A fetch outcome this service accepts: a success status and a content type
/// beginning with `image/`.
pub open spec fn fetch_acceptable(status_success: bool, content_type: Seq<char>) -> bool {
    status_success && begins_with(content_type, "image/"@)
}

/// Tests at run time whether a fetch outcome is acceptable, for callers that
/// must know whether to attempt the write.
pub fn fetch_is_acceptable(status_success: bool, content_type: &str) -> (r: bool)
    ensures
        r == fetch_acceptable(status_success, content_type@),
{
    status_success && has_prefix(content_type, "image/")
}

/// Validates a fetch outcome and persists an accepted body in the locator's
/// cache slot.
///
/// A rejected fetch (no success status, or a content type not beginning with
/// `image/`) fails with `FetchFailed` and leaves the cache untouched, as does
/// a failed write (`IoError`). An accepted, persisted body is served under
/// the format its freshly read metadata reports (`stored_meta`); when even
/// that metadata is unreadable the request fails with `CrashedImage`, the
/// persisted entry remaining for a later fetch to replace.
pub fn remote_store_fetch(
    cache: &mut Store,
    url: &str,
    response: FetchResponse,
    write_ok: bool,
    stored_meta: Option<ImageMeta>,
) -> (r: Result<ResolvedSource, ResolveError>)
    ensures
        ({
            let key = cache_key_chars(url.spec_bytes());
            let accepted = fetch_acceptable(response.status_success, response.content_type@);
            &&& (!accepted ==> r == Err::<ResolvedSource, ResolveError>(ResolveError::FetchFailed)
                && final(cache)@ == old(cache)@)
            &&& (accepted && !write_ok ==> r == Err::<ResolvedSource, ResolveError>(
                ResolveError::IoError,
            ) && final(cache)@ == old(cache)@)
            &&& (accepted && write_ok ==> final(cache)@ == old(cache)@.insert(
                key,
                EntryView { bytes: response.body@, meta: meta_view_of(stored_meta) },
            ))
            &&& (accepted && write_ok ==> match stored_meta {
                Some(m) => r matches Ok(res) && res.bytes@ == response.body@ && res.ext@
                    == ext_of_content_type(m@.media_type) && res.tier == Tier::Original,
                None => r == Err::<ResolvedSource, ResolveError>(ResolveError::CrashedImage),
            })
        }),
{
    if !(response.status_success && has_prefix(response.content_type.as_str(), "image/")) {
        return Err(ResolveError::FetchFailed);
    }
    if !write_ok {
        return Err(ResolveError::IoError);
    }
    let key = remote_cache_key(url);
    let ext = match &stored_meta {
        Some(m) => Some(content_type_to_ext(m.media_type.clone())),
        None => None,
    };
    let stored_bytes = copy_bytes(&response.body);
    cache.put(key, StoreEntry { bytes: stored_bytes, meta: stored_meta });
    match ext {
        Some(ext) => Ok(ResolvedSource { bytes: response.body, ext, tier: Tier::Original }),
        None => Err(ResolveError::CrashedImage),
    }
}

/// Once a fetch for a locator has been accepted and persisted with readable
/// metadata, the locator's cache slot serves exactly the fetched bytes: a
/// second request for the same locator needs no further fetch.
pub proof fn lemma_second_request_served_from_cache(
    cache: Map<Seq<char>, EntryView>,
    key: Seq<char>,
    body: Seq<u8>,
    m: MetaView,
)
    ensures
        remote_lookup_spec(
            cache.insert(key, EntryView { bytes: body, meta: Some(m) }),
            key,
        ) == Some((body, ext_of_content_type(m.media_type))),
{
}

/// How a locator is resolved, or what remains to be done for it: a remote
/// locator whose cache slot is empty needs one fetch, which
/// `remote_store_fetch` then validates and persists.
#[derive(Debug)]
pub enum Resolution {
    /// The request is served from a store.
    Resolved(ResolvedSource),
    /// A remote fetch is needed; the carried key names the cache slot the
    /// accepted body will be persisted under.
    NeedsFetch(String),
}

/// Resolves a locator: a URL is served from its cache slot in the original
/// store or handed back for one fetch; a local path with a recognized image
/// extension is resolved against the two stores; anything else is refused.
pub fn load_image(
    relative_path: &str,
    operations: &Vec<Transformation>,
    original: &Store,
    regular: &Store,
) -> (r: Result<Resolution, ResolveError>)
    ensures
        classify_locator_spec(relative_path@) == LocatorKind::Invalid ==> r == Err::<
            Resolution,
            ResolveError,
        >(ResolveError::InvalidFormat),
        classify_locator_spec(relative_path@) == LocatorKind::LocalImage ==> match r {
            Ok(res) => res matches Resolution::Resolved(src) && resolve_local_spec(
                original@,
                regular@,
                relative_path@,
                operations@,
            ) == Ok::<(Tier, Seq<u8>, Seq<char>), ResolveError>((src.tier, src.bytes@, src.ext@)),
            Err(e) => resolve_local_spec(original@, regular@, relative_path@, operations@)
                == Err::<(Tier, Seq<u8>, Seq<char>), ResolveError>(e),
        },
        classify_locator_spec(relative_path@) == LocatorKind::Remote ==> match remote_lookup_spec(
            original@,
            cache_key_chars(relative_path.spec_bytes()),
        ) {
            Some(served) => r matches Ok(res) && res matches Resolution::Resolved(src)
                && (src.bytes@, src.ext@) == served && src.tier == Tier::Original,
            None => r matches Ok(res) && res matches Resolution::NeedsFetch(key) && key@
                == cache_key_chars(relative_path.spec_bytes()),
        },
{
    match classify_locator(relative_path) {
        LocatorKind::Invalid => Err(ResolveError::InvalidFormat),
        LocatorKind::LocalImage => match load_image_from_disk(
            relative_path,
            operations,
            original,
            regular,
        ) {
            Ok(src) => Ok(Resolution::Resolved(src)),
            Err(e) => Err(e),
        },
        LocatorKind::Remote => match remote_cache_lookup(original, relative_path) {
            Some(src) => Ok(Resolution::Resolved(src)),
            None => Ok(Resolution::NeedsFetch(remote_cache_key(relative_path))),
        },
    }
}

/// The root directory assets are kept under: an explicitly configured root
/// wins; otherwise the default root, with the folder of the request appended
/// when one is named.
pub fn media_directory(configured: Option<String>, folder: &str) -> (r: String)
    ensures
        configured matches Some(v) ==> r@ == v@,
        configured is None && folder@ == "-"@ ==> r@ == "/media/"@,
        configured is None && folder@ != "-"@ ==> r@ == "/media/"@ + folder@ + "/"@,
{
    match configured {
        Some(v) => v,
        None => {
            if str_eq(folder, "-") {
                String::from_str("/media/")
            } else {
                let mut s = String::from_str("/media/");
                s.append(folder);
                s.append("/");
                proof {
                    assert(s@ =~= "/media/"@ + folder@ + "/"@);
                }
                s
            }
        },
    }
}

} // verus!
