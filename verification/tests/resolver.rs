use transformer::cachekey::{hash_string, remote_cache_key, u64_to_decimal};
use transformer::load::{classify_locator, content_type_to_ext, ext_to_content_type, load_image,
    load_image_from_disk, media_directory, remote_cache_lookup, remote_store_fetch, FetchResponse,
    LocatorKind, Resolution, ResolveError, Tier};
use transformer::store::{ImageMeta, Store, StoreEntry};
use transformer::transformation::Transformation;

fn meta(width: i32, height: i32, media_type: &str) -> ImageMeta {
    ImageMeta { pixel_width: width, pixel_height: height, media_type: media_type.to_string() }
}

fn entry(bytes: &[u8], m: Option<ImageMeta>) -> StoreEntry {
    StoreEntry { bytes: bytes.to_vec(), meta: m }
}

#[test]
fn extension_maps_ignore_case() {
    assert_eq!(ext_to_content_type("jpg".to_string()), "image/jpeg");
    assert_eq!(ext_to_content_type("JPEG".to_string()), "image/jpeg");
    assert_eq!(ext_to_content_type("png".to_string()), "image/png");
    assert_eq!(ext_to_content_type("TIFF".to_string()), "image/tiff");
    assert_eq!(ext_to_content_type("tif".to_string()), "image/tiff");
    assert_eq!(ext_to_content_type("bmp".to_string()), "text/plain");
}

#[test]
fn media_types_map_to_canonical_extensions() {
    assert_eq!(content_type_to_ext("image/jpeg".to_string()), "jpg");
    assert_eq!(content_type_to_ext("image/png".to_string()), "png");
    assert_eq!(content_type_to_ext("image/tiff".to_string()), "tif");
    assert_eq!(content_type_to_ext("image/gif".to_string()), "");
    assert_eq!(content_type_to_ext("IMAGE/JPEG".to_string()), "");
}

#[test]
fn locators_classify_by_shape() {
    assert_eq!(classify_locator("http://example.com/a.png"), LocatorKind::Remote);
    assert_eq!(classify_locator("https://example.com/a"), LocatorKind::Remote);
    assert_eq!(classify_locator("photos/a.jpg"), LocatorKind::LocalImage);
    assert_eq!(classify_locator("a.JPG"), LocatorKind::LocalImage);
    assert_eq!(classify_locator("a.tiff"), LocatorKind::LocalImage);
    assert_eq!(classify_locator("a.txt"), LocatorKind::Invalid);
    assert_eq!(classify_locator(".jpg"), LocatorKind::Invalid);
    assert_eq!(classify_locator("http://"), LocatorKind::Invalid);
    // No recognized scheme: the extension decides.
    assert_eq!(classify_locator("ftp://host/a.jpg"), LocatorKind::LocalImage);
}

#[test]
fn error_messages_match_their_kinds() {
    assert_eq!(ResolveError::InvalidFormat.message(), "Invalid format");
    assert_eq!(ResolveError::NotFound.message(), "Image not found");
    assert_eq!(ResolveError::FetchFailed.message(), "Invalid image link");
    assert_eq!(ResolveError::IoError.message(), "System Error");
    assert_eq!(ResolveError::CrashedImage.message(), "Crashed image");
}

#[test]
fn missing_original_is_not_found() {
    let original = Store::new();
    let regular = Store::new();
    let ops = vec![Transformation::Rotate { degrees: 90 }];
    let r = load_image_from_disk("a.jpg", &ops, &original, &regular);
    assert!(matches!(r, Err(ResolveError::NotFound)));
}

#[test]
fn sufficient_derivative_serves_the_request() {
    let mut original = Store::new();
    let mut regular = Store::new();
    original.put("a.jpg".to_string(), entry(b"ORIG", Some(meta(400, 200, "image/jpeg"))));
    regular.put("a.jpg".to_string(), entry(b"REG", Some(meta(200, 100, "image/jpeg"))));
    let ops = vec![Transformation::Resize { height: None, width: Some(100) }];
    let r = load_image_from_disk("a.jpg", &ops, &original, &regular).unwrap();
    assert_eq!(r.bytes, b"REG");
    assert_eq!(r.ext, "jpg");
    assert_eq!(r.tier, Tier::Regular);
}

#[test]
fn insufficient_derivative_falls_back_to_original() {
    let mut original = Store::new();
    let mut regular = Store::new();
    original.put("a.jpg".to_string(), entry(b"ORIG", Some(meta(400, 200, "image/png"))));
    regular.put("a.jpg".to_string(), entry(b"REG", Some(meta(200, 100, "image/jpeg"))));
    let ops = vec![Transformation::Resize { height: None, width: Some(300) }];
    let r = load_image_from_disk("a.jpg", &ops, &original, &regular).unwrap();
    assert_eq!(r.bytes, b"ORIG");
    // The format comes from the chosen entry's metadata, not the derivative's.
    assert_eq!(r.ext, "png");
    assert_eq!(r.tier, Tier::Original);
}

#[test]
fn unreadable_derivative_metadata_falls_back_to_original() {
    let mut original = Store::new();
    let mut regular = Store::new();
    original.put("a.jpg".to_string(), entry(b"ORIG", Some(meta(400, 200, "image/jpeg"))));
    regular.put("a.jpg".to_string(), entry(b"REG", None));
    let ops = vec![Transformation::Resize { height: None, width: Some(1) }];
    let r = load_image_from_disk("a.jpg", &ops, &original, &regular).unwrap();
    assert_eq!(r.bytes, b"ORIG");
    assert_eq!(r.tier, Tier::Original);
}

#[test]
fn unreadable_original_metadata_is_fatal() {
    let mut original = Store::new();
    let regular = Store::new();
    original.put("a.jpg".to_string(), entry(b"ORIG", None));
    let ops = vec![Transformation::Rotate { degrees: 90 }];
    let r = load_image_from_disk("a.jpg", &ops, &original, &regular);
    assert!(matches!(r, Err(ResolveError::CrashedImage)));
}

#[test]
fn local_resolution_is_idempotent() {
    let mut original = Store::new();
    let mut regular = Store::new();
    original.put("a.jpg".to_string(), entry(b"ORIG", Some(meta(400, 200, "image/jpeg"))));
    regular.put("a.jpg".to_string(), entry(b"REG", Some(meta(200, 100, "image/jpeg"))));
    let ops = vec![Transformation::Resize { height: Some(80), width: None }];
    let first = load_image_from_disk("a.jpg", &ops, &original, &regular).unwrap();
    let second = load_image_from_disk("a.jpg", &ops, &original, &regular).unwrap();
    assert_eq!(first.tier, second.tier);
    assert_eq!(first.bytes, second.bytes);
    assert_eq!(first.ext, second.ext);
}

#[test]
fn invalid_locator_is_refused() {
    let original = Store::new();
    let regular = Store::new();
    let ops = vec![Transformation::Rotate { degrees: 90 }];
    let r = load_image("notes.txt", &ops, &original, &regular);
    assert!(matches!(r, Err(ResolveError::InvalidFormat)));
}

#[test]
fn remote_miss_asks_for_one_fetch_and_the_second_request_is_served_from_cache() {
    let url = "http://example.com/pic";
    let mut original = Store::new();
    let regular = Store::new();
    let ops = vec![Transformation::Rotate { degrees: 90 }];

    // First request: nothing cached, one fetch is demanded.
    let key = match load_image(url, &ops, &original, &regular).unwrap() {
        Resolution::NeedsFetch(key) => key,
        Resolution::Resolved(_) => panic!("nothing is cached yet"),
    };
    assert_eq!(key, remote_cache_key(url));

    // The fetch succeeds and is persisted.
    let response = FetchResponse {
        status_success: true,
        content_type: "image/png".to_string(),
        body: b"PNGBYTES".to_vec(),
    };
    let served =
        remote_store_fetch(&mut original, url, response, true, Some(meta(10, 10, "image/png")))
            .unwrap();
    assert_eq!(served.bytes, b"PNGBYTES");
    assert_eq!(served.ext, "png");

    // Second request: served from the persisted blob, with identical bytes.
    match load_image(url, &ops, &original, &regular).unwrap() {
        Resolution::Resolved(r) => {
            assert_eq!(r.bytes, b"PNGBYTES");
            assert_eq!(r.ext, "png");
        },
        Resolution::NeedsFetch(_) => panic!("the second request must not fetch"),
    }
}

#[test]
fn failed_status_yields_fetch_failed_and_no_cache_entry() {
    let url = "http://example.com/gone";
    let mut cache = Store::new();
    let response = FetchResponse {
        status_success: false,
        content_type: "image/png".to_string(),
        body: b"IGNORED".to_vec(),
    };
    let r = remote_store_fetch(&mut cache, url, response, true, Some(meta(1, 1, "image/png")));
    assert!(matches!(r, Err(ResolveError::FetchFailed)));
    assert!(cache.get(&remote_cache_key(url)).is_none());
}

#[test]
fn html_answer_yields_fetch_failed_and_no_cache_entry() {
    let url = "http://example.com/page";
    let mut cache = Store::new();
    let response = FetchResponse {
        status_success: true,
        content_type: "text/html".to_string(),
        body: b"<html></html>".to_vec(),
    };
    let r = remote_store_fetch(&mut cache, url, response, true, None);
    assert!(matches!(r, Err(ResolveError::FetchFailed)));
    assert!(cache.get(&remote_cache_key(url)).is_none());
    assert!(remote_cache_lookup(&cache, url).is_none());
}

#[test]
fn failed_write_yields_io_error_and_no_cache_entry() {
    let url = "http://example.com/pic";
    let mut cache = Store::new();
    let response = FetchResponse {
        status_success: true,
        content_type: "image/jpeg".to_string(),
        body: b"JPEG".to_vec(),
    };
    let r = remote_store_fetch(&mut cache, url, response, false, Some(meta(1, 1, "image/jpeg")));
    assert!(matches!(r, Err(ResolveError::IoError)));
    assert!(cache.get(&remote_cache_key(url)).is_none());
}

#[test]
fn unreadable_metadata_after_store_is_fatal_and_demands_a_later_fetch() {
    let url = "http://example.com/odd";
    let mut cache = Store::new();
    let response = FetchResponse {
        status_success: true,
        content_type: "image/jpeg".to_string(),
        body: b"ODD".to_vec(),
    };
    let r = remote_store_fetch(&mut cache, url, response, true, None);
    assert!(matches!(r, Err(ResolveError::CrashedImage)));
    // The blob was persisted, but without readable metadata it does not serve.
    assert!(cache.get(&remote_cache_key(url)).is_some());
    assert!(remote_cache_lookup(&cache, url).is_none());
}

#[test]
fn cache_keys_are_stable_and_decimal() {
    let url = "http://example.com/pic";
    assert_eq!(hash_string(url), hash_string(url));
    assert_eq!(remote_cache_key(url), u64_to_decimal(hash_string(url)));
    assert!(remote_cache_key(url).chars().all(|c| c.is_ascii_digit()));
    assert_ne!(remote_cache_key("http://example.com/a"), remote_cache_key("http://example.com/b"));
}

#[test]
fn decimal_rendering_of_small_and_large_numbers() {
    assert_eq!(u64_to_decimal(0), "0");
    assert_eq!(u64_to_decimal(7), "7");
    assert_eq!(u64_to_decimal(1203), "1203");
    assert_eq!(u64_to_decimal(u64::MAX), "18446744073709551615");
}

#[test]
fn fnv_hash_of_empty_input_is_the_offset_basis() {
    assert_eq!(hash_string(""), 0xcbf2_9ce4_8422_2325);
}

#[test]
fn fnv_hash_matches_known_vectors() {
    assert_eq!(hash_string("a"), 0xaf63_dc4c_8601_ec8c);
    assert_eq!(remote_cache_key("http://example.com/pic"), "13599084806435064983");
}

#[test]
fn media_directory_resolution() {
    assert_eq!(media_directory(None, "-"), "/media/");
    assert_eq!(media_directory(None, "photos"), "/media/photos/");
    assert_eq!(media_directory(Some("/data/".to_string()), "photos"), "/data/");
}

#[test]
fn store_lookup_follows_the_latest_write() {
    let mut store = Store::new();
    assert!(store.get("k").is_none());
    store.put("k".to_string(), entry(b"one", None));
    assert_eq!(store.get("k").unwrap().bytes, b"one");
    store.put("k".to_string(), entry(b"two", None));
    assert_eq!(store.get("k").unwrap().bytes, b"two");
    assert!(!store.contains("other"));
}
