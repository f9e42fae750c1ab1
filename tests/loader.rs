use egui_minipng::{
    is_supported_uri, is_unsupported_mime, BytesPoll, LoadResult, Lookup, Outcome,
    PngLoader,
};
use std::sync::Arc;

fn crc32(data: &[u8]) -> u32 {
    let mut crc: u32 = 0xFFFF_FFFF;
    for &b in data {
        crc ^= b as u32;
        for _ in 0..8 {
            let mask = (crc & 1).wrapping_neg();
            crc = (crc >> 1) ^ (0xEDB8_8320 & mask);
        }
    }
    !crc
}

fn adler32(data: &[u8]) -> u32 {
    let (mut a, mut b) = (1u32, 0u32);
    for &x in data {
        a = (a + x as u32) % 65521;
        b = (b + a) % 65521;
    }
    (b << 16) | a
}

fn chunk(out: &mut Vec<u8>, kind: &[u8; 4], data: &[u8]) {
    out.extend_from_slice(&(data.len() as u32).to_be_bytes());
    let mut body = kind.to_vec();
    body.extend_from_slice(data);
    out.extend_from_slice(&body);
    out.extend_from_slice(&crc32(&body).to_be_bytes());
}

/// A PNG of 8-bit samples with the given colour type, its data in one
/// stored (uncompressed) zlib block, or `idat` verbatim when given.
fn png(width: u32, height: u32, color_type: u8, rows: &[Vec<u8>], idat: Option<&[u8]>) -> Vec<u8> {
    let mut out = vec![137, 80, 78, 71, 13, 10, 26, 10];
    let mut ihdr = Vec::new();
    ihdr.extend_from_slice(&width.to_be_bytes());
    ihdr.extend_from_slice(&height.to_be_bytes());
    ihdr.extend_from_slice(&[8, color_type, 0, 0, 0]);
    chunk(&mut out, b"IHDR", &ihdr);
    let raw: Vec<u8> = rows
        .iter()
        .flat_map(|row| std::iter::once(0u8).chain(row.iter().copied()))
        .collect();
    let mut zlib = vec![0x78, 0x01, 0x01];
    zlib.extend_from_slice(&(raw.len() as u16).to_le_bytes());
    zlib.extend_from_slice(&(!(raw.len() as u16)).to_le_bytes());
    zlib.extend_from_slice(&raw);
    zlib.extend_from_slice(&adler32(&raw).to_be_bytes());
    chunk(&mut out, b"IDAT", idat.unwrap_or(&zlib));
    chunk(&mut out, b"IEND", &[]);
    out
}

fn red_green() -> Vec<u8> {
    png(2, 1, 6, &[vec![255, 0, 0, 255, 0, 255, 0, 255]], None)
}

fn corrupt_body() -> Vec<u8> {
    png(2, 1, 6, &[vec![255, 0, 0, 255, 0, 255, 0, 255]], Some(&[0xFF, 0xFF, 0, 0, 0, 0]))
}

fn ready<'b>(bytes: &'b [u8], mime: Option<&'b str>) -> BytesPoll<'b, u32, String> {
    BytesPoll::Ready { bytes, mime }
}

fn rgba_of(outcome: &Outcome) -> Vec<[u8; 4]> {
    match outcome {
        Outcome::Decoded(p) => p.image().pixels.iter().map(|c| c.to_array()).collect(),
        Outcome::Failed(msg) => panic!("decode failed: {msg}"),
    }
}

#[test]
fn two_pixel_png_decodes() {
    let bytes = red_green();
    let mut loader = PngLoader::new();
    assert!(matches!(loader.lookup("a.png"), Lookup::FetchBytes));
    match loader.complete("a.png", ready(&bytes, None)) {
        LoadResult::Ready(outcome) => {
            match &outcome {
                Outcome::Decoded(p) => {
                    assert_eq!(p.width(), 2);
                    assert_eq!(p.height(), 1);
                }
                Outcome::Failed(msg) => panic!("decode failed: {msg}"),
            }
            assert_eq!(rgba_of(&outcome), vec![[255, 0, 0, 255], [0, 255, 0, 255]]);
        }
        _ => panic!("expected a decoded image"),
    }
}

#[test]
fn other_extension_is_declined_with_the_same_bytes() {
    let bytes = red_green();
    let mut loader = PngLoader::new();
    assert!(matches!(loader.lookup("a.jpg"), Lookup::NotApplicable));
    assert!(matches!(loader.complete("a.jpg", ready(&bytes, None)), LoadResult::NotApplicable));
    assert_eq!(loader.byte_size(), 0);
    assert!(matches!(loader.lookup("a.png"), Lookup::FetchBytes));
}

#[test]
fn second_request_is_a_cache_hit() {
    let bytes = red_green();
    let mut loader = PngLoader::new();
    let first = match loader.complete("a.png", ready(&bytes, None)) {
        LoadResult::Ready(Outcome::Decoded(p)) => p.image(),
        _ => panic!("expected a decoded image"),
    };
    match loader.lookup("a.png") {
        Lookup::Ready(Outcome::Decoded(p)) => assert!(Arc::ptr_eq(&first, &p.image())),
        _ => panic!("expected a cache hit"),
    }
    // A second completion that raced the first one decodes nothing new.
    match loader.complete("a.png", ready(&[], None)) {
        LoadResult::Ready(Outcome::Decoded(p)) => assert!(Arc::ptr_eq(&first, &p.image())),
        _ => panic!("expected the cached image"),
    }
    assert_eq!(loader.byte_size(), 8);
}

#[test]
fn corrupt_body_is_cached_as_failure() {
    let bytes = corrupt_body();
    let mut loader = PngLoader::new();
    let msg = match loader.complete("x.png", ready(&bytes, None)) {
        LoadResult::Ready(Outcome::Failed(msg)) => msg,
        _ => panic!("expected a decode failure"),
    };
    assert!(!msg.is_empty());
    match loader.lookup("x.png") {
        Lookup::Ready(Outcome::Failed(again)) => assert_eq!(again, msg),
        _ => panic!("expected the cached failure"),
    }
    let good = red_green();
    match loader.complete("x.png", ready(&good, None)) {
        LoadResult::Ready(Outcome::Failed(again)) => assert_eq!(again, msg),
        _ => panic!("the cached failure must stand"),
    }
    assert_eq!(loader.byte_size(), msg.len());
}

#[test]
fn pending_then_ready_decodes() {
    let bytes = red_green();
    let mut loader = PngLoader::new();
    assert!(matches!(loader.complete("a.png", BytesPoll::<u32, String>::Pending(7)), LoadResult::Pending(7)));
    assert!(matches!(loader.lookup("a.png"), Lookup::FetchBytes));
    assert_eq!(loader.byte_size(), 0);
    match loader.complete("a.png", ready(&bytes, Some("image/png"))) {
        LoadResult::Ready(outcome) => {
            assert_eq!(rgba_of(&outcome), vec![[255, 0, 0, 255], [0, 255, 0, 255]])
        }
        _ => panic!("expected a decoded image"),
    }
}

#[test]
fn provider_failure_is_passed_on_and_not_cached() {
    let mut loader = PngLoader::new();
    match loader.complete("a.png", BytesPoll::<u32, String>::Failed("offline".to_string())) {
        LoadResult::ProviderFailed(e) => assert_eq!(e, "offline"),
        _ => panic!("expected the provider's failure"),
    }
    assert!(matches!(loader.lookup("a.png"), Lookup::FetchBytes));
}

#[test]
fn forget_evicts_one_entry() {
    let bytes = red_green();
    let bad = corrupt_body();
    let mut loader = PngLoader::new();
    let _ = loader.complete("a.png", ready(&bytes, None));
    let msg_len = match loader.complete("b.png", ready(&bad, None)) {
        LoadResult::Ready(Outcome::Failed(msg)) => msg.len(),
        _ => panic!("expected a decode failure"),
    };
    assert_eq!(loader.byte_size(), 8 + msg_len);
    loader.forget("a.png");
    assert_eq!(loader.byte_size(), msg_len);
    assert!(matches!(loader.lookup("a.png"), Lookup::FetchBytes));
    assert!(matches!(loader.lookup("b.png"), Lookup::Ready(Outcome::Failed(_))));
    loader.forget("never-seen.png");
    assert_eq!(loader.byte_size(), msg_len);
}

#[test]
fn forget_all_empties_the_cache() {
    let bytes = red_green();
    let mut loader = PngLoader::new();
    let _ = loader.complete("a.png", ready(&bytes, None));
    let _ = loader.complete("b/c.png", ready(&bytes, None));
    assert_eq!(loader.byte_size(), 16);
    loader.forget_all();
    assert_eq!(loader.byte_size(), 0);
    assert!(matches!(loader.lookup("a.png"), Lookup::FetchBytes));
    assert!(matches!(loader.lookup("b/c.png"), Lookup::FetchBytes));
}

#[test]
fn image_weighs_four_bytes_per_pixel() {
    let rows = vec![vec![1u8; 12], vec![2u8; 12]];
    let bytes = png(3, 2, 6, &rows, None);
    let mut loader = PngLoader::new();
    match loader.complete("p.png", ready(&bytes, None)) {
        LoadResult::Ready(Outcome::Decoded(p)) => {
            assert_eq!((p.width(), p.height(), p.byte_len()), (3, 2, 24));
        }
        _ => panic!("expected a decoded image"),
    }
    assert_eq!(loader.byte_size(), 3 * 2 * 4);
}

#[test]
fn foreign_mime_is_declined() {
    let bytes = red_green();
    let mut loader = PngLoader::new();
    assert!(matches!(
        loader.complete("a.png", ready(&bytes, Some("image/jpeg"))),
        LoadResult::NotApplicable
    ));
    assert!(matches!(loader.lookup("a.png"), Lookup::FetchBytes));
}

#[test]
fn foreign_bytes_are_declined() {
    let mut loader = PngLoader::new();
    let gif = b"GIF89a\x01\x00\x01\x00".to_vec();
    assert!(matches!(loader.complete("a.png", ready(&gif, None)), LoadResult::NotApplicable));
    assert!(matches!(loader.complete("a.png", ready(&[], None)), LoadResult::NotApplicable));
    assert!(matches!(loader.lookup("a.png"), Lookup::FetchBytes));
    assert_eq!(loader.byte_size(), 0);
}

#[test]
fn truncated_body_is_a_failure() {
    let mut bytes = red_green();
    // Drop the IEND chunk and the end of the IDAT chunk.
    bytes.truncate(bytes.len() - 12 - 6);
    let mut loader = PngLoader::new();
    assert!(matches!(loader.complete("t.png", ready(&bytes, None)), LoadResult::Ready(Outcome::Failed(_))));
}

#[test]
fn rgb_is_normalized_to_rgba() {
    let bytes = png(2, 1, 2, &[vec![10, 20, 30, 40, 50, 60]], None);
    let mut loader = PngLoader::default();
    match loader.complete("rgb.png", ready(&bytes, None)) {
        LoadResult::Ready(outcome) => {
            assert_eq!(rgba_of(&outcome), vec![[10, 20, 30, 255], [40, 50, 60, 255]]);
        }
        _ => panic!("expected a decoded image"),
    }
}

#[test]
fn supported_uris() {
    assert!(is_supported_uri("a.png"));
    assert!(is_supported_uri("x/y/a.png"));
    assert!(is_supported_uri("a.tar.png"));
    assert!(is_supported_uri("file://dir.d/img.png"));
    assert!(!is_supported_uri("a.PNG"));
    assert!(!is_supported_uri("a.png.gz"));
    assert!(!is_supported_uri("a"));
    assert!(!is_supported_uri(""));
    assert!(!is_supported_uri("dir.png/a"));
    assert!(is_supported_uri(".png"));
    assert!(is_supported_uri("dir/.png"));
    assert!(!is_supported_uri("a.jpg"));
    assert!(!is_supported_uri("a.pngx"));
}

#[test]
fn unsupported_mimes() {
    assert!(!is_unsupported_mime("image/png"));
    assert!(!is_unsupported_mime("image/apng"));
    assert!(is_unsupported_mime("image/jpeg"));
    assert!(is_unsupported_mime("image/PNG"));
    assert!(is_unsupported_mime(""));
}

#[test]
fn loader_id_names_the_type() {
    let loader = PngLoader::new();
    assert_eq!(loader.id(), "egui_minipng::PngLoader");
}
