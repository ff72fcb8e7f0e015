use std::io::Cursor;

use nebula_tunes::loops::BgaLayer;
use nebula_tunes::media::image::{
    build_mask, clear_corner_regions, decode_and_cache, decode_image, ensure_preprocessed,
    fits_labelling, label_regions, layer_to_variant, needs_decode, needs_preload, preprocess_rgba,
    remove_background, BgaDecodeCache, DecodeVariant,
};

const K: [u8; 4] = [0, 0, 0, 255];
const W: [u8; 4] = [255, 255, 255, 255];
const R: [u8; 4] = [200, 10, 10, 255];
const T: [u8; 4] = [0, 0, 0, 0];

fn pixels(rows: &[&[[u8; 4]]]) -> Vec<u8> {
    let mut out = Vec::new();
    for row in rows {
        for px in row.iter() {
            out.extend_from_slice(px);
        }
    }
    out
}

fn png(rgba: &[u8], width: u32, height: u32) -> Vec<u8> {
    let buffer = image::RgbaImage::from_raw(width, height, rgba.to_vec()).unwrap();
    let mut bytes = Vec::new();
    buffer
        .write_to(&mut Cursor::new(&mut bytes), image::ImageFormat::Png)
        .unwrap();
    bytes
}

fn framed() -> Vec<u8> {
    pixels(&[
        &[K, K, K, K, K],
        &[K, W, W, W, K],
        &[K, W, K, W, K],
        &[K, W, W, W, K],
        &[K, K, K, K, K],
    ])
}

#[test]
fn layers_choose_their_variant() {
    assert_eq!(layer_to_variant(BgaLayer::Bga), DecodeVariant::Raw);
    assert_eq!(layer_to_variant(BgaLayer::Poor), DecodeVariant::Raw);
    assert_eq!(layer_to_variant(BgaLayer::Layer), DecodeVariant::RemoveBackground);
    assert_eq!(layer_to_variant(BgaLayer::Layer2), DecodeVariant::RemoveBackground);
}

#[test]
fn mask_marks_pure_opaque_black() {
    let rgba = pixels(&[&[K, W, T], &[[0, 0, 1, 255], [0, 0, 0, 1], R]]);
    assert_eq!(build_mask(&rgba, 3, 2), vec![1, 0, 0, 0, 0, 0]);
    let rgba = pixels(&[&[[0, 0, 0, 254], K, [0, 0, 0, 128]]]);
    assert_eq!(build_mask(&rgba, 3, 1), vec![0, 1, 0]);
}

#[test]
fn mask_treats_missing_pixels_as_not_black() {
    let mut rgba = pixels(&[&[K, K], &[K, K]]);
    rgba.truncate(10);
    assert_eq!(build_mask(&rgba, 2, 2), vec![1, 1, 0, 0]);
    assert_eq!(build_mask(&Vec::new(), 2, 1), vec![0, 0]);
    assert_eq!(build_mask(&rgba, 0, 5), Vec::<u8>::new());
}

#[test]
fn surround_is_cleared_and_enclosed_black_stays() {
    let mut rgba = framed();
    remove_background(&mut rgba, 5, 5);
    let expected = pixels(&[
        &[T, T, T, T, T],
        &[T, W, W, W, T],
        &[T, W, K, W, T],
        &[T, W, W, W, T],
        &[T, T, T, T, T],
    ]);
    assert_eq!(rgba, expected);
}

#[test]
fn only_regions_at_a_corner_are_cleared() {
    let mut rgba = pixels(&[
        &[K, W, K, W, R],
        &[K, W, K, W, W],
        &[W, W, W, W, K],
    ]);
    remove_background(&mut rgba, 5, 3);
    let expected = pixels(&[
        &[T, W, K, W, R],
        &[T, W, K, W, W],
        &[W, W, W, W, T],
    ]);
    assert_eq!(rgba, expected);
}

#[test]
fn diagonal_neighbours_are_not_connected() {
    let mut rgba = pixels(&[&[K, W, W], &[W, K, W], &[W, W, W]]);
    remove_background(&mut rgba, 3, 3);
    let expected = pixels(&[&[T, W, W], &[W, K, W], &[W, W, W]]);
    assert_eq!(rgba, expected);
}

#[test]
fn picture_without_black_corners_is_unchanged() {
    let mut rgba = pixels(&[&[W, K, W], &[K, K, K], &[W, K, R]]);
    let before = rgba.clone();
    remove_background(&mut rgba, 3, 3);
    assert_eq!(rgba, before);
}

#[test]
fn single_pixel_picture_is_cleared_when_black() {
    let mut rgba = pixels(&[&[K]]);
    remove_background(&mut rgba, 1, 1);
    assert_eq!(rgba, pixels(&[&[T]]));
    let mut rgba = pixels(&[&[R]]);
    remove_background(&mut rgba, 1, 1);
    assert_eq!(rgba, pixels(&[&[R]]));
}

#[test]
fn short_buffer_keeps_its_partial_pixel() {
    let mut rgba = pixels(&[&[K, K]]);
    rgba.truncate(6);
    remove_background(&mut rgba, 2, 1);
    assert_eq!(rgba, vec![0, 0, 0, 0, 0, 0]);
    let mut rgba = vec![0, 0, 0, 255, 0, 0];
    clear_corner_regions(&mut rgba, &vec![1, 1], 2, 1);
    assert_eq!(rgba, vec![0, 0, 0, 0, 0, 0]);
    let mut rgba = vec![9, 9, 9, 9, 7, 7];
    clear_corner_regions(&mut rgba, &vec![1, 2], 2, 1);
    assert_eq!(rgba, vec![0, 0, 0, 0, 7, 7]);
}

#[test]
fn labels_decide_what_is_cleared() {
    let mut rgba = pixels(&[&[R, R, R], &[R, R, R]]);
    clear_corner_regions(&mut rgba, &vec![1, 0, 2, 3, 0, 0], 3, 2);
    assert_eq!(rgba, pixels(&[&[T, R, T], &[T, R, R]]));
    let mut rgba = pixels(&[&[R, R, R], &[R, R, R]]);
    clear_corner_regions(&mut rgba, &vec![0, 5, 0, 0, 5, 0], 3, 2);
    assert_eq!(rgba, pixels(&[&[R, R, R], &[R, R, R]]));
}

#[test]
fn preprocessing_follows_the_variant() {
    let rgba = framed();
    assert_eq!(preprocess_rgba(rgba.clone(), 5, 5, DecodeVariant::Raw), rgba);
    let processed = preprocess_rgba(rgba.clone(), 5, 5, DecodeVariant::RemoveBackground);
    assert_ne!(processed, rgba);
    assert_eq!(&processed[0..4], &T);
    assert_eq!(
        preprocess_rgba(rgba.clone(), 0, 5, DecodeVariant::RemoveBackground),
        rgba
    );
    assert_eq!(
        preprocess_rgba(rgba.clone(), 5, 0, DecodeVariant::RemoveBackground),
        rgba
    );
}

#[test]
fn labelling_limit_is_two_to_the_thirty_two_pixels() {
    assert!(fits_labelling(0, u32::MAX));
    assert!(fits_labelling(65_535, 65_536));
    assert!(fits_labelling(u32::MAX, 1));
    assert!(!fits_labelling(65_536, 65_536));
    assert!(!fits_labelling(u32::MAX, u32::MAX));
}

#[test]
fn files_decode_to_rgba() {
    let rgba = framed();
    let decoded = decode_image(&png(&rgba, 5, 5)).unwrap();
    assert_eq!(decoded.width, 5);
    assert_eq!(decoded.height, 5);
    assert_eq!(decoded.rgba, rgba);
    assert!(decode_image(&vec![1, 2, 3, 4]).is_none());
    assert!(decode_image(&Vec::new()).is_none());
}

#[test]
fn cache_returns_what_was_stored() {
    let mut cache = BgaDecodeCache::new();
    let path = "a.png".to_string();
    assert!(cache.get_variant(DecodeVariant::Raw, &path).is_none());
    assert!(!cache.contains(DecodeVariant::Raw, &path));
    let stored = cache.insert_variant(DecodeVariant::Raw, path.clone(), vec![1, 2, 3, 4], 1, 1);
    assert_eq!(stored.rgba, vec![1, 2, 3, 4]);
    let found = cache.get_variant(DecodeVariant::Raw, &path).unwrap();
    assert_eq!((found.rgba.clone(), found.width, found.height), (vec![1, 2, 3, 4], 1, 1));
    assert!(cache.get_variant(DecodeVariant::RemoveBackground, &path).is_none());
    assert!(cache.get_variant(DecodeVariant::Raw, &"b.png".to_string()).is_none());
    cache.insert_variant(DecodeVariant::Raw, path.clone(), vec![9, 9, 9, 9, 8, 8, 8, 8], 2, 1);
    cache.insert_variant(DecodeVariant::Raw, "b.png".to_string(), vec![5, 5, 5, 5], 1, 1);
    let found = cache.get_variant(DecodeVariant::Raw, &path).unwrap();
    assert_eq!(found.width, 2);
    assert_eq!(found.rgba, vec![9, 9, 9, 9, 8, 8, 8, 8]);
}

#[test]
fn second_request_gives_the_same_picture_without_the_file() {
    let mut cache = BgaDecodeCache::new();
    let path = "frame.png".to_string();
    let file = png(&framed(), 5, 5);
    assert!(needs_decode(&cache, BgaLayer::Layer, &path));
    let first = decode_and_cache(&mut cache, BgaLayer::Layer, path.clone(), Some(file)).unwrap();
    assert!(!needs_decode(&cache, BgaLayer::Layer, &path));
    assert!(!needs_decode(&cache, BgaLayer::Bga, &path));
    let second = decode_and_cache(&mut cache, BgaLayer::Layer, path.clone(), None).unwrap();
    assert_eq!(first.rgba, second.rgba);
    assert_eq!((first.width, first.height), (second.width, second.height));
    let third =
        decode_and_cache(&mut cache, BgaLayer::Layer, path.clone(), Some(vec![0, 1, 2])).unwrap();
    assert_eq!(first.rgba, third.rgba);
    assert_eq!(&first.rgba[0..4], &T);
}

#[test]
fn both_variants_come_from_one_decode() {
    let mut cache = BgaDecodeCache::new();
    let path = "frame.png".to_string();
    let raw = decode_and_cache(
        &mut cache,
        BgaLayer::Bga,
        path.clone(),
        Some(png(&framed(), 5, 5)),
    )
    .unwrap();
    assert_eq!(raw.rgba, framed());
    let overlay = decode_and_cache(&mut cache, BgaLayer::Layer2, path.clone(), None).unwrap();
    assert_eq!(&overlay.rgba[0..4], &T);
    assert_eq!(&overlay.rgba[24..28], &W);
    let poor = decode_and_cache(&mut cache, BgaLayer::Poor, path.clone(), None).unwrap();
    assert_eq!(poor.rgba, framed());
}

#[test]
fn overlay_is_made_from_a_cached_raw_picture() {
    let mut cache = BgaDecodeCache::new();
    let path = "frame.png".to_string();
    cache.insert_variant(DecodeVariant::Raw, path.clone(), framed(), 5, 5);
    assert!(!needs_decode(&cache, BgaLayer::Layer, &path));
    let overlay = decode_and_cache(&mut cache, BgaLayer::Layer, path.clone(), None).unwrap();
    assert_eq!(&overlay.rgba[0..4], &T);
    assert!(cache.contains(DecodeVariant::RemoveBackground, &path));
}

#[test]
fn missing_or_broken_file_gives_nothing_and_caches_nothing() {
    let mut cache = BgaDecodeCache::new();
    let path = "gone.png".to_string();
    assert!(decode_and_cache(&mut cache, BgaLayer::Bga, path.clone(), None).is_none());
    assert!(decode_and_cache(&mut cache, BgaLayer::Layer, path.clone(), Some(vec![7; 16])).is_none());
    assert!(!cache.contains(DecodeVariant::Raw, &path));
    assert!(!cache.contains(DecodeVariant::RemoveBackground, &path));
    assert!(needs_decode(&cache, BgaLayer::Bga, &path));
}

#[test]
fn oversized_raw_picture_gives_no_overlay() {
    let mut cache = BgaDecodeCache::new();
    let path = "huge.png".to_string();
    cache.insert_variant(DecodeVariant::Raw, path.clone(), vec![0, 0, 0, 255], 65_536, 65_536);
    assert!(decode_and_cache(&mut cache, BgaLayer::Layer, path.clone(), None).is_none());
    assert!(!cache.contains(DecodeVariant::RemoveBackground, &path));
    assert!(decode_and_cache(&mut cache, BgaLayer::Bga, path.clone(), None).is_some());
}

#[test]
fn preload_fills_both_variants_once() {
    let mut cache = BgaDecodeCache::new();
    let path = "frame.png".to_string();
    assert!(needs_preload(&cache, &path));
    ensure_preprocessed(&mut cache, path.clone(), Some(png(&framed(), 5, 5)));
    assert!(!needs_preload(&cache, &path));
    assert!(cache.contains(DecodeVariant::Raw, &path));
    assert!(cache.contains(DecodeVariant::RemoveBackground, &path));
    let before = cache.get_variant(DecodeVariant::RemoveBackground, &path).unwrap();
    ensure_preprocessed(&mut cache, path.clone(), Some(png(&pixels(&[&[R]]), 1, 1)));
    let after = cache.get_variant(DecodeVariant::RemoveBackground, &path).unwrap();
    assert_eq!(before.rgba, after.rgba);
    assert_eq!(after.width, 5);
}

#[test]
fn preload_completes_a_half_filled_path() {
    let mut cache = BgaDecodeCache::new();
    let path = "frame.png".to_string();
    cache.insert_variant(DecodeVariant::Raw, path.clone(), framed(), 5, 5);
    ensure_preprocessed(&mut cache, path.clone(), None);
    let made = cache.get_variant(DecodeVariant::RemoveBackground, &path).unwrap();
    assert_eq!(&made.rgba[0..4], &T);

    let mut cache = BgaDecodeCache::new();
    cache.insert_variant(DecodeVariant::RemoveBackground, path.clone(), vec![1, 1, 1, 1], 1, 1);
    ensure_preprocessed(&mut cache, path.clone(), Some(png(&framed(), 5, 5)));
    assert_eq!(cache.get_variant(DecodeVariant::Raw, &path).unwrap().rgba, framed());
    assert_eq!(
        cache.get_variant(DecodeVariant::RemoveBackground, &path).unwrap().rgba,
        vec![1, 1, 1, 1]
    );
}

#[test]
fn preload_skips_what_cannot_be_read() {
    let mut cache = BgaDecodeCache::new();
    let path = "gone.png".to_string();
    ensure_preprocessed(&mut cache, path.clone(), None);
    ensure_preprocessed(&mut cache, path.clone(), Some(vec![1, 2, 3]));
    assert!(needs_preload(&cache, &path));
    assert!(!cache.contains(DecodeVariant::RemoveBackground, &path));
}

#[test]
fn regions_are_labelled_by_four_way_connection() {
    let mask = vec![1, 0, 1, 1, 0, 1, 1, 0, 0, 0, 0, 0, 0, 0, 0, 1];
    assert_eq!(
        label_regions(mask, 4, 4),
        vec![1, 0, 2, 2, 0, 2, 2, 0, 0, 0, 0, 0, 0, 0, 0, 3]
    );
    assert_eq!(label_regions(vec![1, 1, 1, 1, 1, 1], 3, 2), vec![1; 6]);
    assert_eq!(label_regions(vec![0, 0], 1, 2), vec![0, 0]);
}

#[test]
fn single_pixel_is_its_own_region() {
    assert_eq!(label_regions(vec![1], 1, 1), vec![1]);
    assert_eq!(label_regions(vec![0], 1, 1), vec![0]);
    assert_eq!(label_regions(Vec::new(), 0, 7), Vec::<u32>::new());
}

#[test]
fn translucent_black_is_not_background() {
    let mut rgba = pixels(&[&[[0, 0, 0, 128]]]);
    remove_background(&mut rgba, 1, 1);
    assert_eq!(rgba, vec![0, 0, 0, 128]);
    let half = [0, 0, 0, 128];
    let mut rgba = pixels(&[&[K, half, K], &[half, W, half]]);
    remove_background(&mut rgba, 3, 2);
    assert_eq!(rgba, pixels(&[&[T, half, T], &[half, W, half]]));
}

#[test]
fn raw_variant_passes_any_buffer_through() {
    let rgba = vec![1, 2, 3];
    assert_eq!(
        preprocess_rgba(rgba.clone(), u32::MAX, u32::MAX, DecodeVariant::Raw),
        rgba
    );
    assert_eq!(
        preprocess_rgba(rgba.clone(), 0, u32::MAX, DecodeVariant::RemoveBackground),
        rgba
    );
}

#[test]
fn decoded_buffer_holds_four_bytes_a_pixel() {
    let decoded = decode_image(&png(&framed(), 5, 5)).unwrap();
    assert_eq!(decoded.rgba.len(), 4 * 5 * 5);
    let mut cache = BgaDecodeCache::new();
    let shown = decode_and_cache(
        &mut cache,
        BgaLayer::Layer,
        "f.png".to_string(),
        Some(png(&framed(), 5, 5)),
    )
    .unwrap();
    assert_eq!(shown.rgba.len(), 100);
}
