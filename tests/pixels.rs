use vr_overlay::error::NativeOp;
use vr_overlay::pixels::{convert_rows_bytewise, convert_rows_wordwise, swap_red_blue, word_path_applies};
use vr_overlay::surface::{check_status, handle_to_i64, overlay_handle};
use vr_overlay::texture::{check_import, check_mapping, CacheAction, TextureCache};

/// Deterministic pseudo-random bytes.
fn noise(len: usize, seed: u32) -> Vec<u8> {
    let mut state = seed.wrapping_mul(2654435761).wrapping_add(1);
    (0..len)
        .map(|_| {
            state = state.wrapping_mul(1664525).wrapping_add(1013904223);
            (state >> 24) as u8
        })
        .collect()
}

fn to_words(bytes: &[u8]) -> Vec<u32> {
    bytes.chunks(4).map(|c| u32::from_le_bytes([c[0], c[1], c[2], c[3]])).collect()
}

fn to_bytes(words: &[u32]) -> Vec<u8> {
    words.iter().flat_map(|w| w.to_le_bytes()).collect()
}

/// Expected destination computed independently, pixel by pixel.
fn reference(src: &[u8], before: &[u8], width: usize, height: usize, pitch: usize) -> Vec<u8> {
    let mut out = before.to_vec();
    for y in 0..height {
        for x in 0..width {
            let s = y * width * 4 + x * 4;
            let d = y * pitch + x * 4;
            out[d] = src[s + 2];
            out[d + 1] = src[s + 1];
            out[d + 2] = src[s];
            out[d + 3] = src[s + 3];
        }
    }
    out
}

#[test]
fn word_swap_exact_values() {
    assert_eq!(swap_red_blue(0x11223344), 0x11443322);
    assert_eq!(swap_red_blue(0xFF0000FF), 0xFFFF0000);
    assert_eq!(swap_red_blue(0x00FF00FF), 0x00FF00FF);
}

#[test]
fn byte_and_word_paths_agree_on_random_buffers() {
    let shapes = [(1usize, 1usize, 0usize), (3, 2, 0), (5, 3, 3), (7, 4, 1), (16, 9, 8), (2, 13, 5)];
    for (seed, &(w, h, pad_pixels)) in shapes.iter().enumerate() {
        let pitch_words = w + pad_pixels;
        let src = noise(4 * w * h, seed as u32);
        let before = noise(4 * pitch_words * h, 100 + seed as u32);

        let mut by_bytes = before.clone();
        convert_rows_bytewise(&src, &mut by_bytes, w, h, 4 * pitch_words);

        let src_words = to_words(&src);
        let mut dst_words = to_words(&before);
        convert_rows_wordwise(&src_words, &mut dst_words, w, h, pitch_words);

        assert_eq!(to_bytes(&dst_words), by_bytes);
        assert_eq!(by_bytes, reference(&src, &before, w, h, 4 * pitch_words));
    }
}

#[test]
fn byte_path_with_unaligned_pitch() {
    for (seed, &(w, h, pitch)) in [(3usize, 3usize, 13usize), (1, 5, 7), (4, 2, 17)].iter().enumerate() {
        let src = noise(4 * w * h, seed as u32 + 7);
        let before = noise(pitch * h + 2, seed as u32 + 70);
        let mut dst = before.clone();
        convert_rows_bytewise(&src, &mut dst, w, h, pitch);
        assert_eq!(dst, reference(&src, &before, w, h, pitch));
    }
}

#[test]
fn padding_bytes_untouched() {
    let src = vec![1u8, 2, 3, 4];
    let mut dst = vec![9u8; 16];
    convert_rows_bytewise(&src, &mut dst, 1, 1, 8);
    assert_eq!(dst, vec![3, 2, 1, 4, 9, 9, 9, 9, 9, 9, 9, 9, 9, 9, 9, 9]);
}

#[test]
fn alignment_decides_path() {
    assert!(word_path_applies(0, 64, 256, 512));
    assert!(!word_path_applies(1, 64, 256, 512));
    assert!(!word_path_applies(0, 66, 256, 512));
    assert!(!word_path_applies(0, 64, 254, 512));
    assert!(!word_path_applies(0, 64, 256, 515));
}

/// Create, show, then upload a 64x64 red BGRA frame through a stand-in
/// compositor whose texture is plain memory.
#[test]
fn red_frame_reaches_texture_as_rgba() {
    let created: u64 = 42;
    let handle = handle_to_i64(created).unwrap();
    assert_eq!(check_status(NativeOp::CreateOverlay, 0), Ok(()));
    let native = overlay_handle(handle).unwrap();
    assert_eq!(check_status(NativeOp::ShowOverlay, 0), Ok(()));

    let (w, h) = (64u32, 64u32);
    let frame: Vec<u8> = [0u8, 0, 255, 255].iter().copied().cycle().take(64 * 64 * 4).collect();
    let pitch_words = 80usize;

    let mut cache: TextureCache<Vec<u32>> = TextureCache::new();
    let (target, action) = cache.begin_upload(handle, frame.len(), w, h).unwrap();
    assert_eq!(target, native);
    assert_eq!(action, CacheAction::Allocate);
    cache.install(Some(vec![0u32; pitch_words * 64]), w, h).unwrap();

    let mut mapped = cache.texture().unwrap().clone();
    check_mapping(true).unwrap();
    assert!(word_path_applies(0, 0, 64 * 4, pitch_words * 4));
    convert_rows_wordwise(&to_words(&frame), &mut mapped, 64, 64, pitch_words);
    assert_eq!(check_import(0), Ok(()));

    let bytes = to_bytes(&mapped);
    for y in 0..64 {
        for x in 0..64 {
            let d = y * pitch_words * 4 + x * 4;
            assert_eq!(&bytes[d..d + 4], &[255, 0, 0, 255]);
        }
    }

    let mut by_bytes = vec![0u8; pitch_words * 4 * 64];
    convert_rows_bytewise(&frame, &mut by_bytes, 64, 64, pitch_words * 4);
    assert_eq!(by_bytes, bytes);
}
