//! Scaling, encoding, decoding and preparing images.

use std::io::Cursor;

use screen_context::ocr::capture::{downsample_for_ocr, encode_for_ocr, Frame};
use screen_context::ocr::preprocess::{
    contrast_stretch, prepare_decoded, prepare_image, preprocess_for_ocr, GrayImage,
};
use screen_context::ocr::scaling::scaled_height;

fn gray(width: u32, height: u32, pixels: Vec<u8>) -> GrayImage {
    GrayImage { width, height, pixels }
}

fn frame(width: u32, height: u32) -> Frame {
    let mut rgba = Vec::new();
    for i in 0..width * height {
        rgba.push((i % 251) as u8);
        rgba.push((i % 13) as u8);
        rgba.push((i / 7 % 256) as u8);
        rgba.push(255);
    }
    Frame { width, height, rgba }
}

fn png(width: u32, height: u32, rgba: Vec<u8>) -> Vec<u8> {
    let picture =
        image::DynamicImage::ImageRgba8(image::RgbaImage::from_raw(width, height, rgba).unwrap());
    let mut bytes = Vec::new();
    picture.write_to(&mut Cursor::new(&mut bytes), image::ImageFormat::Png).unwrap();
    bytes
}

#[test]
fn scaled_height_is_that_of_single_precision() {
    let float = |w: u32, h: u32| -> u32 {
        let scale = 1920 as f32 / w as f32;
        (h as f32 * scale).round() as u32
    };
    assert_eq!(scaled_height(3840, 2160), 1080);
    assert_eq!(scaled_height(2560, 1440), 1080);
    assert_eq!(scaled_height(3440, 1440), 804);
    assert_eq!(scaled_height(1921, 1), 1);
    assert_eq!(scaled_height(4000, 0), 0);
    for w in 1921..2600 {
        for h in 0..1200 {
            assert_eq!(scaled_height(w, h), float(w, h), "{w}x{h}");
            assert!(scaled_height(w, h) <= h);
        }
    }
    let mut seed: u64 = 0x9e3779b97f4a7c15;
    let mut next = || {
        seed ^= seed << 13;
        seed ^= seed >> 7;
        seed ^= seed << 17;
        seed
    };
    for _ in 0..400_000 {
        let w = (next() as u32 >> (next() % 21)).max(1921);
        let h = next() as u32 >> (next() % 32);
        assert_eq!(scaled_height(w, h), float(w, h), "{w}x{h}");
    }
    for w in [1921, 1922, 16777216, 16777217, 16777219, u32::MAX - 1, u32::MAX] {
        for h in [0, 1, 2, 16777215, 16777217, 33554433, u32::MAX - 1, u32::MAX] {
            assert_eq!(scaled_height(w, h), float(w, h), "{w}x{h}");
        }
    }
}

#[test]
fn narrow_frame_stays_as_it_is() {
    let original = frame(1920, 3);
    let same = downsample_for_ocr(original.clone());
    assert_eq!((same.width, same.height), (1920, 3));
    assert_eq!(same.rgba, original.rgba);
}

#[test]
fn wide_frame_is_scaled_like_the_image_crate_does() {
    let original = frame(2560, 40);
    assert!(original.usable());
    let small = downsample_for_ocr(original.clone());
    let picture = image::DynamicImage::ImageRgba8(
        image::RgbaImage::from_raw(2560, 40, original.rgba).unwrap(),
    );
    let expected = picture.resize(1920, 30, image::imageops::FilterType::Triangle).to_rgba8();
    assert_eq!((small.width, small.height), (1920, 30));
    assert_eq!((expected.width(), expected.height()), (1920, 30));
    assert_eq!(small.rgba, expected.into_raw());
}

#[test]
fn very_wide_frame_is_scaled() {
    let wide = frame(0x10_0001, 1);
    assert!(wide.usable());
    let small = downsample_for_ocr(wide);
    assert_eq!((small.width, small.height), (1, 1));
    assert_eq!(small.rgba.len(), 4);
    let blank = downsample_for_ocr(Frame { width: 5_000_000, height: 0, rgba: vec![] });
    assert_eq!((blank.width, blank.height), (1920, 1));
}

#[test]
fn very_flat_frame_keeps_a_row() {
    let small = downsample_for_ocr(frame(8000, 1));
    assert_eq!(small.height, 1);
    assert!(small.width <= 1920);
    assert_eq!(small.rgba.len(), 4 * small.width as usize);
}

#[test]
fn usable_frames_are_whole_and_not_too_large() {
    assert!(frame(3, 2).usable());
    assert!(!Frame { width: 3, height: 2, rgba: vec![0; 23] }.usable());
    assert!(!Frame { width: 3, height: 2, rgba: vec![0; 25] }.usable());
    assert!(Frame { width: 0, height: 9, rgba: vec![] }.usable());
    assert!(Frame { width: u32::MAX, height: 0, rgba: vec![] }.usable());
    assert!(Frame { width: 0, height: 0x20_0001, rgba: vec![] }.usable());
}

#[test]
fn encoding_gives_a_png_file_of_the_frame() {
    let original = frame(5, 4);
    let bytes = encode_for_ocr(original.clone()).unwrap();
    assert_eq!(&bytes[..8], &[0x89, b'P', b'N', b'G', b'\r', b'\n', 0x1a, b'\n']);
    assert_eq!(bytes, png(5, 4, original.rgba.clone()));
    let back = image::load_from_memory(&bytes).unwrap().to_rgba8();
    assert_eq!(back.into_raw(), original.rgba);
}

#[test]
fn encoding_scales_wide_frames_down() {
    let bytes = encode_for_ocr(frame(3840, 20)).unwrap();
    let back = image::load_from_memory(&bytes).unwrap();
    assert_eq!((back.width(), back.height()), (1920, 10));
}

#[test]
fn frame_without_pixels_cannot_be_encoded() {
    assert!(encode_for_ocr(Frame { width: 0, height: 0, rgba: vec![] }).is_err());
}

#[test]
fn contrast_is_that_of_single_precision() {
    for lo in 0..=255u8 {
        for hi in lo..=255u8 {
            let levels: Vec<u8> = (lo..=hi).collect();
            let n = levels.len() as u32;
            let out = contrast_stretch(&gray(n, 1, levels.clone())).pixels;
            for (v, got) in levels.iter().zip(out) {
                let expected = if lo == hi || hi - lo == 255 {
                    *v
                } else {
                    let range = (hi - lo) as f32;
                    ((*v as f32 - lo as f32) / range * 255.0).round() as u8
                };
                assert_eq!(got, expected, "{v} in {lo}..={hi}");
            }
        }
    }
}

#[test]
fn contrast_reaches_from_black_to_white_and_stays_there() {
    let once = contrast_stretch(&gray(3, 1, vec![100, 150, 200]));
    assert_eq!(once.pixels, vec![0, 128, 255]);
    let twice = contrast_stretch(&once);
    assert_eq!(twice.pixels, once.pixels);
    let flat = contrast_stretch(&gray(2, 1, vec![7, 7]));
    assert_eq!(flat.pixels, vec![7, 7]);
    let none = contrast_stretch(&gray(0, 0, vec![]));
    assert!(none.pixels.is_empty());
}

#[test]
fn preparing_repeats_each_level_for_every_colour() {
    let out = preprocess_for_ocr(&gray(1, 2, vec![10, 20]));
    assert_eq!((out.width, out.height), (1, 2));
    assert_eq!(out.pixels, vec![0, 0, 0, 255, 255, 255]);
}

#[test]
fn decoded_image_is_prepared() {
    let out = prepare_decoded(Ok(gray(2, 1, vec![3, 9]))).unwrap();
    assert_eq!(out.pixels, vec![0, 0, 0, 255, 255, 255]);
    let empty = prepare_decoded(Ok(gray(0, 4, vec![]))).unwrap_err();
    assert_eq!(empty.message, "OCR 输入图片为空");
    let broken = prepare_decoded(Err("no image".to_string())).unwrap_err();
    assert_eq!(broken.message, "解码 OCR 输入图片失败: no image");
}

#[test]
fn image_file_is_decoded_and_prepared() {
    let bytes = png(3, 1, vec![0, 0, 0, 255, 128, 128, 128, 255, 255, 255, 255, 255]);
    let out = prepare_image(&bytes).unwrap();
    assert_eq!((out.width, out.height), (3, 1));
    assert_eq!(out.pixels, vec![0, 0, 0, 128, 128, 128, 255, 255, 255]);
}

#[test]
fn bytes_that_are_no_image_are_an_error() {
    let error = prepare_image(b"not an image").unwrap_err();
    let reason = image::load_from_memory(b"not an image").unwrap_err();
    assert_eq!(error.message, format!("解码 OCR 输入图片失败: {reason}"));
}
