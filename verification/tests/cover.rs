use image::{DynamicImage, GenericImageView, ImageFormat, Rgb, RgbImage};
use lib_utils::cover::{
    check_resize, compress_img, decode_image, derive_covers, make_copy, resize_cover,
    resize_image, size_label, target_dimensions, try_resize_image, THUMB_QUALITY,
};
use lib_utils::readmeta::Cover;
use std::io::Cursor;

fn picture(width: u32, height: u32) -> DynamicImage {
    DynamicImage::ImageRgb8(RgbImage::from_fn(width, height, |x, y| {
        Rgb([(x % 256) as u8, (y % 256) as u8, 128])
    }))
}

fn png(width: u32, height: u32) -> Vec<u8> {
    let mut bytes = Vec::new();
    picture(width, height).write_to(&mut Cursor::new(&mut bytes), ImageFormat::Png).unwrap();
    bytes
}

fn original(bytes: Vec<u8>) -> Cover {
    Cover {
        format: "png".to_string(),
        size: "original".to_string(),
        length: bytes.len(),
        width: 0,
        height: 0,
        base64: bytes,
    }
}

fn is_webp(bytes: &[u8]) -> bool {
    bytes.len() > 12 && &bytes[0..4] == b"RIFF" && &bytes[8..12] == b"WEBP"
}

#[test]
fn the_longer_edge_becomes_the_target() {
    assert_eq!(target_dimensions(300, 200, 140), (140, 93));
    assert_eq!(target_dimensions(200, 300, 600), (400, 600));
    assert_eq!(target_dimensions(50, 50, 140), (140, 140));
    assert_eq!(target_dimensions(1000, 1, 140), (140, 1));
    assert_eq!(target_dimensions(0, 0, 140), (140, 140));
    assert_eq!(target_dimensions(0, 9, 140), (1, 140));
    assert_eq!(target_dimensions(u32::MAX, u32::MAX - 1, u32::MAX), (u32::MAX, u32::MAX - 1));
}

#[test]
fn the_label_follows_the_target_alone() {
    assert_eq!(size_label(140), "small");
    assert_eq!(size_label(600), "medium");
    assert_eq!(size_label(141), "medium");
    assert_eq!(size_label(0), "medium");
}

#[test]
fn a_resized_image_fits_the_target_and_keeps_its_proportions() {
    let resized = resize_image(Box::new(picture(300, 200)), 140);
    let (width, height) = resized.dimensions();
    assert!(width == 139 || width == 140);
    assert!(height == 92 || height == 93);
    let resized = resize_image(Box::new(picture(20, 40)), 600);
    assert_eq!(resized.dimensions().1, 600);
    assert_eq!(resized.dimensions().0, 300);
    let resized = resize_image(Box::new(picture(64, 64)), 140);
    assert_eq!(resized.dimensions(), (140, 140));
}

#[test]
fn a_copy_is_a_webp_image_under_the_label_of_its_edge() {
    let cover = original(png(300, 200));
    let copy = resize_cover(&cover, 140, THUMB_QUALITY).unwrap();
    assert_eq!(copy.format, "webp");
    assert_eq!(copy.size, "small");
    assert_eq!(copy.length, copy.base64.len());
    assert!(copy.width == 139 || copy.width == 140);
    assert!(copy.height == 92 || copy.height == 93);
    assert!(is_webp(&copy.base64));
    assert_ne!(copy.base64, cover.base64);
    let decoded = webp::Decoder::new(&copy.base64).decode().unwrap();
    assert_eq!((decoded.width(), decoded.height()), (copy.width, copy.height));
    let medium = resize_cover(&cover, 600, THUMB_QUALITY).unwrap();
    assert_eq!(medium.size, "medium");
    assert_eq!(medium.width, 600);
    assert_eq!(medium.height, 400);
}

#[test]
fn bytes_that_are_no_image_give_no_copy() {
    assert_eq!(resize_cover(&original(b"not an image".to_vec()), 140, THUMB_QUALITY), None);
    assert_eq!(resize_cover(&original(vec![]), 140, THUMB_QUALITY), None);
    assert_eq!(resize_cover(&original(png(8, 8)), 0, THUMB_QUALITY), None);
    assert_eq!(resize_cover(&original(png(8, 8)), 20000, THUMB_QUALITY), None);
    assert_eq!(derive_covers(&original(b"nothing".to_vec())), vec![]);
}

#[test]
fn a_quality_off_the_scale_gives_no_copy() {
    assert_eq!(resize_cover(&original(png(8, 8)), 140, 101), None);
    assert_eq!(resize_cover(&original(png(8, 8)), 140, -1), None);
    assert!(compress_img(&picture(4, 4), 101).is_err());
    assert!(compress_img(&picture(4, 4), 100).is_ok());
}

#[test]
fn images_of_one_channel_are_not_encoded() {
    let grey = DynamicImage::ImageLuma8(image::GrayImage::new(4, 4));
    assert_eq!(compress_img(&grey, 10), Err("Unimplemented".to_string()));
}

#[test]
fn two_copies_are_kept_of_a_cover() {
    let copies = derive_covers(&original(png(100, 50)));
    assert_eq!(copies.len(), 2);
    assert_eq!(copies[0].size, "small");
    assert_eq!((copies[0].width, copies[0].height), (140, 70));
    assert_eq!(copies[1].size, "medium");
    assert_eq!((copies[1].width, copies[1].height), (600, 300));
    assert!(is_webp(&copies[0].base64));
    assert!(is_webp(&copies[1].base64));
}

#[test]
fn a_copy_is_made_of_its_parts() {
    assert_eq!(
        make_copy(140, 3, 2, vec![1, 2, 3]),
        Cover {
            format: "webp".to_string(),
            size: "small".to_string(),
            length: 3,
            width: 3,
            height: 2,
            base64: vec![1, 2, 3],
        }
    );
}

#[test]
fn an_image_is_resized_where_it_fits_the_memory() {
    let resized = try_resize_image(Box::new(picture(30, 10)), 600).unwrap();
    assert_eq!(resized.dimensions(), (600, 200));
    let square = try_resize_image(Box::new(picture(7, 7)), 1000).unwrap();
    assert_eq!(square.dimensions(), (1000, 1000));
    assert!(try_resize_image(Box::new(picture(8, 8)), 0).is_none());
    assert!(try_resize_image(Box::new(picture(8, 8)), u32::MAX).is_none());
    assert!(check_resize(8, 8, 16384));
    assert!(!check_resize(8, 8, 0));
    assert!(!check_resize(u32::MAX, 8, u32::MAX));
}

#[test]
fn an_image_above_the_edge_of_webp_is_not_encoded() {
    assert_eq!(
        compress_img(&picture(16384, 1), THUMB_QUALITY),
        Err("VP8_ENC_ERROR_BAD_DIMENSION".to_string())
    );
    assert!(compress_img(&picture(16383, 1), THUMB_QUALITY).is_ok());
}

#[test]
fn bytes_are_decoded_in_the_format_that_they_tell() {
    assert_eq!(decode_image(&png(5, 3)).map(|img| img.dimensions()), Some((5, 3)));
    assert!(decode_image(&b"RIFF....WEBPVP8 ".to_vec()).is_none());
    assert!(decode_image(&vec![0x89, b'P', b'N', b'G', 0x0d, 0x0a, 0x1a, 0x0a]).is_none());
}

#[test]
fn a_format_that_a_program_registers_does_not_change_what_is_decoded() {
    let bytes = png(12, 6);
    let before = resize_cover(&original(bytes.clone()), 140, THUMB_QUALITY);
    image::hooks::register_format_detection_hook(
        "unknown-format".into(),
        &[0x89, b'P', b'N', b'G'],
        None,
    );
    let after = resize_cover(&original(bytes), 140, THUMB_QUALITY);
    assert!(before.is_some());
    assert_eq!(before, after);
}
