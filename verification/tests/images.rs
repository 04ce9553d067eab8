use hummingbird::images::{decode_image, rgb_to_bgr, THUMBNAIL_SIZE};
use image::{DynamicImage, ImageFormat, RgbaImage};
use std::io::Cursor;

fn png(width: u32, height: u32, pixels: Vec<u8>) -> Vec<u8> {
    let image = RgbaImage::from_raw(width, height, pixels).unwrap();
    let mut out = Vec::new();
    DynamicImage::ImageRgba8(image)
        .write_to(&mut Cursor::new(&mut out), ImageFormat::Png)
        .unwrap();
    out
}

#[test]
fn red_and_blue_trade_places() {
    let mut pixels = vec![1, 2, 3, 4, 10, 20, 30, 40];
    rgb_to_bgr(&mut pixels);
    assert_eq!(pixels, vec![3, 2, 1, 4, 30, 20, 10, 40]);
}

#[test]
fn no_pixels_stay_none() {
    let mut pixels: Vec<u8> = Vec::new();
    rgb_to_bgr(&mut pixels);
    assert!(pixels.is_empty());
}

#[test]
fn decoding_keeps_the_size_and_swaps_channels() {
    let data = png(2, 1, vec![255, 0, 0, 255, 0, 0, 255, 128]);
    let image = decode_image(&data, false).unwrap();
    assert_eq!(image.width, 2);
    assert_eq!(image.height, 1);
    assert_eq!(image.pixels, vec![0, 0, 255, 255, 255, 0, 0, 128]);
}

#[test]
fn thumbnails_are_square() {
    let data = png(4, 2, vec![7; 4 * 4 * 2]);
    let image = decode_image(&data, true).unwrap();
    assert_eq!(image.width, THUMBNAIL_SIZE);
    assert_eq!(image.height, THUMBNAIL_SIZE);
    assert_eq!(image.pixels.len(), (4 * THUMBNAIL_SIZE * THUMBNAIL_SIZE) as usize);
}

#[test]
fn data_that_is_no_image_does_not_decode() {
    assert!(decode_image(b"not an image", false).is_none());
    assert!(decode_image(&[], true).is_none());
}
