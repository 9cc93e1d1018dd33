use libnspire::framebuffer::{convert_channel, rgb565_to_rgb8, PixelLayout, MAX_B, MAX_G, MAX_R};
use libnspire::{Error, Image};

fn image(width: u16, height: u16, bpp: u8, data: Vec<u8>) -> Image {
    Image { width, height, bpp, data }
}

#[test]
fn channel_scaling_rounds() {
    assert_eq!(convert_channel(15, 31), 123);
    assert_eq!(convert_channel(0, 31), 0);
    assert_eq!(convert_channel(31, 31), 255);
    assert_eq!(convert_channel(63, 63), 255);
    assert_eq!(convert_channel(32, 63), 130);
    assert_eq!(convert_channel(1, 31), 8);
    assert_eq!(convert_channel(1, 63), 4);
}

#[test]
fn channel_maxima() {
    assert_eq!((MAX_R, MAX_G, MAX_B), (31, 63, 31));
}

#[test]
fn raw_len_of_captures() {
    assert_eq!(Image::raw_len(320, 240, 16), 153600);
    assert_eq!(Image::raw_len(320, 240, 8), 76800);
    assert_eq!(Image::raw_len(65535, 65535, 255), 65535u64 * 65535 * 255 / 8);
}

#[test]
fn capture_is_copied() {
    let raw = [1u8, 2, 3, 4];
    let img = Image::from_capture(2, 1, 16, &raw);
    assert_eq!((img.width, img.height, img.bpp), (2, 1, 16));
    assert_eq!(img.data, vec![1, 2, 3, 4]);
}

#[test]
fn grey_decode_keeps_bytes() {
    let data = vec![0u8, 17, 128, 255, 3, 9];
    let frame = image(3, 2, 8, data.clone()).decode().unwrap();
    assert_eq!(frame.layout, PixelLayout::Luma8);
    assert_eq!((frame.width, frame.height), (3, 2));
    assert_eq!(frame.data.len(), 6);
    assert_eq!(frame.data, data);
}

#[test]
fn colour_decode_extremes() {
    let frame = image(2, 1, 16, vec![0x00, 0x00, 0xff, 0xff]).decode().unwrap();
    assert_eq!(frame.layout, PixelLayout::Rgb8);
    assert_eq!(frame.data, vec![0, 0, 0, 255, 255, 255]);
}

#[test]
fn colour_decode_mid_red_rounds() {
    let frame = image(1, 1, 16, vec![15, 0]).decode().unwrap();
    assert_eq!(frame.data, vec![123, 0, 0]);
}

#[test]
fn colour_decode_channel_positions() {
    // green 1 in bits 5..11, blue 1 in bits 11..16
    assert_eq!(rgb565_to_rgb8(&vec![0x20, 0x00]), vec![0, 4, 0]);
    assert_eq!(rgb565_to_rgb8(&vec![0x00, 0x08]), vec![0, 0, 8]);
    assert_eq!(rgb565_to_rgb8(&vec![0x1f, 0x00]), vec![255, 0, 0]);
    assert_eq!(rgb565_to_rgb8(&vec![0xe0, 0x07]), vec![0, 255, 0]);
    assert_eq!(rgb565_to_rgb8(&vec![0x00, 0xf8]), vec![0, 0, 255]);
}

#[test]
fn unsupported_depth_is_rejected() {
    assert!(matches!(image(1, 1, 24, vec![1, 2, 3]).decode(), Err(Error::UnknownBpp(24))));
    assert!(matches!(image(0, 0, 0, vec![]).decode(), Err(Error::UnknownBpp(0))));
    assert!(matches!(image(1, 1, 4, vec![]).to_dynamic_image(), Err(Error::UnknownBpp(4))));
}

#[test]
fn grey_dynamic_image() {
    let img = image(2, 2, 8, vec![1, 2, 3, 4]).to_dynamic_image().unwrap();
    assert_eq!((img.width(), img.height()), (2, 2));
    assert_eq!(img.as_bytes(), &[1, 2, 3, 4]);
    assert!(img.as_luma8().is_some());
}

#[test]
fn colour_dynamic_image() {
    let img = image(1, 2, 16, vec![0xff, 0xff, 15, 0]).to_dynamic_image().unwrap();
    assert_eq!((img.width(), img.height()), (1, 2));
    assert_eq!(img.as_bytes(), &[255, 255, 255, 123, 0, 0]);
    assert!(img.as_rgb8().is_some());
}

#[test]
fn dynamic_image_keeps_dimensions() {
    let img = image(3, 1, 8, vec![9, 8, 7]).to_dynamic_image().unwrap();
    assert_eq!((img.width(), img.height()), (3, 1));
    assert_eq!(img.as_bytes(), &[9, 8, 7]);
    let img = image(0, 0, 16, vec![]).to_dynamic_image().unwrap();
    assert_eq!((img.width(), img.height()), (0, 0));
    assert!(img.as_bytes().is_empty());
}
