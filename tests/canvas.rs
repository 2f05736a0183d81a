use demo2replay::canvas::{
    blank_canvas, compose_canvas, compose_thumbnail, encode_texture, fit_to_canvas, thumbnail_canvas, Picture,
    CANVAS_BYTES,
};
use demo2replay::error::ReplayError;

fn png_bytes(w: u32, h: u32, rgb: [u8; 3]) -> Vec<u8> {
    let img = image::RgbImage::from_pixel(w, h, image::Rgb(rgb));
    let mut bytes: Vec<u8> = Vec::new();
    image::DynamicImage::ImageRgb8(img)
        .write_to(&mut std::io::Cursor::new(&mut bytes), image::ImageFormat::Png)
        .unwrap();
    bytes
}

fn sample(c: &[u8], x: usize, y: usize) -> [u8; 3] {
    let i = (y * 512 + x) * 3;
    [c[i], c[i + 1], c[i + 2]]
}

#[test]
fn fit_keeps_small_and_scales_large() {
    assert_eq!(fit_to_canvas(1024, 768), (512, 384));
    assert_eq!(fit_to_canvas(768, 1024), (384, 512));
    assert_eq!(fit_to_canvas(100, 50), (100, 50));
    assert_eq!(fit_to_canvas(512, 512), (512, 512));
    assert_eq!(fit_to_canvas(0, 0), (0, 0));
    assert_eq!(fit_to_canvas(0, 4000), (0, 0));
    assert_eq!(fit_to_canvas(10000, 1), (512, 1));
    assert_eq!(fit_to_canvas(1000, 3), (512, 2));
}

#[test]
fn zero_sized_picture_gives_black_canvas() {
    let p = Picture { width: 0, height: 0, pixels: vec![] };
    let c = compose_thumbnail(&p);
    assert_eq!(c.pixels.len(), CANVAS_BYTES);
    assert!(c.pixels.iter().all(|&v| v == 0));
}

#[test]
fn small_picture_is_placed_top_left_without_alpha() {
    let p = Picture { width: 2, height: 1, pixels: vec![1, 2, 3, 4, 5, 6, 7, 8] };
    let c = compose_canvas(&p);
    assert_eq!(c.pixels.len(), 512 * 512 * 3);
    assert_eq!(sample(&c.pixels, 0, 0), [1, 2, 3]);
    assert_eq!(sample(&c.pixels, 1, 0), [5, 6, 7]);
    assert_eq!(sample(&c.pixels, 2, 0), [0, 0, 0]);
    assert_eq!(sample(&c.pixels, 0, 1), [0, 0, 0]);
    let t = compose_thumbnail(&p);
    assert_eq!(t.pixels, c.pixels);
}

#[test]
fn large_picture_is_scaled_down() {
    let c = thumbnail_canvas(&png_bytes(1024, 768, [200, 10, 20])).unwrap();
    assert_eq!(c.pixels.len(), CANVAS_BYTES);
    assert_eq!(sample(&c.pixels, 0, 0), [200, 10, 20]);
    assert_eq!(sample(&c.pixels, 511, 383), [200, 10, 20]);
    assert_eq!(sample(&c.pixels, 0, 384), [0, 0, 0]);
    assert_eq!(sample(&c.pixels, 511, 511), [0, 0, 0]);
}

#[test]
fn small_picture_is_not_scaled_up() {
    let c = thumbnail_canvas(&png_bytes(10, 20, [9, 8, 7])).unwrap();
    assert_eq!(sample(&c.pixels, 9, 19), [9, 8, 7]);
    assert_eq!(sample(&c.pixels, 10, 0), [0, 0, 0]);
    assert_eq!(sample(&c.pixels, 0, 20), [0, 0, 0]);
}

#[test]
fn unreadable_thumbnail_is_refused() {
    assert_eq!(
        thumbnail_canvas(b"not an image at all").err(),
        Some(ReplayError::ThumbnailUnreadable)
    );
}

#[test]
fn texture_of_a_canvas() {
    let c = thumbnail_canvas(&png_bytes(64, 64, [1, 2, 3])).unwrap();
    let t = encode_texture(&c);
    assert_eq!(&t[0..4], b"VTF\0");
    assert_eq!(t.len(), 64 + CANVAS_BYTES);
    assert_eq!(&t[64..], &c.pixels[..]);
}

#[test]
fn blank_canvas_is_black() {
    let c = blank_canvas();
    assert_eq!(c.pixels.len(), CANVAS_BYTES);
    assert!(c.pixels.iter().all(|&v| v == 0));
}
