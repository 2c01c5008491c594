use qingjian_windows::logo::{accept_rgba8, themed_logo_pixels, DecodedFrame, PngColor, border_pixel, color_distance, logo_image, logo_role, logo_roles, nearest_semantic, LogoRole};

#[test]
fn dark_logo_border_follows_the_original_rounded_square() {
    assert!(border_pixel(72, 512, 1024, 1024));
    assert!(border_pixel(112, 512, 1024, 1024));
    assert!(!border_pixel(140, 512, 1024, 1024));
    assert!(!border_pixel(10, 10, 1024, 1024));
}

#[test]
fn border_pixel_scales_with_the_image() {
    assert!(border_pixel(18, 128, 256, 256));
    assert!(border_pixel(28, 128, 256, 256));
    assert!(!border_pixel(35, 128, 256, 256));
    assert!(!border_pixel(128, 128, 256, 256));
}

#[test]
fn color_distance_is_the_squared_distance() {
    assert_eq!(color_distance([247, 246, 242], [247, 246, 242]), 0);
    assert_eq!(color_distance([0, 0, 0], [255, 255, 255]), 3 * 255 * 255);
    assert_eq!(color_distance([10, 20, 30], [13, 16, 30]), 25);
}

#[test]
fn nearest_semantic_colour_prefers_the_first_on_ties() {
    assert_eq!(nearest_semantic([247, 246, 242]), 0);
    assert_eq!(nearest_semantic([85, 214, 194]), 1);
    assert_eq!(nearest_semantic([49, 87, 216]), 2);
    assert_eq!(nearest_semantic([36, 79, 219]), 3);
    assert_eq!(nearest_semantic([255, 255, 255]), 0);
}

#[test]
fn logo_roles_follow_colour_and_ring() {
    assert_eq!(logo_role([49, 87, 216], 72, 512, 1024, 1024, true), LogoRole::Border);
    assert_eq!(logo_role([49, 87, 216], 72, 512, 1024, 1024, false), LogoRole::Gradient);
    assert_eq!(logo_role([49, 87, 216], 512, 512, 1024, 1024, true), LogoRole::Gradient);
    assert_eq!(logo_role([247, 246, 242], 72, 512, 1024, 1024, true), LogoRole::WarmWhite);
    assert_eq!(logo_role([85, 214, 194], 72, 512, 1024, 1024, true), LogoRole::Mint);
    let source = vec![247, 246, 242, 255, 85, 214, 194, 255, 36, 79, 219, 0, 1, 2];
    let roles = logo_roles(&source, 3, 1, false);
    assert_eq!(roles, vec![LogoRole::WarmWhite, LogoRole::Mint, LogoRole::Gradient]);
}

fn encode(width: u32, height: u32, color: png::ColorType, data: &[u8]) -> Vec<u8> {
    let mut out = Vec::new();
    {
        let mut encoder = png::Encoder::new(&mut out, width, height);
        encoder.set_color(color);
        encoder.set_depth(png::BitDepth::Eight);
        let mut writer = encoder.write_header().unwrap();
        writer.write_image_data(data).unwrap();
    }
    out
}

#[test]
fn logo_image_decodes_rgba_only() {
    let pixels = [1, 2, 3, 4, 5, 6, 7, 8];
    let bytes = encode(2, 1, png::ColorType::Rgba, &pixels);
    let (decoded, w, h) = logo_image(&bytes).expect("an RGBA PNG decodes");
    assert_eq!((decoded, w, h), (pixels.to_vec(), 2, 1));
    let rgb = encode(1, 1, png::ColorType::Rgb, &[9, 9, 9]);
    assert!(logo_image(&rgb).is_none());
    assert!(logo_image(&[1, 2, 3]).is_none());
}

#[test]
fn empty_image_has_no_ring_and_no_roles() {
    assert!(!border_pixel(0, 0, 0, 1024));
    assert!(!border_pixel(0, 0, 1024, 0));
    assert!(logo_roles(&Vec::new(), 0, 0, true).is_empty());
}

#[test]
fn ring_is_the_same_at_double_resolution() {
    for (x, y) in [(18, 128), (28, 128), (35, 128), (128, 128), (16, 16), (40, 40)] {
        assert_eq!(border_pixel(x, y, 256, 256), border_pixel(2 * x, 2 * y, 512, 512));
        assert_eq!(border_pixel(x, y, 256, 256), border_pixel(4 * x, 4 * y, 1024, 1024));
    }
}

#[test]
fn accept_rgba8_keeps_only_8_bit_rgba() {
    let frame = |color, bit_depth| DecodedFrame { width: 1, height: 1, color, bit_depth, pixels: vec![1, 2, 3, 4] };
    assert_eq!(accept_rgba8(frame(PngColor::Rgba, 8)), Some((vec![1, 2, 3, 4], 1, 1)));
    assert_eq!(accept_rgba8(frame(PngColor::Rgba, 16)), None);
    assert_eq!(accept_rgba8(frame(PngColor::Rgb, 8)), None);
}

#[test]
fn themed_pixels_take_role_colours_and_keep_alpha() {
    let caret = [1, 2, 3];
    let accent = [4, 5, 6];
    let gradient = vec![[7, 8, 9], [10, 11, 12]];
    // Row 0: warm white, mint; row 1: blue, blue; a trailing partial pixel is dropped.
    let source = vec![247, 246, 240, 10, 85, 214, 194, 20, 49, 87, 216, 30, 36, 79, 219, 40, 99];
    let light = themed_logo_pixels(&source, 2, 2, false, caret, accent, &gradient);
    assert_eq!(light, vec![247, 246, 242, 10, 1, 2, 3, 20, 10, 11, 12, 30, 10, 11, 12, 40]);
    assert_eq!(themed_logo_pixels(&Vec::new(), 0, 0, true, caret, accent, &Vec::new()), Vec::<u8>::new());
}

#[test]
fn themed_pixels_paint_the_ring_in_dark_mode() {
    let (width, rows) = (256usize, 129usize);
    let source: Vec<u8> = [49u8, 87, 216, 255].repeat(width * rows);
    let gradient = vec![[7, 8, 9]; rows];
    let at = |pixels: &Vec<u8>, x: usize, y: usize| pixels[4 * (y * width + x)..4 * (y * width + x) + 4].to_vec();
    let dark = themed_logo_pixels(&source, width, 256, true, [1, 2, 3], [4, 5, 6], &gradient);
    assert_eq!(at(&dark, 18, 128), vec![4, 5, 6, 255]);
    assert_eq!(at(&dark, 128, 128), vec![7, 8, 9, 255]);
    let light = themed_logo_pixels(&source, width, 256, false, [1, 2, 3], [4, 5, 6], &gradient);
    assert_eq!(at(&light, 18, 128), vec![7, 8, 9, 255]);
}

#[test]
fn ring_test_is_exact_for_very_large_images() {
    let k: usize = 1 << 40;
    assert!(border_pixel(72 * k, 512 * k, 1024 * k, 1024 * k));
    assert!(border_pixel(112 * k, 512 * k, 1024 * k, 1024 * k));
    assert!(!border_pixel(140 * k, 512 * k, 1024 * k, 1024 * k));
    assert!(!border_pixel(10 * k, 10 * k, 1024 * k, 1024 * k));
    assert!(!border_pixel(usize::MAX, usize::MAX, usize::MAX, usize::MAX));
    assert_eq!(logo_role([49, 87, 216], 72 * k, 512 * k, 1024 * k, 1024 * k, true), LogoRole::Border);
}
