use base64::Engine;
use desktop_pet::hit_mask::HitMask;
use desktop_pet::skin::{
    build_tray_icon, bundled_src, data_url_from_png, resolve_identity_image_path, resolve_skin_config,
    tray_icon_for, Asset, AssetFile, SkinAssets,
};

fn png(w: u32, h: u32, rgba: [u8; 4]) -> Vec<u8> {
    let img = image::RgbaImage::from_pixel(w, h, image::Rgba(rgba));
    let mut buf = std::io::Cursor::new(Vec::new());
    image::DynamicImage::ImageRgba8(img).write_to(&mut buf, image::ImageFormat::Png).unwrap();
    buf.into_inner()
}

fn url_of(bytes: &[u8]) -> String {
    format!("data:image/png;base64,{}", base64::engine::general_purpose::STANDARD.encode(bytes))
}

fn decode_url(url: &str) -> image::DynamicImage {
    let payload = url.strip_prefix("data:image/png;base64,").expect("data URL header");
    let bytes = base64::engine::general_purpose::STANDARD.decode(payload).unwrap();
    image::load_from_memory_with_format(&bytes, image::ImageFormat::Png).unwrap()
}

fn none() -> SkinAssets {
    SkinAssets {
        idle: AssetFile::Missing,
        walk1: AssetFile::Missing,
        walk2: AssetFile::Missing,
        walk3: AssetFile::Missing,
        drag: AssetFile::Missing,
    }
}

#[test]
fn bundled_src_builds_asset_path() {
    assert_eq!(bundled_src("idle"), "assets/idle.png");
    assert_eq!(bundled_src("walk3"), "assets/walk3.png");
}

#[test]
fn small_png_keeps_its_bytes() {
    let bytes = png(10, 20, [255, 0, 0, 255]);
    assert_eq!(data_url_from_png(&bytes), Some(url_of(&bytes)));
}

#[test]
fn png_at_limit_keeps_its_bytes() {
    let bytes = png(512, 100, [0, 0, 255, 255]);
    assert_eq!(data_url_from_png(&bytes), Some(url_of(&bytes)));
}

#[test]
fn large_png_is_scaled_to_limit() {
    let bytes = png(600, 300, [0, 255, 0, 255]);
    let url = data_url_from_png(&bytes).unwrap();
    assert_ne!(url, url_of(&bytes));
    let img = decode_url(&url);
    assert_eq!((img.width(), img.height()), (512, 256));
}

#[test]
fn tall_png_is_scaled_to_limit() {
    let bytes = png(100, 1024, [0, 255, 0, 255]);
    let img = decode_url(&data_url_from_png(&bytes).unwrap());
    assert_eq!((img.width(), img.height()), (50, 512));
}

#[test]
fn garbage_is_not_a_data_url() {
    assert_eq!(data_url_from_png(&[1, 2, 3, 4]), None);
    assert_eq!(data_url_from_png(&[]), None);
}

#[test]
fn no_custom_files_means_bundled_skin() {
    let c = resolve_skin_config(&none());
    assert_eq!(c.idle_src, "assets/idle.png");
    assert_eq!(c.walk1_src, "assets/walk1.png");
    assert_eq!(c.walk2_src, "assets/walk2.png");
    assert_eq!(c.walk3_src, "assets/walk3.png");
    assert_eq!(c.drag_src, "assets/drag.png");
}

#[test]
fn idle_only_is_used_everywhere() {
    let idle = png(4, 4, [1, 2, 3, 255]);
    let mut a = none();
    a.idle = AssetFile::Bytes(idle.clone());
    let c = resolve_skin_config(&a);
    let u = url_of(&idle);
    assert_eq!(c.idle_src, u);
    assert_eq!(c.walk1_src, u);
    assert_eq!(c.walk2_src, u);
    assert_eq!(c.walk3_src, u);
    assert_eq!(c.drag_src, u);
}

#[test]
fn three_walks_cycle_on_their_own() {
    let (w1, w2, w3) = (png(2, 2, [1, 0, 0, 255]), png(2, 2, [2, 0, 0, 255]), png(2, 2, [3, 0, 0, 255]));
    let mut a = none();
    a.walk1 = AssetFile::Bytes(w1.clone());
    a.walk2 = AssetFile::Bytes(w2.clone());
    a.walk3 = AssetFile::Bytes(w3.clone());
    let c = resolve_skin_config(&a);
    assert_eq!(c.idle_src, url_of(&w1));
    assert_eq!(c.walk1_src, url_of(&w1));
    assert_eq!(c.walk2_src, url_of(&w2));
    assert_eq!(c.walk3_src, url_of(&w3));
    assert_eq!(c.drag_src, url_of(&w1));
}

#[test]
fn partial_walks_show_the_lowest_numbered() {
    let (w2, w3) = (png(2, 2, [2, 0, 0, 255]), png(2, 2, [3, 0, 0, 255]));
    let mut a = none();
    a.walk2 = AssetFile::Bytes(w2.clone());
    a.walk3 = AssetFile::Bytes(w3);
    let c = resolve_skin_config(&a);
    let u = url_of(&w2);
    assert_eq!(c.idle_src, u);
    assert_eq!(c.walk1_src, u);
    assert_eq!(c.walk2_src, u);
    assert_eq!(c.walk3_src, u);
}

#[test]
fn broken_files_fall_back_per_slot() {
    let mut a = none();
    a.idle = AssetFile::Bytes(vec![9, 9, 9]);
    a.walk1 = AssetFile::Unreadable;
    a.walk2 = AssetFile::Bytes(vec![0]);
    a.walk3 = AssetFile::Unreadable;
    a.drag = AssetFile::Unreadable;
    let c = resolve_skin_config(&a);
    assert_eq!(c.idle_src, "assets/idle.png");
    assert_eq!(c.walk1_src, "assets/walk1.png");
    assert_eq!(c.walk2_src, "assets/walk2.png");
    assert_eq!(c.walk3_src, "assets/walk3.png");
    assert_eq!(c.drag_src, "assets/drag.png");
}

#[test]
fn broken_single_walk_falls_back_to_bundled_walk1() {
    let mut a = none();
    a.walk3 = AssetFile::Unreadable;
    let c = resolve_skin_config(&a);
    assert_eq!(c.idle_src, "assets/idle.png");
    assert_eq!(c.walk1_src, "assets/walk1.png");
    assert_eq!(c.walk2_src, "assets/walk1.png");
    assert_eq!(c.walk3_src, "assets/walk1.png");
    assert_eq!(c.drag_src, "assets/idle.png");
}

#[test]
fn drag_file_is_used_for_dragging() {
    let (idle, drag) = (png(3, 3, [5, 5, 5, 255]), png(3, 3, [6, 6, 6, 255]));
    let mut a = none();
    a.idle = AssetFile::Bytes(idle.clone());
    a.drag = AssetFile::Bytes(drag.clone());
    let c = resolve_skin_config(&a);
    assert_eq!(c.drag_src, url_of(&drag));
    assert_eq!(c.walk2_src, url_of(&idle));
}

#[test]
fn corrupt_drag_falls_back_to_bundled_drag() {
    let idle = png(3, 3, [5, 5, 5, 255]);
    let mut a = none();
    a.idle = AssetFile::Bytes(idle.clone());
    a.drag = AssetFile::Bytes(vec![7, 7, 7]);
    let c = resolve_skin_config(&a);
    let u = url_of(&idle);
    assert_eq!(c.idle_src, u);
    assert_eq!(c.walk1_src, u);
    assert_eq!(c.walk2_src, u);
    assert_eq!(c.walk3_src, u);
    assert_eq!(c.drag_src, "assets/drag.png");
}

#[test]
fn drag_only_keeps_bundled_idle() {
    let drag = png(3, 3, [6, 6, 6, 255]);
    let mut a = none();
    a.drag = AssetFile::Bytes(drag.clone());
    let c = resolve_skin_config(&a);
    assert_eq!(c.idle_src, "assets/idle.png");
    assert_eq!(c.walk1_src, "assets/idle.png");
    assert_eq!(c.drag_src, url_of(&drag));
}

#[test]
fn identity_prefers_idle_then_first_walk() {
    let mut a = none();
    assert_eq!(resolve_identity_image_path(&a), None);
    a.walk3 = AssetFile::Unreadable;
    assert_eq!(resolve_identity_image_path(&a), Some(Asset::Walk3));
    a.walk2 = AssetFile::Bytes(vec![]);
    assert_eq!(resolve_identity_image_path(&a), Some(Asset::Walk2));
    a.idle = AssetFile::Unreadable;
    assert_eq!(resolve_identity_image_path(&a), Some(Asset::Idle));
    assert_eq!(Asset::Walk2.file_name(), "walk2.png");
    assert_eq!(Asset::Drag.file_name(), "drag.png");
}

fn alpha(rgba: &[u8], x: usize, y: usize) -> u8 {
    rgba[(y * 32 + x) * 4 + 3]
}

#[test]
fn tray_icon_is_centred_on_square() {
    let icon = build_tray_icon(&png(64, 32, [200, 10, 10, 255])).unwrap();
    assert_eq!(icon.len(), 32 * 32 * 4);
    assert_eq!(alpha(&icon, 0, 0), 0);
    assert_eq!(alpha(&icon, 31, 7), 0);
    assert_eq!(alpha(&icon, 0, 8), 255);
    assert_eq!(alpha(&icon, 31, 23), 255);
    assert_eq!(alpha(&icon, 5, 24), 0);
}

#[test]
fn tray_icon_scales_small_pictures_up() {
    let icon = build_tray_icon(&png(8, 8, [0, 0, 0, 255])).unwrap();
    assert!(icon.chunks(4).all(|p| p[3] == 255));
}

#[test]
fn tray_icon_needs_a_png() {
    assert_eq!(build_tray_icon(&[0, 1, 2]), None);
    assert_eq!(tray_icon_for(&none()), None);
    let mut a = none();
    a.idle = AssetFile::Unreadable;
    a.walk1 = AssetFile::Bytes(png(4, 4, [1, 1, 1, 255]));
    assert_eq!(tray_icon_for(&a), None);
    a.idle = AssetFile::Bytes(png(4, 4, [1, 1, 1, 255]));
    assert_eq!(tray_icon_for(&a).map(|v| v.len()), Some(4096));
}

#[test]
fn hit_mask_reads_solid_pixels() {
    let mut img = image::RgbaImage::from_pixel(4, 2, image::Rgba([0, 0, 0, 0]));
    img.put_pixel(3, 1, image::Rgba([9, 9, 9, 200]));
    img.put_pixel(0, 0, image::Rgba([9, 9, 9, 10]));
    img.put_pixel(1, 0, image::Rgba([9, 9, 9, 11]));
    let mut buf = std::io::Cursor::new(Vec::new());
    image::DynamicImage::ImageRgba8(img).write_to(&mut buf, image::ImageFormat::Png).unwrap();
    let mask = HitMask::load(&buf.into_inner()).unwrap();
    assert_eq!((mask.width(), mask.height()), (4, 2));
    assert!(mask.is_opaque_at_pixel(3, 1));
    assert!(mask.is_opaque_at_pixel(100, 100));
    assert!(!mask.is_opaque_at_pixel(0, 0));
    assert!(mask.is_opaque_at_pixel(1, 0));
    assert!(!mask.is_opaque_at_pixel(2, 1));
    assert!(HitMask::load(&[1, 2, 3]).is_none());
}
