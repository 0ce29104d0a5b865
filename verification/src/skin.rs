//! Custom skins: which picture each of the pet's five sprites uses, and which
//! picture stands for the pet in the tray.
//!
//! A folder `assets/` beside the executable may hold `idle.png`, `walk1.png`,
//! `walk2.png`, `walk3.png` and `drag.png`. The caller looks at that folder once
//! and hands over what it found as `SkinAssets`; everything decided from there
//! on happens here.

use vstd::prelude::*;
use crate::imaging::{
    base64_encode, base64_standard, blank_rgba8, decode_png, encode_png, height, into_bytes,
    overlay, picture_height, picture_width, png_decodes, png_encoding, raw_bytes, resize, to_rgba8,
    width, Origin, on_blank_canvas,
};

verus! {

/// Longest side, in pixels, that a custom sprite keeps; larger ones are scaled
/// down to it.
pub const MAX_CUSTOM_IMAGE_DIM: u32 = 512;

/// Side, in pixels, of the square tray icon.
pub const TRAY_ICON_SIZE: u32 = 32;

/// What the assets folder holds under one file name.
pub enum AssetFile {
    /// No such regular file (or no assets folder at all).
    Missing,
    /// The file exists but could not be read.
    Unreadable,
    /// The file's contents.
    Bytes(Vec<u8>),
}

/// The five custom sprite files, as found in the assets folder.
pub struct SkinAssets {
    pub idle: AssetFile,
    pub walk1: AssetFile,
    pub walk2: AssetFile,
    pub walk3: AssetFile,
    pub drag: AssetFile,
}

/// The image source (a bundled path or a `data:` URL) of each sprite.
pub struct SkinConfig {
    pub idle_src: String,
    pub walk1_src: String,
    pub walk2_src: String,
    pub walk3_src: String,
    pub drag_src: String,
}

/// The sources of a `SkinConfig`, as text.
pub struct SkinSources {
    pub idle: Seq<char>,
    pub walk1: Seq<char>,
    pub walk2: Seq<char>,
    pub walk3: Seq<char>,
    pub drag: Seq<char>,
}

impl View for SkinConfig {
    type V = SkinSources;

    open spec fn view(&self) -> SkinSources {
        SkinSources {
            idle: self.idle_src@,
            walk1: self.walk1_src@,
            walk2: self.walk2_src@,
            walk3: self.walk3_src@,
            drag: self.drag_src@,
        }
    }
}

/// One of the five sprite files.
#[derive(Clone, Copy, PartialEq, Eq, Debug, Structural)]
pub enum Asset {
    Idle,
    Walk1,
    Walk2,
    Walk3,
    Drag,
}

// ------------------------------------------------------------------ model

/// `x` rounded to the nearest integer, halves away from zero, for
/// `x = num / den` with `num >= 0` and `den > 0`.
pub open spec fn round_ratio(num: int, den: int) -> int {
    (2 * num + den) / (2 * den)
}

/// The side `side` of a picture whose longest side is `longest`, once the
/// picture is scaled so that its longest side becomes `limit`.
pub open spec fn scaled_side(side: int, longest: int, limit: int) -> int {
    round_ratio(side * limit, longest)
}

pub open spec fn max_u32(a: u32, b: u32) -> u32 {
    if a >= b { a } else { b }
}

pub open spec fn at_least_one(x: int) -> int {
    if x < 1 { 1 } else { x }
}

/// The text in front of the base64 payload of a sprite's data URL.
pub open spec fn data_url_prefix() -> Seq<char> {
    "data:image/png;base64,"@
}

/// The data URL that a custom sprite file yields, or `None` where it is not a
/// readable PNG. A picture with a side over `MAX_CUSTOM_IMAGE_DIM` is scaled
/// down, aspect kept, to a longest side of exactly that size and encoded again;
/// any other picture keeps its original bytes.
pub open spec fn data_url_of(bytes: Seq<u8>) -> Option<Seq<char>> {
    if !png_decodes(bytes) {
        None
    } else {
        let o = Origin::Png { bytes: bytes };
        let w = picture_width(o);
        let h = picture_height(o);
        let longest = max_u32(w, h);
        if longest > MAX_CUSTOM_IMAGE_DIM {
            let nw = at_least_one(scaled_side(w as int, longest as int, MAX_CUSTOM_IMAGE_DIM as int));
            let nh = at_least_one(scaled_side(h as int, longest as int, MAX_CUSTOM_IMAGE_DIM as int));
            match png_encoding(Origin::Resized { source: Box::new(o), width: nw as u32, height: nh as u32 }) {
                Some(out) => Some(data_url_prefix() + base64_standard(out)),
                None => None,
            }
        } else {
            Some(data_url_prefix() + base64_standard(bytes))
        }
    }
}

pub open spec fn opt_view(s: Option<String>) -> Option<Seq<char>> {
    match s {
        Some(t) => Some(t@),
        None => None,
    }
}

pub open spec fn present(f: AssetFile) -> bool {
    !(f is Missing)
}

/// The data URL a sprite file yields, if any.
pub open spec fn loaded(f: AssetFile) -> Option<Seq<char>> {
    match f {
        AssetFile::Bytes(b) => data_url_of(b@),
        _ => None,
    }
}

pub open spec fn or_else(o: Option<Seq<char>>, fallback: Seq<char>) -> Seq<char> {
    match o {
        Some(s) => s,
        None => fallback,
    }
}

/// Where a bundled sprite lives.
pub open spec fn bundled(name: Seq<char>) -> Seq<char> {
    "assets/"@ + name + ".png"@
}

pub open spec fn walk_count(a: SkinAssets) -> int {
    (if present(a.walk1) { 1int } else { 0int }) + (if present(a.walk2) { 1int } else { 0int })
        + (if present(a.walk3) { 1int } else { 0int })
}

/// The lowest-numbered walk file present, where any is.
pub open spec fn first_walk(a: SkinAssets) -> AssetFile {
    if present(a.walk1) {
        a.walk1
    } else if present(a.walk2) {
        a.walk2
    } else {
        a.walk3
    }
}

pub open spec fn no_custom_assets(a: SkinAssets) -> bool {
    !present(a.idle) && !present(a.drag) && walk_count(a) == 0
}

/// The idle sprite: the custom idle file, else the lowest-numbered walk file,
/// else the bundled one; a file that does not load falls back to the bundled
/// idle sprite.
pub open spec fn idle_source(a: SkinAssets) -> Seq<char> {
    if present(a.idle) {
        or_else(loaded(a.idle), bundled("idle"@))
    } else if walk_count(a) > 0 {
        or_else(loaded(first_walk(a)), bundled("idle"@))
    } else {
        bundled("idle"@)
    }
}

/// The sprite sources that a set of custom files leads to.
pub open spec fn skin_sources(a: SkinAssets) -> SkinSources {
    if no_custom_assets(a) {
        SkinSources {
            idle: bundled("idle"@),
            walk1: bundled("walk1"@),
            walk2: bundled("walk2"@),
            walk3: bundled("walk3"@),
            drag: bundled("drag"@),
        }
    } else {
        let idle = idle_source(a);
        let drag = if present(a.drag) { or_else(loaded(a.drag), bundled("drag"@)) } else { idle };
        if walk_count(a) == 3 {
            SkinSources {
                idle: idle,
                walk1: or_else(loaded(a.walk1), bundled("walk1"@)),
                walk2: or_else(loaded(a.walk2), bundled("walk2"@)),
                walk3: or_else(loaded(a.walk3), bundled("walk3"@)),
                drag: drag,
            }
        } else if walk_count(a) > 0 {
            let single = or_else(loaded(first_walk(a)), bundled("walk1"@));
            SkinSources { idle: idle, walk1: single, walk2: single, walk3: single, drag: drag }
        } else {
            SkinSources { idle: idle, walk1: idle, walk2: idle, walk3: idle, drag: drag }
        }
    }
}

/// The file that stands for the pet in the tray: the custom idle file, else the
/// lowest-numbered walk file, else none.
pub open spec fn identity_asset(a: SkinAssets) -> Option<Asset> {
    if present(a.idle) {
        Some(Asset::Idle)
    } else if present(a.walk1) {
        Some(Asset::Walk1)
    } else if present(a.walk2) {
        Some(Asset::Walk2)
    } else if present(a.walk3) {
        Some(Asset::Walk3)
    } else {
        None
    }
}

/// The RGBA pixels of the tray icon made from a picture file: the picture scaled
/// (up or down, aspect kept) so that its longest side is `TRAY_ICON_SIZE`,
/// converted to RGBA and centred on a transparent square canvas.
pub open spec fn tray_icon_of(bytes: Seq<u8>) -> Option<Seq<u8>> {
    if !png_decodes(bytes) {
        None
    } else {
        let o = Origin::Png { bytes: bytes };
        let w = picture_width(o);
        let h = picture_height(o);
        let longest = max_u32(max_u32(w, h), 1);
        let nw = tray_side(w, longest);
        let nh = tray_side(h, longest);
        let top = Origin::Rgba8 {
            source: Box::new(Origin::Resized { source: Box::new(o), width: nw, height: nh }),
        };
        let canvas = Origin::Overlay {
            bottom: Box::new(Origin::Blank { width: TRAY_ICON_SIZE, height: TRAY_ICON_SIZE }),
            top: Box::new(top),
            x: ((TRAY_ICON_SIZE - nw) / 2) as i64,
            y: ((TRAY_ICON_SIZE - nh) / 2) as i64,
        };
        Some(raw_bytes(canvas))
    }
}

/// A side of the tray-icon picture: scaled, then kept within 1 ..= TRAY_ICON_SIZE.
pub open spec fn tray_side(side: u32, longest: u32) -> u32 {
    let s = scaled_side(side as int, longest as int, TRAY_ICON_SIZE as int);
    if s < 1 {
        1
    } else if s > TRAY_ICON_SIZE {
        TRAY_ICON_SIZE
    } else {
        s as u32
    }
}

impl Asset {
    pub open spec fn stem(self) -> Seq<char> {
        match self {
            Asset::Idle => "idle"@,
            Asset::Walk1 => "walk1"@,
            Asset::Walk2 => "walk2"@,
            Asset::Walk3 => "walk3"@,
            Asset::Drag => "drag"@,
        }
    }

    /// The file name of this sprite inside the assets folder.
    pub fn file_name(self) -> (name: String)
        ensures
            name@ == self.stem() + ".png"@,
    {
        let stem = match self {
            Asset::Idle => "idle",
            Asset::Walk1 => "walk1",
            Asset::Walk2 => "walk2",
            Asset::Walk3 => "walk3",
            Asset::Drag => "drag",
        };
        String::from_str(stem).concat(".png")
    }
}

// ------------------------------------------------------------------ code

/// The path of a bundled sprite.
pub fn bundled_src(name: &str) -> (src: String)
    ensures
        src@ == bundled(name@),
{
    String::from_str("assets/").concat(name).concat(".png")
}

/// `round(side * limit / longest)`, at least 1.
fn fit_side(side: u32, longest: u32, limit: u32) -> (r: u32)
    requires
        0 < longest,
        side <= longest,
        limit <= MAX_CUSTOM_IMAGE_DIM,
    ensures
        r as int == at_least_one(scaled_side(side as int, longest as int, limit as int)),
        r <= limit || r == 1,
{
    assert((side as int) * (limit as int) <= 0xffff_ffff * 512) by (nonlinear_arith)
        requires
            side <= 0xffff_ffff,
            limit <= 512;
    let prod: u64 = (side as u64) * (limit as u64);
    let num: u64 = 2 * prod + (longest as u64);
    let den: u64 = 2 * (longest as u64);
    let q: u64 = num / den;
    proof {
        assert((side as int) * (limit as int) <= (longest as int) * (limit as int)) by (nonlinear_arith)
            requires side <= longest;
        assert(q as int <= limit as int) by (nonlinear_arith)
            requires
                q as int == (num as int) / (den as int),
                num as int == 2 * ((side as int) * (limit as int)) + longest as int,
                den as int == 2 * (longest as int),
                (side as int) * (limit as int) <= (longest as int) * (limit as int),
                longest > 0;
    }
    if q < 1 {
        1
    } else {
        q as u32
    }
}

/// The data URL that a custom sprite file yields: the PNG file itself, or, where
/// one side exceeds `MAX_CUSTOM_IMAGE_DIM`, the picture scaled down to fit and
/// encoded again; `None` where the bytes are not a PNG picture or the scaled
/// picture cannot be encoded.
pub fn data_url_from_png(bytes: &[u8]) -> (url: Option<String>)
    ensures
        opt_view(url) == data_url_of(bytes@),
{
    let pic = match decode_png(bytes) {
        Some(p) => p,
        None => return None,
    };
    let w = width(&pic);
    let h = height(&pic);
    let longest = if w >= h { w } else { h };
    let payload = if longest > MAX_CUSTOM_IMAGE_DIM {
        let nw = fit_side(w, longest, MAX_CUSTOM_IMAGE_DIM);
        let nh = fit_side(h, longest, MAX_CUSTOM_IMAGE_DIM);
        let resized = resize(&pic, nw, nh);
        match encode_png(&resized) {
            Some(out) => base64_encode(out.as_slice()),
            None => return None,
        }
    } else {
        base64_encode(bytes)
    };
    Some(String::from_str("data:image/png;base64,").concat(payload.as_str()))
}

/// The data URL a sprite file yields, if any.
fn load_asset(f: &AssetFile) -> (url: Option<String>)
    ensures
        opt_view(url) == loaded(*f),
{
    match f {
        AssetFile::Bytes(b) => data_url_from_png(b.as_slice()),
        _ => None,
    }
}

fn is_present(f: &AssetFile) -> (b: bool)
    ensures
        b == present(*f),
{
    match f {
        AssetFile::Missing => false,
        _ => true,
    }
}

fn source_or(o: Option<String>, fallback: String) -> (s: String)
    ensures
        s@ == or_else(opt_view(o), fallback@),
{
    match o {
        Some(s) => s,
        None => fallback,
    }
}

/// Decides the source of each of the five sprites:
/// - no custom file at all: every sprite is the bundled one;
/// - the idle sprite is the custom idle file, else the lowest-numbered custom
///   walk file;
/// - with all three walk files, each walk frame uses its own file; with one or
///   two, every walk frame shows the lowest-numbered one; with none, walking
///   shows the idle sprite;
/// - the drag sprite is the custom drag file, else the idle sprite.
/// A file that cannot be loaded falls back to the bundled sprite of its slot;
/// nothing makes the whole fail.
pub fn resolve_skin_config(assets: &SkinAssets) -> (config: SkinConfig)
    ensures
        config@ == skin_sources(*assets),
{
    let has_idle = is_present(&assets.idle);
    let has_drag = is_present(&assets.drag);
    let has_w1 = is_present(&assets.walk1);
    let has_w2 = is_present(&assets.walk2);
    let has_w3 = is_present(&assets.walk3);
    let walks: u8 = (if has_w1 { 1u8 } else { 0u8 }) + (if has_w2 { 1u8 } else { 0u8 }) + (if has_w3 { 1u8 } else { 0u8 });

    if !has_idle && !has_drag && walks == 0 {
        return SkinConfig {
            idle_src: bundled_src("idle"),
            walk1_src: bundled_src("walk1"),
            walk2_src: bundled_src("walk2"),
            walk3_src: bundled_src("walk3"),
            drag_src: bundled_src("drag"),
        };
    }

    let first_walk_file = if has_w1 {
        &assets.walk1
    } else if has_w2 {
        &assets.walk2
    } else {
        &assets.walk3
    };
    let smallest_walk_src: Option<String> = if walks > 0 {
        load_asset(first_walk_file)
    } else {
        None
    };

    let idle_src = if has_idle {
        source_or(load_asset(&assets.idle), bundled_src("idle"))
    } else {
        source_or(smallest_walk_src.clone(), bundled_src("idle"))
    };

    let (walk1_src, walk2_src, walk3_src) = if walks == 3 {
        (
            source_or(load_asset(&assets.walk1), bundled_src("walk1")),
            source_or(load_asset(&assets.walk2), bundled_src("walk2")),
            source_or(load_asset(&assets.walk3), bundled_src("walk3")),
        )
    } else if walks > 0 {
        let single = source_or(smallest_walk_src, bundled_src("walk1"));
        (single.clone(), single.clone(), single)
    } else {
        (idle_src.clone(), idle_src.clone(), idle_src.clone())
    };

    let drag_src = if has_drag {
        source_or(load_asset(&assets.drag), bundled_src("drag"))
    } else {
        idle_src.clone()
    };

    SkinConfig { idle_src, walk1_src, walk2_src, walk3_src, drag_src }
}

/// The sprite file that stands for the pet in the tray: the custom idle file,
/// else the lowest-numbered custom walk file; `None` where there is no custom
/// sprite, in which case the tray keeps its built-in icon.
pub fn resolve_identity_image_path(assets: &SkinAssets) -> (asset: Option<Asset>)
    ensures
        asset == identity_asset(*assets),
{
    if is_present(&assets.idle) {
        Some(Asset::Idle)
    } else if is_present(&assets.walk1) {
        Some(Asset::Walk1)
    } else if is_present(&assets.walk2) {
        Some(Asset::Walk2)
    } else if is_present(&assets.walk3) {
        Some(Asset::Walk3)
    } else {
        None
    }
}

/// A side of the tray-icon picture.
fn tray_fit_side(side: u32, longest: u32) -> (r: u32)
    requires
        0 < longest,
        side <= longest,
    ensures
        r == tray_side(side, longest),
        1 <= r <= TRAY_ICON_SIZE,
{
    let num: u64 = (side as u64) * 64 + (longest as u64);
    let den: u64 = 2 * (longest as u64);
    let q: u64 = num / den;
    proof {
        assert(q as int == round_ratio((side as int) * 32, longest as int));
    }
    if q < 1 {
        1
    } else if q > TRAY_ICON_SIZE as u64 {
        TRAY_ICON_SIZE
    } else {
        q as u32
    }
}

/// The RGBA pixels (TRAY_ICON_SIZE x TRAY_ICON_SIZE) of the tray icon made from
/// a PNG file: the picture scaled, aspect kept, so that its longest side is
/// `TRAY_ICON_SIZE`, and centred on a transparent canvas. `None` where the bytes
/// are not a PNG picture.
pub fn build_tray_icon(bytes: &[u8]) -> (rgba: Option<Vec<u8>>)
    ensures
        match rgba {
            Some(v) => tray_icon_of(bytes@) == Some(v@),
            None => tray_icon_of(bytes@) is None,
        },
        rgba matches Some(v) ==> v@.len() == 4 * TRAY_ICON_SIZE * TRAY_ICON_SIZE,
{
    let pic = match decode_png(bytes) {
        Some(p) => p,
        None => return None,
    };
    let w = width(&pic);
    let h = height(&pic);
    let wh = if w >= h { w } else { h };
    let longest = if wh >= 1 { wh } else { 1 };
    let nw = tray_fit_side(w, longest);
    let nh = tray_fit_side(h, longest);
    let resized = to_rgba8(&resize(&pic, nw, nh));
    let mut canvas = blank_rgba8(TRAY_ICON_SIZE, TRAY_ICON_SIZE);
    let off_x = ((TRAY_ICON_SIZE - nw) / 2) as i64;
    let off_y = ((TRAY_ICON_SIZE - nh) / 2) as i64;
    overlay(&mut canvas, &resized, off_x, off_y);
    proof {
        reveal_with_fuel(on_blank_canvas, 2);
    }
    Some(into_bytes(canvas))
}

/// The tray icon pixels for a set of custom sprites, or `None` where the tray
/// keeps its built-in icon: no custom sprite, or the identity file does not
/// load as a PNG picture.
pub fn tray_icon_for(assets: &SkinAssets) -> (rgba: Option<Vec<u8>>)
    ensures
        match identity_asset(*assets) {
            None => rgba is None,
            Some(a) => match asset_file(*assets, a) {
                AssetFile::Bytes(b) => match rgba {
                    Some(v) => tray_icon_of(b@) == Some(v@),
                    None => tray_icon_of(b@) is None,
                },
                _ => rgba is None,
            },
        },
        rgba matches Some(v) ==> v@.len() == 4 * TRAY_ICON_SIZE * TRAY_ICON_SIZE,
{
    let file = match resolve_identity_image_path(assets) {
        None => return None,
        Some(Asset::Idle) => &assets.idle,
        Some(Asset::Walk1) => &assets.walk1,
        Some(Asset::Walk2) => &assets.walk2,
        Some(Asset::Walk3) => &assets.walk3,
        Some(Asset::Drag) => &assets.drag,
    };
    match file {
        AssetFile::Bytes(b) => build_tray_icon(b.as_slice()),
        _ => None,
    }
}

/// The file held under one sprite name.
pub open spec fn asset_file(a: SkinAssets, which: Asset) -> AssetFile {
    match which {
        Asset::Idle => a.idle,
        Asset::Walk1 => a.walk1,
        Asset::Walk2 => a.walk2,
        Asset::Walk3 => a.walk3,
        Asset::Drag => a.drag,
    }
}

} // verus!
