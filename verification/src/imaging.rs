//! Pictures decoded, resized, composed and encoded by the `image` crate, and
//! text encoded by the `base64` crate.
//!
//! Every `Picture` carries, as a ghost value, the plain description of how it
//! was made (`Origin`): the bytes it was decoded from and the operations applied
//! since. Only the functions of this module build or change a `Picture`, and
//! each of them records exactly the operation it performs, so the description
//! always names the picture held beside it. What the `image` crate computes
//! from such a description is named by the uninterpreted functions below.

use vstd::prelude::*;

verus! {

/// `image::DynamicImage`, carried through as an opaque value.
#[verifier::external_type_specification]
#[verifier::external_body]
pub struct ExDynamicImage(image::DynamicImage);

/// How a picture came to be, step by step.
pub enum Origin {
    /// Decoded from these bytes as a PNG file.
    Png { bytes: Seq<u8> },
    /// Decoded from these bytes, the format guessed from their content.
    Sniffed { bytes: Seq<u8> },
    /// Scaled (Lanczos3, aspect ratio kept) to fit within `width` x `height`.
    Resized { source: Box<Origin>, width: u32, height: u32 },
    /// Converted to 8-bit RGBA.
    Rgba8 { source: Box<Origin> },
    /// A fully transparent 8-bit RGBA canvas.
    Blank { width: u32, height: u32 },
    /// `top` blended over `bottom` with its top-left corner at (`x`, `y`).
    Overlay { bottom: Box<Origin>, top: Box<Origin>, x: i64, y: i64 },
}

/// A decoded picture together with the description of how it was made.
pub struct Picture {
    image: image::DynamicImage,
    origin: Ghost<Origin>,
}

impl Picture {
    /// How this picture was made.
    pub closed spec fn origin(&self) -> Origin {
        self.origin@
    }
}

/// Whether `image::load_from_memory_with_format(bytes, ImageFormat::Png)` succeeds.
pub uninterp spec fn png_decodes(bytes: Seq<u8>) -> bool;

/// Whether `image::load_from_memory(bytes)` succeeds.
pub uninterp spec fn image_decodes(bytes: Seq<u8>) -> bool;

/// `DynamicImage::width` of the picture the description names.
pub uninterp spec fn picture_width(o: Origin) -> u32;

/// `DynamicImage::height` of the picture the description names.
pub uninterp spec fn picture_height(o: Origin) -> u32;

/// The PNG file that `DynamicImage::write_to` produces for the picture, if it
/// succeeds.
pub uninterp spec fn png_encoding(o: Origin) -> Option<Seq<u8>>;

/// `DynamicImage::into_bytes` of the picture: its pixel buffer as bytes.
pub uninterp spec fn raw_bytes(o: Origin) -> Seq<u8>;

/// The alpha channel of `GenericImageView::get_pixel(x, y)` of the picture.
pub uninterp spec fn alpha_at(o: Origin, x: u32, y: u32) -> u8;

/// The standard (RFC 4648, padded) base64 text of the bytes.
pub uninterp spec fn base64_standard(bytes: Seq<u8>) -> Seq<char>;

/// Calls `image::load_from_memory_with_format` with `ImageFormat::Png`. Whether
/// it succeeds depends on the bytes alone; the picture it yields is recorded as
/// decoded from them.
#[verifier::external_body]
pub(crate) fn decode_png(bytes: &[u8]) -> (res: Option<Picture>)
    ensures
        res is Some <==> png_decodes(bytes@),
        res matches Some(p) ==> p.origin() == (Origin::Png { bytes: bytes@ }),
{
    match image::load_from_memory_with_format(bytes, image::ImageFormat::Png) {
        Ok(image) => Some(Picture { image, origin: Ghost(Origin::Png { bytes: bytes@ }) }),
        Err(_) => None,
    }
}

/// Calls `image::load_from_memory`, which guesses the format from the bytes.
/// Whether it succeeds depends on the bytes alone.
#[verifier::external_body]
pub(crate) fn decode_image(bytes: &[u8]) -> (res: Option<Picture>)
    ensures
        res is Some <==> image_decodes(bytes@),
        res matches Some(p) ==> p.origin() == (Origin::Sniffed { bytes: bytes@ }),
{
    match image::load_from_memory(bytes) {
        Ok(image) => Some(Picture { image, origin: Ghost(Origin::Sniffed { bytes: bytes@ }) }),
        Err(_) => None,
    }
}

/// Calls `DynamicImage::width`.
#[verifier::external_body]
pub(crate) fn width(p: &Picture) -> (w: u32)
    ensures
        w == picture_width(p.origin()),
{
    p.image.width()
}

/// Calls `DynamicImage::height`.
#[verifier::external_body]
pub(crate) fn height(p: &Picture) -> (h: u32)
    ensures
        h == picture_height(p.origin()),
{
    p.image.height()
}

/// Calls `DynamicImage::resize` with `FilterType::Lanczos3`: a new picture that
/// fits within `w` x `h` with the aspect ratio kept, at least one pixel each way.
/// Its exact size is left to the crate and not stated here.
#[verifier::external_body]
pub(crate) fn resize(p: &Picture, w: u32, h: u32) -> (res: Picture)
    ensures
        res.origin() == (Origin::Resized { source: Box::new(p.origin()), width: w, height: h }),
        w >= 1 && h >= 1 ==> 1 <= picture_width(res.origin()) <= w && 1 <= picture_height(res.origin()) <= h,
{
    Picture {
        image: p.image.resize(w, h, image::imageops::FilterType::Lanczos3),
        origin: Ghost(Origin::Resized { source: Box::new(p.origin@), width: w, height: h }),
    }
}

/// Calls `DynamicImage::write_to` with `ImageFormat::Png` into an in-memory
/// buffer and hands back the buffer, or `None` where encoding fails.
#[verifier::external_body]
pub(crate) fn encode_png(p: &Picture) -> (res: Option<Vec<u8>>)
    ensures
        match res {
            Some(v) => png_encoding(p.origin()) == Some(v@),
            None => png_encoding(p.origin()) is None,
        },
{
    let mut buf = std::io::Cursor::new(Vec::new());
    match p.image.write_to(&mut buf, image::ImageFormat::Png) {
        Ok(()) => Some(buf.into_inner()),
        Err(_) => None,
    }
}

/// Calls `DynamicImage::to_rgba8` and keeps the result as a picture. The
/// conversion keeps the size.
#[verifier::external_body]
pub(crate) fn to_rgba8(p: &Picture) -> (res: Picture)
    ensures
        res.origin() == (Origin::Rgba8 { source: Box::new(p.origin()) }),
        picture_width(res.origin()) == picture_width(p.origin()),
        picture_height(res.origin()) == picture_height(p.origin()),
{
    Picture {
        image: image::DynamicImage::ImageRgba8(p.image.to_rgba8()),
        origin: Ghost(Origin::Rgba8 { source: Box::new(p.origin@) }),
    }
}

/// Calls `DynamicImage::new_rgba8`: a transparent canvas of the given size.
#[verifier::external_body]
pub(crate) fn blank_rgba8(w: u32, h: u32) -> (res: Picture)
    ensures
        res.origin() == (Origin::Blank { width: w, height: h }),
        picture_width(res.origin()) == w,
        picture_height(res.origin()) == h,
{
    Picture { image: image::DynamicImage::new_rgba8(w, h), origin: Ghost(Origin::Blank { width: w, height: h }) }
}

/// Calls `image::imageops::overlay`: blends `top` onto `bottom` with its top-left
/// corner at (`x`, `y`), clipping what falls outside. The bottom keeps its size.
#[verifier::external_body]
pub(crate) fn overlay(bottom: &mut Picture, top: &Picture, x: i64, y: i64)
    ensures
        final(bottom).origin() == (Origin::Overlay {
            bottom: Box::new(old(bottom).origin()),
            top: Box::new(top.origin()),
            x: x,
            y: y,
        }),
        picture_width(final(bottom).origin()) == picture_width(old(bottom).origin()),
        picture_height(final(bottom).origin()) == picture_height(old(bottom).origin()),
{
    image::imageops::overlay(&mut bottom.image, &top.image, x, y);
    bottom.origin = Ghost(Origin::Overlay {
        bottom: Box::new(bottom.origin@),
        top: Box::new(top.origin@),
        x: x,
        y: y,
    });
}

/// Whether the picture is a canvas made by `blank_rgba8`, possibly with other
/// pictures blended onto it: an 8-bit RGBA buffer of exactly four bytes a pixel.
pub open spec fn on_blank_canvas(o: Origin) -> bool
    decreases o,
{
    match o {
        Origin::Blank { .. } => true,
        Origin::Overlay { bottom, .. } => on_blank_canvas(*bottom),
        _ => false,
    }
}

/// Calls `DynamicImage::into_bytes`: the pixel buffer as bytes; a canvas's
/// buffer holds four bytes (R, G, B, A) per pixel.
#[verifier::external_body]
pub(crate) fn into_bytes(p: Picture) -> (res: Vec<u8>)
    ensures
        res@ == raw_bytes(p.origin()),
        on_blank_canvas(p.origin()) ==> res@.len() == 4 * picture_width(p.origin()) * picture_height(p.origin()),
{
    p.image.into_bytes()
}

/// Calls `GenericImageView::get_pixel` and reads the alpha channel. The call
/// panics outside the picture, so the pixel must lie inside it.
#[verifier::external_body]
pub(crate) fn alpha(p: &Picture, x: u32, y: u32) -> (a: u8)
    requires
        x < picture_width(p.origin()),
        y < picture_height(p.origin()),
    ensures
        a == alpha_at(p.origin(), x, y),
{
    image::GenericImageView::get_pixel(&p.image, x, y).0[3]
}

/// Calls `Engine::encode` of `base64::engine::general_purpose::STANDARD`.
#[verifier::external_body]
pub(crate) fn base64_encode(bytes: &[u8]) -> (s: String)
    ensures
        s@ == base64_standard(bytes@),
{
    base64::Engine::encode(&base64::engine::general_purpose::STANDARD, bytes)
}

} // verus!
