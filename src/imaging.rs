use crate::raster::{
    brighten_of, crop_of, flip_horizontal_of, flip_vertical_of, rotate180_of, rotate270_of,
    rotate90_of, PixelBuffer, Raster,
};
use image::ImageEncoder;
use vstd::prelude::*;

verus! {

#[verifier::external_type_specification]
#[verifier::external_body]
pub struct ExImageError(image::ImageError);

/// The resampling filter used when a picture is resized.
#[derive(Clone, Copy, Debug, PartialEq, Eq)]
pub enum FilterKind {
    Nearest,
    Triangle,
    CatmullRom,
    Gaussian,
    Lanczos3,
}

/// What resampling `m` to `width` by `height` with `filter` gives.
pub uninterp spec fn resampled(m: Raster, width: nat, height: nat, filter: FilterKind) -> Raster;

/// The PNG file that encodes `m`, or `None` where the encoder fails.
pub uninterp spec fn png_of(m: Raster) -> Option<Seq<u8>>;

/// The size and RGBA8 samples decoded from the file `bytes`, or `None` where they are no image.
pub uninterp spec fn decoded_of(bytes: Seq<u8>) -> Option<(nat, nat, Seq<u8>)>;

/// Relies on image::imageops::rotate90: output pixel (h0 - 1 - y, x) is input pixel (x, y).
#[verifier::external_body]
pub(crate) fn rotate90_image(b: &PixelBuffer) -> (r: PixelBuffer)
    requires
        b.wf(),
    ensures
        r.wf(),
        r@ == rotate90_of(b@),
{
    let img = image::RgbaImage::from_raw(b.width, b.height, b.data.clone()).unwrap();
    let out = image::imageops::rotate90(&img);
    PixelBuffer { width: out.width(), height: out.height(), data: out.into_raw() }
}

/// Relies on image::imageops::rotate180: output pixel (w0 - 1 - x, h0 - 1 - y) is input pixel (x, y).
#[verifier::external_body]
pub(crate) fn rotate180_image(b: &PixelBuffer) -> (r: PixelBuffer)
    requires
        b.wf(),
    ensures
        r.wf(),
        r@ == rotate180_of(b@),
{
    let img = image::RgbaImage::from_raw(b.width, b.height, b.data.clone()).unwrap();
    let out = image::imageops::rotate180(&img);
    PixelBuffer { width: out.width(), height: out.height(), data: out.into_raw() }
}

/// Relies on image::imageops::rotate270: output pixel (y, w0 - 1 - x) is input pixel (x, y).
#[verifier::external_body]
pub(crate) fn rotate270_image(b: &PixelBuffer) -> (r: PixelBuffer)
    requires
        b.wf(),
    ensures
        r.wf(),
        r@ == rotate270_of(b@),
{
    let img = image::RgbaImage::from_raw(b.width, b.height, b.data.clone()).unwrap();
    let out = image::imageops::rotate270(&img);
    PixelBuffer { width: out.width(), height: out.height(), data: out.into_raw() }
}

/// Relies on image::imageops::flip_horizontal: output pixel (w0 - 1 - x, y) is input pixel (x, y).
#[verifier::external_body]
pub(crate) fn flip_horizontal_image(b: &PixelBuffer) -> (r: PixelBuffer)
    requires
        b.wf(),
    ensures
        r.wf(),
        r@ == flip_horizontal_of(b@),
{
    let img = image::RgbaImage::from_raw(b.width, b.height, b.data.clone()).unwrap();
    let out = image::imageops::flip_horizontal(&img);
    PixelBuffer { width: out.width(), height: out.height(), data: out.into_raw() }
}

/// Relies on image::imageops::flip_vertical: output pixel (x, h0 - 1 - y) is input pixel (x, y).
#[verifier::external_body]
pub(crate) fn flip_vertical_image(b: &PixelBuffer) -> (r: PixelBuffer)
    requires
        b.wf(),
    ensures
        r.wf(),
        r@ == flip_vertical_of(b@),
{
    let img = image::RgbaImage::from_raw(b.width, b.height, b.data.clone()).unwrap();
    let out = image::imageops::flip_vertical(&img);
    PixelBuffer { width: out.width(), height: out.height(), data: out.into_raw() }
}

/// Relies on image::imageops::brighten: each colour sample becomes clamp(c + value, 0, 255) and
/// alpha is kept. The sum `c + value` is an `i32`, so `value` stays 255 below `i32::MAX`.
#[verifier::external_body]
pub(crate) fn brighten_image(b: &PixelBuffer, value: i32) -> (r: PixelBuffer)
    requires
        b.wf(),
        value <= i32::MAX - 255,
    ensures
        r.wf(),
        r@ == brighten_of(b@, value as int),
{
    let img = image::RgbaImage::from_raw(b.width, b.height, b.data.clone()).unwrap();
    let out = image::imageops::brighten(&img, value);
    PixelBuffer { width: out.width(), height: out.height(), data: out.into_raw() }
}

/// Relies on image::imageops::crop_imm and SubImage::to_image: on a rectangle inside the
/// picture, output pixel (i, j) is input pixel (x + i, y + j).
#[verifier::external_body]
pub(crate) fn crop_image(b: &PixelBuffer, x: u32, y: u32, width: u32, height: u32) -> (r: PixelBuffer)
    requires
        b.wf(),
        width >= 1,
        height >= 1,
        x + width <= b@.width,
        y + height <= b@.height,
    ensures
        r.wf(),
        r@ == crop_of(b@, x as nat, y as nat, width as nat, height as nat),
{
    let img = image::RgbaImage::from_raw(b.width, b.height, b.data.clone()).unwrap();
    let out = image::imageops::crop_imm(&img, x, y, width, height).to_image();
    PixelBuffer { width: out.width(), height: out.height(), data: out.into_raw() }
}

/// Relies on image::imageops::resize: a `width` by `height` picture that depends on the input
/// and the filter alone. The buffers it allocates must be addressable.
#[verifier::external_body]
pub(crate) fn resize_image(b: &PixelBuffer, width: u32, height: u32, filter: FilterKind) -> (r: PixelBuffer)
    requires
        b.wf(),
        width >= 1,
        height >= 1,
        width * height * 4 <= usize::MAX,
        b@.width * height * 4 <= usize::MAX,
    ensures
        r.wf(),
        r@.width == width,
        r@.height == height,
        r@ == resampled(b@, width as nat, height as nat, filter),
{
    let kind = match filter {
        FilterKind::Nearest => image::imageops::FilterType::Nearest,
        FilterKind::Triangle => image::imageops::FilterType::Triangle,
        FilterKind::CatmullRom => image::imageops::FilterType::CatmullRom,
        FilterKind::Gaussian => image::imageops::FilterType::Gaussian,
        FilterKind::Lanczos3 => image::imageops::FilterType::Lanczos3,
    };
    let img = image::RgbaImage::from_raw(b.width, b.height, b.data.clone()).unwrap();
    let out = image::imageops::resize(&img, width, height, kind);
    PixelBuffer { width: out.width(), height: out.height(), data: out.into_raw() }
}

/// Relies on image::codecs::png::PngEncoder::write_image with RGBA8 samples: the PNG file for
/// the picture, or an error; either way the outcome depends on the picture alone.
#[verifier::external_body]
pub(crate) fn encode_png(b: &PixelBuffer) -> (r: Result<Vec<u8>, image::ImageError>)
    requires
        b.wf(),
    ensures
        match r {
            Ok(v) => png_of(b@) == Some(v@),
            Err(_) => png_of(b@) is None,
        },
{
    let mut out: Vec<u8> = Vec::new();
    let res = image::codecs::png::PngEncoder::new(&mut out).write_image(
        &b.data,
        b.width,
        b.height,
        image::ColorType::Rgba8,
    );
    match res {
        Ok(()) => Ok(out),
        Err(e) => Err(e),
    }
}

/// Relies on image::load_from_memory followed by DynamicImage::to_rgba8: the width, height
/// and RGBA8 samples of the file, or an error; either way the outcome depends on the bytes alone.
#[verifier::external_body]
pub(crate) fn decode_rgba(bytes: &[u8]) -> (r: Result<(u32, u32, Vec<u8>), image::ImageError>)
    ensures
        match r {
            Ok(t) => decoded_of(bytes@) == Some((t.0 as nat, t.1 as nat, t.2@)),
            Err(_) => decoded_of(bytes@) is None,
        },
{
    match image::load_from_memory(bytes) {
        Ok(d) => {
            let img = d.to_rgba8();
            Ok((img.width(), img.height(), img.into_raw()))
        },
        Err(e) => Err(e),
    }
}

} // verus!
