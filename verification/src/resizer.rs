//! The resizer: encoded image bytes in, a PNG of the asked size out. An
//! image is held as plain values: its size, its colour kind and its bytes.

use crate::error::PipelineError;
use crate::error::PipelineErrorView;
use fast_image_resize::images::Image;
use fast_image_resize::images::ImageRef;
use fast_image_resize::FilterType;
use fast_image_resize::PixelType;
use fast_image_resize::ResizeAlg;
use fast_image_resize::ResizeOptions;
use fast_image_resize::Resizer;
use image::codecs::png::PngEncoder;
use image::ExtendedColorType;
use image::ImageEncoder;
use image::ImageFormat;
use vstd::prelude::*;

verus! {

#[verifier::external_type_specification]
#[verifier::external_body]
pub struct ExImageError(image::ImageError);

/// How the pixels of an image are laid out: grey or colour, with or without
/// alpha, in 8-bit, 16-bit or floating-point channels.
#[derive(Clone, Copy, Debug, PartialEq, Eq, Structural)]
pub enum ColorKind {
    L8,
    La8,
    Rgb8,
    Rgba8,
    L16,
    La16,
    Rgb16,
    Rgba16,
    Rgb32F,
    Rgba32F,
}

/// The number of bytes that one pixel of this kind takes.
pub open spec fn bytes_per_pixel(kind: ColorKind) -> nat {
    match kind {
        ColorKind::L8 => 1,
        ColorKind::La8 => 2,
        ColorKind::Rgb8 => 3,
        ColorKind::Rgba8 => 4,
        ColorKind::L16 => 2,
        ColorKind::La16 => 4,
        ColorKind::Rgb16 => 6,
        ColorKind::Rgba16 => 8,
        ColorKind::Rgb32F => 12,
        ColorKind::Rgba32F => 16,
    }
}

/// The colour kind with this many channels and this many bytes a pixel, if
/// there is one.
pub open spec fn kind_of(channels: u8, pixel_bytes: u8) -> Option<ColorKind> {
    if channels == 1 && pixel_bytes == 1 {
        Some(ColorKind::L8)
    } else if channels == 2 && pixel_bytes == 2 {
        Some(ColorKind::La8)
    } else if channels == 3 && pixel_bytes == 3 {
        Some(ColorKind::Rgb8)
    } else if channels == 4 && pixel_bytes == 4 {
        Some(ColorKind::Rgba8)
    } else if channels == 1 && pixel_bytes == 2 {
        Some(ColorKind::L16)
    } else if channels == 2 && pixel_bytes == 4 {
        Some(ColorKind::La16)
    } else if channels == 3 && pixel_bytes == 6 {
        Some(ColorKind::Rgb16)
    } else if channels == 4 && pixel_bytes == 8 {
        Some(ColorKind::Rgba16)
    } else if channels == 3 && pixel_bytes == 12 {
        Some(ColorKind::Rgb32F)
    } else if channels == 4 && pixel_bytes == 16 {
        Some(ColorKind::Rgba32F)
    } else {
        None
    }
}

/// Finds the colour kind of a decoded image from its channel count and the
/// bytes of one pixel.
pub fn color_kind(channels: u8, pixel_bytes: u8) -> (kind: Option<ColorKind>)
    ensures
        kind == kind_of(channels, pixel_bytes),
        kind is Some ==> bytes_per_pixel(kind->0) == pixel_bytes,
{
    if channels == 1 && pixel_bytes == 1 {
        Some(ColorKind::L8)
    } else if channels == 2 && pixel_bytes == 2 {
        Some(ColorKind::La8)
    } else if channels == 3 && pixel_bytes == 3 {
        Some(ColorKind::Rgb8)
    } else if channels == 4 && pixel_bytes == 4 {
        Some(ColorKind::Rgba8)
    } else if channels == 1 && pixel_bytes == 2 {
        Some(ColorKind::L16)
    } else if channels == 2 && pixel_bytes == 4 {
        Some(ColorKind::La16)
    } else if channels == 3 && pixel_bytes == 6 {
        Some(ColorKind::Rgb16)
    } else if channels == 4 && pixel_bytes == 8 {
        Some(ColorKind::Rgba16)
    } else if channels == 3 && pixel_bytes == 12 {
        Some(ColorKind::Rgb32F)
    } else if channels == 4 && pixel_bytes == 16 {
        Some(ColorKind::Rgba32F)
    } else {
        None
    }
}

/// An image as the decoder hands it over.
#[derive(Debug)]
pub struct DecodedImage {
    pub width: u32,
    pub height: u32,
    /// The number of channels of a pixel.
    pub channels: u8,
    /// The number of bytes of a pixel.
    pub pixel_bytes: u8,
    /// The pixels, row by row.
    pub data: Vec<u8>,
}

/// The mathematical form of a [`DecodedImage`].
pub ghost struct DecodedView {
    pub width: u32,
    pub height: u32,
    pub channels: u8,
    pub pixel_bytes: u8,
    pub data: Seq<u8>,
}

impl View for DecodedImage {
    type V = DecodedView;

    open spec fn view(&self) -> DecodedView {
        DecodedView {
            width: self.width,
            height: self.height,
            channels: self.channels,
            pixel_bytes: self.pixel_bytes,
            data: self.data@,
        }
    }
}

/// An image of a known colour kind.
#[derive(Debug)]
pub struct Bitmap {
    pub width: u32,
    pub height: u32,
    pub color: ColorKind,
    /// The pixels, row by row.
    pub data: Vec<u8>,
}

/// The mathematical form of a [`Bitmap`].
pub ghost struct BitmapView {
    pub width: u32,
    pub height: u32,
    pub color: ColorKind,
    pub data: Seq<u8>,
}

impl View for Bitmap {
    type V = BitmapView;

    open spec fn view(&self) -> BitmapView {
        BitmapView { width: self.width, height: self.height, color: self.color, data: self.data@ }
    }
}

/// Whether an image holds exactly the bytes of its pixels.
pub open spec fn is_well_formed(img: BitmapView) -> bool {
    img.data.len() == img.width * img.height * bytes_per_pixel(img.color)
}

/// What the `image` crate decodes `bytes` to, in the format that the
/// extension of `path` names; `None` where it refuses them.
pub uninterp spec fn decoded_image(bytes: Seq<u8>, path: Seq<char>) -> Option<DecodedView>;

/// The PNG file that the `image` crate encodes an image to; `None` where
/// it refuses the image.
pub uninterp spec fn png_encoded(img: BitmapView) -> Option<Seq<u8>>;

/// The decoded image as a bitmap, where its colour kind is known.
pub open spec fn bitmap_of(decoded: DecodedView) -> Option<BitmapView> {
    match kind_of(decoded.channels, decoded.pixel_bytes) {
        Some(kind) => Some(
            BitmapView {
                width: decoded.width,
                height: decoded.height,
                color: kind,
                data: decoded.data,
            },
        ),
        None => None,
    }
}

/// The bitmap that `source` decodes to, where it decodes to one.
pub open spec fn source_bitmap(source: Seq<u8>, path: Seq<char>) -> Option<BitmapView> {
    match decoded_image(source, path) {
        Some(decoded) => bitmap_of(decoded),
        None => None,
    }
}

/// Whether `scaled` can be `source` scaled to `width` by `height`: it has
/// that size, the colour kind of `source`, and the bytes of its pixels.
/// The pixel values themselves are the scaler's.
pub open spec fn is_scaled(source: BitmapView, width: u32, height: u32, scaled: BitmapView) -> bool {
    &&& scaled.width == width
    &&& scaled.height == height
    &&& scaled.color == source.color
    &&& is_well_formed(scaled)
}

/// Whether a pixel of this kind is made of 8-bit channels.
pub open spec fn is_eight_bit(kind: ColorKind) -> bool {
    kind is L8 || kind is La8 || kind is Rgb8 || kind is Rgba8
}

/// Whether `made` is what encoding some scaling of `source` gives: the PNG
/// where the scaled pixels encode, a resize failure where they do not.
pub open spec fn is_encoding_of_scaled(
    source: BitmapView,
    width: u32,
    height: u32,
    made: Result<Vec<u8>, PipelineError>,
) -> bool {
    exists|scaled: BitmapView|
        is_scaled(source, width, height, scaled) && match #[trigger] png_encoded(scaled) {
            Some(png) => made is Ok && made->Ok_0@ == png,
            None => made is Err && made->Err_0@ is ResizeFailure,
        }
}

/// Whether `png` is a thumbnail of `source` at `width` by `height`: the PNG
/// encoding of some scaling of the bitmap that `source` decodes to.
pub open spec fn is_thumbnail(
    source: Seq<u8>,
    path: Seq<char>,
    width: u32,
    height: u32,
    png: Seq<u8>,
) -> bool {
    &&& source_bitmap(source, path) is Some
    &&& exists|scaled: BitmapView|
        is_scaled(source_bitmap(source, path)->0, width, height, scaled) && #[trigger] png_encoded(
            scaled,
        ) == Some(png)
}

/// Whether a pixel buffer of this size, at sixteen bytes a pixel, the widest
/// layout there is, stays within half the address space, which is as much
/// as one allocation can hold.
pub open spec fn fits_in_memory(width: u32, height: u32) -> bool {
    width * height * 32 <= usize::MAX
}

/// The message of a thumbnail too large to be held in memory.
pub open spec fn too_large_message() -> Seq<char> {
    "Thumbnail is too large"@
}

/// The message of an image whose colour kind is not known.
pub open spec fn unknown_kind_message() -> Seq<char> {
    "Unsupported pixel layout"@
}

/// The message of an image that the scaler refused.
pub open spec fn not_scaled_message() -> Seq<char> {
    "The image could not be scaled"@
}

/// Calls `image::load_from_memory_with_format`, with the format that
/// `image::ImageFormat::from_path` reads from the extension of `path`, and
/// takes size, channel count, bytes per pixel and pixel bytes from the
/// image. Trusted: the outcome depends on the bytes and the path alone, and
/// the image holds exactly the bytes of its pixels.
#[verifier::external_body]
fn decode_image(bytes: &[u8], path: &str) -> (decoded: Result<DecodedImage, image::ImageError>)
    ensures
        match decoded {
            Ok(img) => decoded_image(bytes@, path@) == Some(img@) && img.data@.len() == img.width
                * img.height * img.pixel_bytes,
            Err(_) => decoded_image(bytes@, path@) is None,
        },
{
    let img = image::load_from_memory_with_format(bytes, ImageFormat::from_path(path)?)?;
    let (width, height, color) = (img.width(), img.height(), img.color());
    let (channels, pixel_bytes) = (color.channel_count(), color.bytes_per_pixel());
    Ok(DecodedImage { width, height, channels, pixel_bytes, data: img.into_bytes() })
}

/// Calls `to_string` on an `image::ImageError`: the codec's own words.
/// Nothing is claimed of them.
#[verifier::external_body]
fn image_error_text(e: &image::ImageError) -> (text: String) {
    e.to_string()
}

/// Calls `fast_image_resize::Resizer::resize` with the Lanczos3 convolution,
/// from the pixels of `source` into a fresh `Image` of the asked size and
/// the same pixel type. Trusted: where it succeeds, the result holds the
/// bytes of `width` by `height` pixels of the kind of `source`; and it
/// succeeds on pixels of 8-bit channels, which need no alignment. Nothing
/// is claimed of the pixel values, nor of success on wider channels. The
/// source must hold exactly the bytes of its pixels, or the call panics.
#[verifier::external_body]
fn scale_lanczos(source: &Bitmap, width: u32, height: u32) -> (pixels: Option<Vec<u8>>)
    requires
        is_well_formed(source@),
        fits_in_memory(width, height),
    ensures
        pixels is Some ==> pixels->0@.len() == width * height * bytes_per_pixel(source.color),
        is_eight_bit(source.color) ==> pixels is Some,
{
    let kind = match source.color {
        ColorKind::L8 => PixelType::U8, ColorKind::La8 => PixelType::U8x2,
        ColorKind::Rgb8 => PixelType::U8x3, ColorKind::Rgba8 => PixelType::U8x4,
        ColorKind::L16 => PixelType::U16, ColorKind::La16 => PixelType::U16x2,
        ColorKind::Rgb16 => PixelType::U16x3, ColorKind::Rgba16 => PixelType::U16x4,
        ColorKind::Rgb32F => PixelType::F32x3, ColorKind::Rgba32F => PixelType::F32x4,
    };
    let from = ImageRef::new(source.width, source.height, &source.data, kind).ok()?;
    let mut to = Image::new(width, height, kind);
    let how = ResizeOptions::new().resize_alg(ResizeAlg::Convolution(FilterType::Lanczos3));
    Resizer::new().resize(&from, &mut to, &how).ok()?;
    Some(to.into_vec())
}

/// Calls `PngEncoder::write_image` on the pixels, size and colour type of
/// `img`, into a fresh buffer. Trusted: the outcome depends on the image
/// alone. The image must hold exactly the bytes of its pixels, or the call
/// panics.
#[verifier::external_body]
fn encode_png(img: &Bitmap) -> (encoded: Result<Vec<u8>, image::ImageError>)
    requires
        is_well_formed(img@),
    ensures
        match encoded {
            Ok(png) => png_encoded(img@) == Some(png@),
            Err(_) => png_encoded(img@) is None,
        },
{
    let kind = match img.color {
        ColorKind::L8 => ExtendedColorType::L8, ColorKind::La8 => ExtendedColorType::La8,
        ColorKind::Rgb8 => ExtendedColorType::Rgb8, ColorKind::Rgba8 => ExtendedColorType::Rgba8,
        ColorKind::L16 => ExtendedColorType::L16, ColorKind::La16 => ExtendedColorType::La16,
        ColorKind::Rgb16 => ExtendedColorType::Rgb16, ColorKind::Rgba16 => ExtendedColorType::Rgba16,
        ColorKind::Rgb32F => ExtendedColorType::Rgb32F, ColorKind::Rgba32F => ExtendedColorType::Rgba32F,
    };
    let mut out: Vec<u8> = Vec::new();
    PngEncoder::new(&mut out).write_image(&img.data, img.width, img.height, kind)?;
    Ok(out)
}

/// Whether a thumbnail of this size can be held in memory.
pub fn thumbnail_fits(width: u32, height: u32) -> (fits: bool)
    ensures
        fits == fits_in_memory(width, height),
{
    assert(width * height <= 0xffff_ffff * 0xffff_ffff) by (nonlinear_arith)
        requires
            0 <= width <= 0xffff_ffff,
            0 <= height <= 0xffff_ffff,
    ;
    let pixels: u64 = (width as u64) * (height as u64);
    pixels <= (usize::MAX / 32) as u64
}

/// The bitmap of a decoded image: the same size and bytes, under the colour
/// kind that its channels and pixel bytes name; a decode failure where they
/// name none.
pub fn to_bitmap(decoded: DecodedImage) -> (bitmap: Result<Bitmap, PipelineError>)
    ensures
        match bitmap {
            Ok(b) => bitmap_of(decoded@) == Some(b@),
            Err(e) => bitmap_of(decoded@) is None && e@ == PipelineErrorView::DecodeFailure(
                unknown_kind_message(),
            ),
        },
        bitmap is Ok && decoded.data@.len() == decoded.width * decoded.height * decoded.pixel_bytes
            ==> is_well_formed(bitmap->Ok_0@),
{
    match color_kind(decoded.channels, decoded.pixel_bytes) {
        Some(color) => Ok(
            Bitmap { width: decoded.width, height: decoded.height, color, data: decoded.data },
        ),
        None => Err(PipelineError::DecodeFailure("Unsupported pixel layout".to_owned())),
    }
}

/// The thumbnail from what the scaler gave: the PNG encoding of the scaled
/// pixels at the asked size and in the source's colour kind. A scaling that
/// failed, and pixels that do not encode, are resize failures.
pub fn encode_scaled(color: ColorKind, width: u32, height: u32, pixels: Option<Vec<u8>>) -> (made:
    Result<Vec<u8>, PipelineError>)
    requires
        pixels is Some ==> pixels->0@.len() == width * height * bytes_per_pixel(color),
    ensures
        match pixels {
            None => made is Err && made->Err_0@ == PipelineErrorView::ResizeFailure(
                not_scaled_message(),
            ),
            Some(data) => match png_encoded(
                BitmapView { width, height, color, data: data@ },
            ) {
                Some(png) => made is Ok && made->Ok_0@ == png,
                None => made is Err && made->Err_0@ is ResizeFailure,
            },
        },
{
    match pixels {
        None => Err(PipelineError::ResizeFailure("The image could not be scaled".to_owned())),
        Some(data) => {
            let scaled = Bitmap { width, height, color, data };
            match encode_png(&scaled) {
                Ok(png) => Ok(png),
                Err(e) => Err(PipelineError::ResizeFailure(image_error_text(&e))),
            }
        },
    }
}

/// Makes the thumbnail of an encoded image: decodes `source` in the format
/// that the extension of `real_path` names, scales it to `width` by
/// `height` with a Lanczos3 convolution, and encodes the result as PNG.
///
/// A size that does not fit in memory is refused before anything is
/// decoded. Otherwise the call fails as a decode failure exactly where the
/// bytes do not decode to an image of a known colour kind. What it returns
/// is a thumbnail of the source: the PNG of pixels of the asked size in the
/// source's colour kind. On a source of 8-bit channels the scaler
/// succeeds, and the result is what encoding the scaled pixels gives; on
/// wider channels whether it succeeds is the scaler's. A failure to scale
/// or encode is a resize failure.
pub fn generate_thumbnail(source: &[u8], real_path: &str, width: u32, height: u32) -> (made: Result<
    Vec<u8>,
    PipelineError,
>)
    ensures
        !fits_in_memory(width, height) ==> made is Err && made->Err_0@
            == PipelineErrorView::ResizeFailure(too_large_message()),
        (made is Err && made->Err_0@ is DecodeFailure) <==> (fits_in_memory(width, height)
            && source_bitmap(source@, real_path@) is None),
        made is Ok ==> is_thumbnail(source@, real_path@, width, height, made->Ok_0@),
        made is Err ==> made->Err_0@ is DecodeFailure || made->Err_0@ is ResizeFailure,
        ({
            let bitmap = source_bitmap(source@, real_path@);
            fits_in_memory(width, height) && bitmap is Some && is_eight_bit(bitmap->0.color)
                ==> is_encoding_of_scaled(bitmap->0, width, height, made)
        }),
{
    if !thumbnail_fits(width, height) {
        return Err(PipelineError::ResizeFailure("Thumbnail is too large".to_owned()));
    }
    let decoded = match decode_image(source, real_path) {
        Ok(decoded) => decoded,
        Err(e) => {
            return Err(PipelineError::DecodeFailure(image_error_text(&e)));
        },
    };
    let ghost found = decoded@;
    assert(decoded_image(source@, real_path@) == Some(found));
    let bitmap = match to_bitmap(decoded) {
        Ok(bitmap) => bitmap,
        Err(e) => {
            return Err(e);
        },
    };
    let pixels = scale_lanczos(&bitmap, width, height);
    let ghost scaled = BitmapView {
        width,
        height,
        color: bitmap.color,
        data: if pixels is Some {
            pixels->0@
        } else {
            Seq::empty()
        },
    };
    let made = encode_scaled(bitmap.color, width, height, pixels);
    proof {
        assert(source_bitmap(source@, real_path@) == Some(bitmap@));
        if is_eight_bit(bitmap.color) {
            assert(is_well_formed(scaled));
            assert(is_scaled(bitmap@, width, height, scaled));
            assert(match png_encoded(scaled) {
                Some(png) => made is Ok && made->Ok_0@ == png,
                None => made is Err && made->Err_0@ is ResizeFailure,
            });
        }
        if made is Ok {
            assert(pixels is Some);
            assert(is_well_formed(scaled));
            assert(is_scaled(bitmap@, width, height, scaled));
            assert(png_encoded(scaled) == Some(made->Ok_0@));
            assert(is_scaled(source_bitmap(source@, real_path@)->0, width, height, scaled));
        }
    }
    made
}

} // verus!
