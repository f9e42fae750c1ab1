//! The PNG decoder (minipng) and the image type (egui's `ColorImage`) as
//! the library sees them, and the decode pipeline built on them.

use std::sync::Arc;
use vstd::prelude::*;

verus! {

#[verifier::external_type_specification]
#[verifier::external_body]
pub struct ExImageHeader(minipng::ImageHeader);

#[verifier::external_type_specification]
#[verifier::external_body]
pub struct ExPngError(minipng::Error);

#[verifier::external_type_specification]
#[verifier::external_body]
pub struct ExColorImage(egui::ColorImage);

/// Whether minipng reads a valid PNG header (signature and IHDR chunk) at
/// the start of `bytes`.
pub uninterp spec fn png_header_ok(bytes: Seq<u8>) -> bool;

/// Relies on minipng::decode_png_header: whether it succeeds depends on the
/// bytes alone, and it reports failure as a value.
pub assume_specification[ minipng::decode_png_header ](bytes: &[u8]) -> (r: minipng::Result<
    minipng::ImageHeader,
>)
    ensures
        r is Ok <==> png_header_ok(bytes@),
;

/// Whether minipng decodes `bytes` to 8-bit RGBA.
pub uninterp spec fn png_decodes(bytes: Seq<u8>) -> bool;

/// Width, height and RGBA bytes that minipng decodes `bytes` to.
pub uninterp spec fn png_rgba8(bytes: Seq<u8>) -> (u32, u32, Seq<u8>);

/// The text of the error minipng reports for `bytes`.
pub uninterp spec fn png_error_text(bytes: Seq<u8>) -> Seq<char>;

/// Relies on minipng's decode chain: decode_png_header, decode_png into a
/// zeroed buffer of ImageHeader::required_bytes_rgba8bpc bytes, then
/// ImageData::convert_to_rgba8bpc; returns width, height and pixel bytes
/// (ImageData::width, height, pixels), or the error's Display text. Each
/// step reports failure as a value, and the whole depends on the bytes alone.
#[verifier::external_body]
fn decode_rgba8(bytes: &[u8]) -> (r: Result<(u32, u32, Vec<u8>), String>)
    ensures
        match r {
            Ok((w, h, px)) => png_decodes(bytes@) && png_rgba8(bytes@) == (w, h, px@),
            Err(msg) => !png_decodes(bytes@) && msg@ == png_error_text(bytes@),
        },
{
    let header = minipng::decode_png_header(bytes).map_err(|e| e.to_string())?;
    let mut buffer = vec![0u8; header.required_bytes_rgba8bpc()];
    let mut image = minipng::decode_png(bytes, &mut buffer).map_err(|e| e.to_string())?;
    image.convert_to_rgba8bpc().map_err(|e| e.to_string())?;
    Ok((image.width(), image.height(), image.pixels().to_vec()))
}

/// Relies on egui::ColorImage::from_rgba_unmultiplied, which asserts that
/// the size matches the byte count; the requirement keeps it from panicking.
pub assume_specification[ egui::ColorImage::from_rgba_unmultiplied ](
    size: [usize; 2],
    rgba: &[u8],
) -> egui::ColorImage
    requires
        size@[0] as int * size@[1] as int * 4 == rgba@.len(),
;

/// Relies on Arc::clone: a second handle to the same image, not a copy.
#[verifier::external_body]
fn share_image(image: &Arc<egui::ColorImage>) -> (r: Arc<egui::ColorImage>)
    ensures
        r == *image,
{
    Arc::clone(image)
}

/// A decoded image: its size and its pixels, held behind a shared handle.
pub struct Picture {
    width: usize,
    height: usize,
    rgba: Ghost<Seq<u8>>,
    image: Arc<egui::ColorImage>,
}

impl Picture {
    #[verifier::type_invariant]
    spec fn fits(&self) -> bool {
        &&& self.width * self.height * 4 <= usize::MAX
        &&& self.rgba@.len() == self.width * self.height * 4
    }

    pub closed spec fn spec_width(&self) -> nat {
        self.width as nat
    }

    pub closed spec fn spec_height(&self) -> nat {
        self.height as nat
    }

    /// The non-premultiplied RGBA bytes the image was built from, row by
    /// row from the top.
    pub closed spec fn spec_rgba(&self) -> Seq<u8> {
        self.rgba@
    }

    /// Bytes the pixels take: four per pixel.
    pub open spec fn spec_byte_len(&self) -> nat {
        self.spec_width() * self.spec_height() * 4
    }

    /// Builds the image from `width * height` non-premultiplied RGBA pixels.
    pub fn from_rgba(width: usize, height: usize, rgba: &[u8]) -> (r: Picture)
        requires
            width * height * 4 == rgba@.len(),
        ensures
            r.spec_width() == width,
            r.spec_height() == height,
            r.spec_rgba() == rgba@,
    {
        let n = rgba.len();
        assert(width * height * 4 == n);
        let image = egui::ColorImage::from_rgba_unmultiplied([width, height], rgba);
        Picture { width, height, rgba: Ghost(rgba@), image: Arc::new(image) }
    }

    pub fn width(&self) -> (r: usize)
        ensures
            r == self.spec_width(),
    {
        self.width
    }

    pub fn height(&self) -> (r: usize)
        ensures
            r == self.spec_height(),
    {
        self.height
    }

    /// Bytes the pixels take, as accounted by the cache.
    pub fn byte_len(&self) -> (r: usize)
        ensures
            r == self.spec_byte_len(),
    {
        proof {
            use_type_invariant(self);
        }
        self.width * self.height * 4
    }

    pub closed spec fn spec_image(&self) -> Arc<egui::ColorImage> {
        self.image
    }

    /// A handle to the pixels, shared with every other holder.
    pub fn image(&self) -> (r: Arc<egui::ColorImage>)
        ensures
            r == self.spec_image(),
    {
        share_image(&self.image)
    }

    /// Another handle to the same image.
    pub fn share(&self) -> (r: Picture)
        ensures
            r == *self,
    {
        proof {
            use_type_invariant(self);
        }
        Picture {
            width: self.width,
            height: self.height,
            rgba: Ghost(self.rgba@),
            image: share_image(&self.image),
        }
    }
}

/// The decoder gives pixel bytes for exactly `width * height` pixels.
pub open spec fn png_pixels_fit(bytes: Seq<u8>) -> bool {
    &&& png_decodes(bytes)
    &&& png_rgba8(bytes).2.len() == png_rgba8(bytes).0 * png_rgba8(bytes).1 * 4
}

/// `r` is what decoding `bytes` comes to: the decoded image, the decoder's
/// error text, or an error when the pixel bytes do not cover the image.
pub open spec fn decoded_as(bytes: Seq<u8>, r: Result<Picture, String>) -> bool {
    match r {
        Ok(p) => {
            &&& png_pixels_fit(bytes)
            &&& p.spec_width() == png_rgba8(bytes).0
            &&& p.spec_height() == png_rgba8(bytes).1
            &&& p.spec_rgba() == png_rgba8(bytes).2
        },
        Err(msg) => {
            &&& !png_pixels_fit(bytes)
            &&& !png_decodes(bytes) ==> msg@ == png_error_text(bytes)
        },
    }
}

/// Decodes the whole image and normalizes it to 8-bit non-premultiplied
/// RGBA. A failure of the decoder, or pixel data that does not cover
/// `width * height` pixels exactly, is returned as a message.
pub(crate) fn decode_image(bytes: &[u8]) -> (r: Result<Picture, String>)
    ensures
        decoded_as(bytes@, r),
{
    let (width, height, pixels) = match decode_rgba8(bytes) {
        Ok(decoded) => decoded,
        Err(msg) => {
            return Err(msg);
        },
    };
    let (w, h) = (width as u128, height as u128);
    assert(w * h * 4 <= u32::MAX as int * u32::MAX as int * 4) by (nonlinear_arith)
        requires
            w <= u32::MAX,
            h <= u32::MAX,
    ;
    if w * h * 4 != pixels.len() as u128 {
        return Err(pixel_count_message());
    }
    Ok(Picture::from_rgba(width as usize, height as usize, pixels.as_slice()))
}

fn pixel_count_message() -> String {
    String::from_str("decoded pixel data does not match the image size")
}

} // verus!
