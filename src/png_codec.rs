use vstd::prelude::*;
use image::codecs::png::{PngDecoder, PngEncoder};
use image::{ImageDecoder, ImageError};
use std::io::Cursor;

verus! {

#[verifier::external_type_specification]
#[verifier::external_body]
pub struct ExImageError(ImageError);

/// The bytes `png` decode as a PNG image: `PngDecoder::new` accepts them and
/// `read_image` reads all of its samples.
pub uninterp spec fn png_decodes(png: Seq<u8>) -> bool;

/// What decoding the PNG image held in `png` gives: its width, its height,
/// whether its samples are 8-bit RGBA, and its samples, row after row from
/// the top of the image.
pub uninterp spec fn png_decoded(png: Seq<u8>) -> (u32, u32, bool, Seq<u8>);

/// The PNG encoding of a `width` x `height` image of 8-bit RGBA samples,
/// row after row from the top of the image.
pub uninterp spec fn png_encoded(samples: Seq<u8>, width: u32, height: u32) -> Seq<u8>;

/// Relies on `image::codecs::png::PngDecoder` (`new`, `dimensions`,
/// `color_type`, `total_bytes`, `read_image`): `read_image` fills a buffer of
/// `total_bytes` bytes, which is the width times the height times the bytes
/// per pixel of the color type, 4 for 8-bit RGBA.
#[verifier::external_body]
pub(crate) fn decode_png(png: &[u8]) -> (r: Result<(u32, u32, bool, Vec<u8>), ImageError>)
    ensures
        r is Ok <==> png_decodes(png@),
        r matches Ok(d) ==> (d.0, d.1, d.2, d.3@) == png_decoded(png@) && (d.2 ==> d.3@.len() == d.0
            * d.1 * 4),
{
    let decoder = PngDecoder::new(Cursor::new(png))?;
    let (width, height) = decoder.dimensions();
    let rgba8 = decoder.color_type() == image::ColorType::Rgba8;
    let mut samples = vec![0u8; decoder.total_bytes() as usize];
    decoder.read_image(&mut samples)?;
    Ok((width, height, rgba8, samples))
}

/// Relies on `image::codecs::png::PngEncoder::encode` with
/// `ColorType::Rgba8`, writing into a `Vec`. The PNG writer refuses a zero
/// width or height and a sample count other than `4 * width * height`;
/// otherwise writing into memory does not fail.
#[verifier::external_body]
pub(crate) fn encode_png(samples: &[u8], width: u32, height: u32) -> (r: Result<Vec<u8>, ImageError>)
    ensures
        width > 0 && height > 0 && samples@.len() == 4 * width * height ==> r is Ok,
        r matches Ok(png) ==> png@ == png_encoded(samples@, width, height),
{
    let mut png = Vec::new();
    PngEncoder::new(&mut png).encode(samples, width, height, image::ColorType::Rgba8)?;
    Ok(png)
}

} // verus!
