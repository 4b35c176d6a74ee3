//! The pipeline from uploaded bytes to JPEG bytes: decode, narrow, encode.
//!
//! Which pixels a decoder makes of given bytes is not the same on every
//! machine, so nothing here speaks of it. What follows the decoding is
//! stated exactly, in `reencode_decoded`, for every result the decoder can
//! give.

use vstd::prelude::*;
use image::DynamicImage;
use image::GenericImageView;
use image::ImageError;
use crate::codec::{encode_jpeg, image_size, jpeg_encoded, resize, resized, Filter};
use crate::scale::{
    lemma_planned_size_is_bounded, lemma_wide_image_keeps_aspect, plan, plan_of, planned_size, Plan,
    MAX_WIDTH,
};

verus! {

/// Quality, on the scale from 0 to 100, at which the result is encoded.
pub const JPEG_QUALITY: u8 = 80;

/// Why no JPEG came out of the pipeline.
#[derive(Clone, Copy, Debug, PartialEq, Eq, Structural)]
pub enum TranscodeError {
    /// The bytes are not an image in any format the decoder knows.
    InvalidImage,
    /// The decoded image could not be written as JPEG.
    EncodeFailed,
}

/// The image that is handed to the encoder for `img`: `img` itself where
/// it is at most `MAX_WIDTH` wide, else `img` resampled with the triangle
/// kernel to the size that `plan_of` gives.
pub open spec fn fitted(img: DynamicImage) -> DynamicImage {
    match plan_of(image_size(img).0, image_size(img).1) {
        Plan::Keep => img,
        Plan::Shrink { width, height } => resized(img, width, height, Filter::Triangle),
    }
}

/// What the pipeline makes of a decoded image.
pub open spec fn reencoded(img: DynamicImage) -> Result<Seq<u8>, TranscodeError> {
    match jpeg_encoded(fitted(img), JPEG_QUALITY) {
        Some(bytes) => Ok(bytes),
        None => Err(TranscodeError::EncodeFailed),
    }
}

/// What the pipeline makes of what the decoder gave.
pub open spec fn reencoded_decoded(decoded: Result<DynamicImage, ImageError>) -> Result<
    Seq<u8>,
    TranscodeError,
> {
    match decoded {
        Ok(img) => reencoded(img),
        Err(_) => Err(TranscodeError::InvalidImage),
    }
}

/// What holds of every result of the pipeline, whatever the decoder gave:
/// a JPEG is not empty and is the encoding of some image, narrowed to at
/// most `MAX_WIDTH`; an encoder failure is that of some image.
pub open spec fn possible(result: Result<Seq<u8>, TranscodeError>) -> bool {
    match result {
        Ok(jpeg) => jpeg.len() > 0 && exists|img: DynamicImage|
            #[trigger] reencoded(img) == Ok::<Seq<u8>, TranscodeError>(jpeg) && image_size(
                fitted(img),
            ).0 <= MAX_WIDTH,
        Err(TranscodeError::EncodeFailed) => exists|img: DynamicImage| #[trigger]
            reencoded(img) == Err::<Seq<u8>, TranscodeError>(TranscodeError::EncodeFailed),
        Err(TranscodeError::InvalidImage) => true,
    }
}

/// A result of the pipeline as a mathematical value.
pub open spec fn outcome(r: Result<Vec<u8>, TranscodeError>) -> Result<Seq<u8>, TranscodeError> {
    match r {
        Ok(bytes) => Ok(bytes@),
        Err(e) => Err(e),
    }
}

/// An image that is at most `MAX_WIDTH` wide reaches the encoder as it
/// was decoded: what comes out is the JPEG of the very same pixels, with
/// the same width and height.
pub proof fn lemma_narrow_image_is_encoded_as_it_is(img: DynamicImage)
    requires
        image_size(img).0 <= MAX_WIDTH,
    ensures
        fitted(img) == img,
        image_size(fitted(img)) == image_size(img),
        jpeg_encoded(fitted(img), JPEG_QUALITY) == jpeg_encoded(img, JPEG_QUALITY),
{
}

/// An image wider than `MAX_WIDTH` reaches the encoder resampled with the
/// triangle kernel to the planned size: `MAX_WIDTH` wide and, unless that
/// would be zero, as high as its height times `MAX_WIDTH` over its width,
/// rounded down.
pub proof fn lemma_wide_image_is_resampled(img: DynamicImage)
    requires
        image_size(img).0 > MAX_WIDTH,
    ensures
        fitted(img) == resized(
            img,
            MAX_WIDTH,
            planned_size(image_size(img).0, image_size(img).1).1,
            Filter::Triangle,
        ),
        image_size(img).1 * MAX_WIDTH >= image_size(img).0 ==> planned_size(
            image_size(img).0,
            image_size(img).1,
        ).1 == (image_size(img).1 * MAX_WIDTH) / (image_size(img).0 as int),
{
    lemma_wide_image_keeps_aspect(image_size(img).0, image_size(img).1);
}

/// Narrows `img` to `MAX_WIDTH` where it is wider, keeping its aspect
/// ratio; a narrower image is returned as it came. The result has exactly
/// the planned size.
pub fn fit_width(img: DynamicImage) -> (out: DynamicImage)
    ensures
        out == fitted(img),
        image_size(img).0 <= MAX_WIDTH ==> out == img,
        image_size(out) == planned_size(image_size(img).0, image_size(img).1),
        image_size(out).0 <= MAX_WIDTH,
{
    let (width, height) = img.dimensions();
    proof {
        lemma_planned_size_is_bounded(width, height);
    }
    match plan(width, height) {
        Plan::Keep => img,
        Plan::Shrink { width: nwidth, height: nheight } => resize(
            &img,
            nwidth,
            nheight,
            Filter::Triangle,
        ),
    }
}

/// Narrows a decoded image and encodes it as JPEG.
pub fn reencode(img: DynamicImage) -> (r: Result<Vec<u8>, TranscodeError>)
    ensures
        outcome(r) == reencoded(img),
        r matches Ok(bytes) ==> bytes@.len() > 0,
        image_size(fitted(img)) == planned_size(image_size(img).0, image_size(img).1),
        possible(outcome(r)),
{
    let out = fit_width(img);
    match encode_jpeg(&out, JPEG_QUALITY) {
        Ok(bytes) => Ok(bytes),
        Err(_) => Err(TranscodeError::EncodeFailed),
    }
}

/// Finishes the pipeline on what the decoder gave: an image is narrowed
/// and encoded, an error of the decoder becomes `InvalidImage`.
pub fn reencode_decoded(decoded: Result<DynamicImage, ImageError>) -> (r: Result<
    Vec<u8>,
    TranscodeError,
>)
    ensures
        outcome(r) == reencoded_decoded(decoded),
        r matches Ok(bytes) ==> bytes@.len() > 0,
        possible(outcome(r)),
{
    match decoded {
        Ok(img) => reencode(img),
        Err(_) => Err(TranscodeError::InvalidImage),
    }
}

/// Decodes `bytes`, narrows the image and encodes it as JPEG. The result
/// is that of `reencode_decoded` on what the decoder made of `bytes`.
pub fn transcode(bytes: &[u8]) -> (r: Result<Vec<u8>, TranscodeError>)
    ensures
        possible(outcome(r)),
{
    reencode_decoded(image::load_from_memory(bytes))
}

} // verus!
