//! The boundary to the `image` crate: decoding, measuring, resampling and
//! JPEG encoding. Nothing in this file is proved; each item says what is
//! taken on trust. Running out of memory is outside every contract here.

use vstd::prelude::*;
use image::DynamicImage;
use image::GenericImageView;
use image::ImageError;
use image::ImageOutputFormat;
use image::ImageResult;
use image::imageops::FilterType;
use std::io::Cursor;

verus! {

/// A decoded pixel grid of the `image` crate. The verifier sees nothing
/// inside it; what the library needs to know of one is named below.
#[verifier::external_type_specification]
#[verifier::external_body]
pub struct ExDynamicImage(image::DynamicImage);

/// The error type of the `image` crate. The library only tests for it.
#[verifier::external_type_specification]
#[verifier::external_body]
pub struct ExImageError(image::ImageError);

/// The resampling kernels of the `image` crate that work with exactly
/// rounded arithmetic alone, so that their result is the same everywhere.
#[derive(Clone, Copy, Debug, PartialEq, Eq, Structural)]
pub enum Filter {
    Nearest,
    Triangle,
}

/// Width and height of `img` in pixels, as `dimensions` reports them.
pub uninterp spec fn image_size(img: DynamicImage) -> (u32, u32);

/// The image that `DynamicImage::resize_exact` makes of `img` for the size
/// `nwidth` by `nheight` and the kernel `filter`.
pub uninterp spec fn resized(img: DynamicImage, nwidth: u32, nheight: u32, filter: Filter) -> DynamicImage;

/// The bytes that `DynamicImage::write_to` writes for `img` as JPEG of the
/// given quality, or `None` where it reports an error.
pub uninterp spec fn jpeg_encoded(img: DynamicImage, quality: u8) -> Option<Seq<u8>>;

/// `image::load_from_memory`: guesses the format from the first bytes and
/// decodes the buffer. Nothing is claimed of the result: which pixels come
/// out of given bytes may differ from one machine to another.
pub assume_specification[ image::load_from_memory ](buffer: &[u8]) -> (r: ImageResult<
    DynamicImage,
>)
;

/// `GenericImageView::dimensions` on a `DynamicImage`. Trusted: the pair it
/// returns is `image_size` of the image.
pub assume_specification[ <DynamicImage as GenericImageView>::dimensions ](
    img: &DynamicImage,
) -> (size: (u32, u32))
    ensures
        size == image_size(*img),
;

/// `DynamicImage::resize_exact`. Trusted: the result is `resized` of the
/// arguments, and it has exactly the size asked for.
#[verifier::external_body]
pub(crate) fn resize(img: &DynamicImage, nwidth: u32, nheight: u32, filter: Filter) -> (out:
    DynamicImage)
    ensures
        out == resized(*img, nwidth, nheight, filter),
        image_size(out) == (nwidth, nheight),
{
    let kernel = match filter {
        Filter::Nearest => FilterType::Nearest,
        Filter::Triangle => FilterType::Triangle,
    };
    img.resize_exact(nwidth, nheight, kernel)
}

/// `DynamicImage::write_to` with `ImageOutputFormat::Jpeg(quality)`, into an
/// empty buffer. Trusted: the outcome is `jpeg_encoded` of the arguments,
/// and an encoding that succeeds is not empty (it starts with the
/// start-of-image marker).
#[verifier::external_body]
pub(crate) fn encode_jpeg(img: &DynamicImage, quality: u8) -> (r: Result<Vec<u8>, ImageError>)
    ensures
        match r {
            Ok(bytes) => jpeg_encoded(*img, quality) == Some(bytes@) && bytes@.len() > 0,
            Err(_) => jpeg_encoded(*img, quality) is None,
        },
{
    let mut buffer = Cursor::new(Vec::new());
    img.write_to(&mut buffer, ImageOutputFormat::Jpeg(quality))?;
    Ok(buffer.into_inner())
}

} // verus!
