//! Still images in their file formats, through the `image` crate.
//!
//! The library works on decoded pixels. What a file format makes of them is
//! the `image` crate's business: this module names what it returns and hands
//! the calls through.

use crate::compositor::ConfigError;
use image::{ImageError, ImageFormat};
use vstd::prelude::*;

verus! {

/// `image::ImageFormat`: the name of a still-image file format. The library
/// only hands it through.
#[verifier::external_type_specification]
#[verifier::external_body]
pub struct ExImageFormat(ImageFormat);

/// `image::ImageError`: why the `image` crate could not decode or encode. The
/// library only hands it through.
#[verifier::external_type_specification]
#[verifier::external_body]
pub struct ExImageError(ImageError);

/// What `ImageFormat::from_extension` makes of an identifier: the format that
/// goes by this file extension, whatever its case, or `None` where there is
/// none.
pub uninterp spec fn format_of_extension(extension: Seq<char>) -> Option<ImageFormat>;

/// Calls `ImageFormat::from_extension`, which looks the identifier up in the
/// crate's table of file extensions. The contract only says that the outcome
/// is the one named by [`format_of_extension`]: it depends on nothing but the
/// identifier.
#[verifier::external_body]
fn format_from_extension(extension: &str) -> (format: Option<ImageFormat>)
    ensures
        format == format_of_extension(extension@),
{
    ImageFormat::from_extension(extension)
}

/// The still-image format that `identifier` names, as a file extension does.
pub fn still_format(identifier: &str) -> (out: Result<ImageFormat, ConfigError>)
    ensures
        out == match format_of_extension(identifier@) {
            Some(format) => Ok::<ImageFormat, ConfigError>(format),
            None => Err::<ImageFormat, ConfigError>(ConfigError::UnknownFormat),
        },
{
    match format_from_extension(identifier) {
        Some(format) => Ok(format),
        None => Err(ConfigError::UnknownFormat),
    }
}

/// What `image::load_from_memory_with_format`, followed by
/// `DynamicImage::into_rgb8`, makes of the file contents `bytes` read as
/// `format`: the width, the height and the bytes of the 8-bit RGB image, or
/// `None` where the crate reports an error.
pub uninterp spec fn decoded_rgb8(bytes: Seq<u8>, format: ImageFormat) -> Option<
    (u32, u32, Seq<u8>),
>;

/// What `DynamicImage::write_to` writes for the 8-bit RGB image of
/// `width * height` pixels over the bytes `rgb` in `format`: the file
/// contents, or `None` where the crate reports an error.
pub uninterp spec fn encoded_rgb8(width: u32, height: u32, rgb: Seq<u8>, format: ImageFormat)
    -> Option<Seq<u8>>;

/// Calls `image::load_from_memory_with_format` on `bytes` and `format`,
/// converts the image with `DynamicImage::into_rgb8`, and takes it apart into
/// width, height and bytes. The contract only says that the outcome is the
/// one named by [`decoded_rgb8`]: decoding depends on nothing but the bytes
/// and the format.
#[verifier::external_body]
pub(crate) fn decode_rgb8(bytes: &[u8], format: ImageFormat) -> (out: Result<
    (u32, u32, Vec<u8>),
    ImageError,
>)
    ensures
        match out {
            Ok(parts) => decoded_rgb8(bytes@, format) == Some((parts.0, parts.1, parts.2@)),
            Err(_) => decoded_rgb8(bytes@, format) is None,
        },
{
    let image = image::load_from_memory_with_format(bytes, format)?.into_rgb8();
    let (width, height) = image.dimensions();
    Ok((width, height, image.into_vec()))
}

/// Makes an `image::RgbImage` of `width * height` pixels over a copy of
/// `rgb` and calls `DynamicImage::write_to` on it with a buffer in memory and
/// `format`. `rgb` must hold three bytes for each pixel, or `RgbImage::from_raw`
/// would refuse it. The contract only says that the outcome is the one named
/// by [`encoded_rgb8`]: encoding depends on nothing but the pixels and the
/// format.
#[verifier::external_body]
pub(crate) fn encode_rgb8(width: u32, height: u32, rgb: &[u8], format: ImageFormat) -> (out: Result<
    Vec<u8>,
    ImageError,
>)
    requires
        rgb@.len() == width * height * 3,
    ensures
        match out {
            Ok(file) => encoded_rgb8(width, height, rgb@, format) == Some(file@),
            Err(_) => encoded_rgb8(width, height, rgb@, format) is None,
        },
{
    let image = image::RgbImage::from_raw(width, height, rgb.to_vec()).unwrap();
    let mut file = std::io::Cursor::new(Vec::new());
    image::DynamicImage::ImageRgb8(image).write_to(&mut file, format)?;
    Ok(file.into_inner())
}

/// Why file contents did not give a pixel buffer.
#[derive(Debug)]
pub enum DecodeError {
    /// The `image` crate could not decode the contents as the format named.
    Codec(ImageError),
    /// The decoded image does not hold three bytes for each pixel.
    Layout,
}

/// Why a pixel buffer did not give file contents: the `image` crate could
/// not encode it in the format named.
#[derive(Debug)]
pub struct EncodeError(pub ImageError);

} // verus!
