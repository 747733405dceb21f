//! The icon of the window.
use vstd::prelude::*;

verus! {

/// The error of the `image` crate.
#[verifier::external_type_specification]
#[verifier::external_body]
pub struct ExImageError(image::ImageError);

/// What decoding an encoded image gives: the pixels row by row, four bytes each for red, green,
/// blue and opacity, then the width and the height; nothing where the bytes are no image that
/// can be decoded.
pub uninterp spec fn decoded_rgba8(encoded: Seq<u8>) -> Option<(Seq<u8>, u32, u32)>;

/// Calls `image::load_from_memory` and takes the image as `into_rgba8` gives it.
///
/// Believed of the call: whether it succeeds, and the pixels, the width and the height, depend
/// on the encoded bytes alone, and there are four bytes for each pixel. Which bytes are an image
/// and what its pixels are is left to the decoder. Memory is taken to suffice, as for any vector.
#[verifier::external_body]
fn decode_rgba8(encoded: &[u8]) -> (decoded: Result<(Vec<u8>, u32, u32), image::ImageError>)
    ensures
        match decoded {
            Ok((rgba, width, height)) => {
                &&& decoded_rgba8(encoded@) == Some((rgba@, width, height))
                &&& rgba@.len() == 4 * width * height
            },
            Err(_) => decoded_rgba8(encoded@) is None,
        },
{
    let rgba = image::load_from_memory(encoded)?.into_rgba8();
    let (width, height) = rgba.dimensions();
    Ok((rgba.into_raw(), width, height))
}

/// An icon: its pixels row by row, four bytes each, and its size.
#[derive(Debug, PartialEq, Eq)]
pub struct IconData {
    pub rgba: Vec<u8>,
    pub width: u32,
    pub height: u32,
}

/// Why there is no icon.
#[derive(Debug, Clone, Copy, PartialEq, Eq, Structural)]
pub enum IconError {
    /// The bytes are no image that can be decoded.
    NotAnImage,
}

/// The icon that decoded pixels make, or the error where there are none.
pub fn icon_from_pixels(decoded: Option<(Vec<u8>, u32, u32)>) -> (icon: Result<IconData, IconError>)
    ensures
        match decoded {
            Some((rgba, width, height)) => icon == Ok::<IconData, IconError>(
                IconData { rgba, width, height },
            ),
            None => icon == Err::<IconData, IconError>(IconError::NotAnImage),
        },
{
    match decoded {
        Some((rgba, width, height)) => Ok(IconData { rgba, width, height }),
        None => Err(IconError::NotAnImage),
    }
}

/// The icon that an encoded image holds.
pub fn load_icon(encoded: &[u8]) -> (icon: Result<IconData, IconError>)
    ensures
        match decoded_rgba8(encoded@) {
            Some((rgba, width, height)) => icon matches Ok(data) && {
                &&& data.rgba@ == rgba
                &&& data.width == width
                &&& data.height == height
                &&& rgba.len() == 4 * width * height
            },
            None => icon == Err::<IconData, IconError>(IconError::NotAnImage),
        },
{
    match decode_rgba8(encoded) {
        Ok(decoded) => icon_from_pixels(Some(decoded)),
        Err(_) => icon_from_pixels(None),
    }
}

} // verus!
