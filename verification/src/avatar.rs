//! A profile picture with its colours inverted.
//!
//! The picture arrives as the bytes of a WebP file. It is decoded to three
//! bytes per pixel, and every byte that belongs to a pixel is replaced by its
//! complement.

use vstd::prelude::*;

verus! {

/// A decoded picture: its size in pixels and its bytes, row by row, three
/// bytes for each pixel.
#[derive(Debug, Clone, PartialEq, Eq)]
pub struct RgbPicture {
    pub width: u32,
    pub height: u32,
    pub data: Vec<u8>,
}

/// A decoded picture as a plain value.
pub ghost struct RgbPictureView {
    pub width: u32,
    pub height: u32,
    pub data: Seq<u8>,
}

impl View for RgbPicture {
    type V = RgbPictureView;

    open spec fn view(&self) -> RgbPictureView {
        RgbPictureView { width: self.width, height: self.height, data: self.data@ }
    }
}

/// Why there is no picture.
#[derive(Debug, Clone, Copy, PartialEq, Eq, Structural)]
pub enum PictureError {
    /// The bytes are not a WebP file that can be decoded.
    NotWebp,
}

/// The decoder's error. It carries nothing.
#[verifier::external_type_specification]
#[verifier::external_body]
pub struct ExWebPSimpleError(libwebp::error::WebPSimpleError);

/// What the WebP decoder makes of `data`: the picture's width, height and
/// bytes, or nothing where it cannot decode them.
pub uninterp spec fn webp_rgb(data: Seq<u8>) -> Option<RgbPictureView>;

/// Calls `libwebp::WebPDecodeRGB` and copies the decoded bytes.
///
/// The contract claims one thing: whether the decoder succeeds, and with what
/// picture, depends on the bytes of `data` and on nothing else.
#[verifier::external_body]
fn webp_decode(data: &[u8]) -> (decoded: Result<RgbPicture, libwebp::error::WebPSimpleError>)
    ensures
        match decoded {
            Ok(picture) => webp_rgb(data@) == Some(picture@),
            Err(_) => webp_rgb(data@).is_none(),
        },
{
    let (width, height, buf) = libwebp::WebPDecodeRGB(data)?;
    Ok(RgbPicture { width, height, data: buf.to_vec() })
}

/// The number of bytes that the pixels of a picture take.
pub open spec fn pixel_bytes(width: u32, height: u32) -> nat {
    (3 * width * height) as nat
}

/// Whether `len` bytes can be taken as a picture of the given size: the
/// bytes of one row can be counted, and the bytes of all pixels are there.
pub open spec fn holds_picture(width: u32, height: u32, len: nat) -> bool {
    3 * width <= usize::MAX && pixel_bytes(width, height) <= len
}

/// The bytes of a picture with its colours inverted: each of the first
/// `count` bytes replaced by its distance from 255, the others kept.
pub open spec fn inverted_bytes(data: Seq<u8>, count: nat) -> Seq<u8> {
    Seq::new(
        data.len(),
        |i: int|
            if i < count {
                (255 - data[i]) as u8
            } else {
                data[i]
            },
    )
}

/// Takes the bytes as an image with `image::RgbImage::from_vec`, inverts it
/// with `image::imageops::invert`, and takes the bytes back out.
///
/// The contract claims of `from_vec` that it refuses the bytes exactly
/// where three times the width, times the height, cannot be computed or is
/// more than there are bytes; and of `invert` that it replaces each channel
/// of each pixel by 255 minus its value and touches no byte behind the last
/// pixel.
#[verifier::external_body]
fn invert_rgb(width: u32, height: u32, data: Vec<u8>) -> (inverted: Option<Vec<u8>>)
    ensures
        inverted.is_some() <==> holds_picture(width, height, data@.len()),
        inverted matches Some(bytes) ==> bytes@ == inverted_bytes(
            data@,
            pixel_bytes(width, height),
        ),
{
    let mut picture = image::RgbImage::from_vec(width, height, data)?;
    image::imageops::invert(&mut picture);
    Some(picture.into_raw())
}

/// The picture that the bytes of a WebP file hold.
pub open spec fn decoded(data: Seq<u8>) -> Result<RgbPictureView, PictureError> {
    match webp_rgb(data) {
        Some(picture) => Ok(picture),
        None => Err(PictureError::NotWebp),
    }
}

/// A picture with its colours inverted, or nothing where its bytes do not
/// hold a picture of its size.
pub open spec fn inverted(picture: RgbPictureView) -> Option<RgbPictureView> {
    if holds_picture(picture.width, picture.height, picture.data.len()) {
        Some(
            RgbPictureView {
                data: inverted_bytes(picture.data, pixel_bytes(picture.width, picture.height)),
                ..picture
            },
        )
    } else {
        None
    }
}

/// Inverting a picture twice gives it back.
pub proof fn inverting_twice_restores(picture: RgbPictureView)
    requires
        holds_picture(picture.width, picture.height, picture.data.len()),
    ensures
        inverted(picture) matches Some(once) && inverted(once) == Some(picture),
{
    let count = pixel_bytes(picture.width, picture.height);
    let once = inverted_bytes(picture.data, count);
    assert(inverted_bytes(once, count) =~= picture.data);
}

/// The plain value of a picture that may be absent.
pub open spec fn option_view(picture: Option<RgbPicture>) -> Option<RgbPictureView> {
    match picture {
        Some(p) => Some(p@),
        None => None,
    }
}

/// The plain value of the outcome of decoding.
pub open spec fn decoded_view(outcome: Result<RgbPicture, PictureError>) -> Result<
    RgbPictureView,
    PictureError,
> {
    match outcome {
        Ok(p) => Ok(p@),
        Err(e) => Err(e),
    }
}

/// Decodes the bytes of a WebP file.
pub fn decode_picture(data: &[u8]) -> (outcome: Result<RgbPicture, PictureError>)
    ensures
        decoded_view(outcome) == decoded(data@),
{
    match webp_decode(data) {
        Ok(picture) => Ok(picture),
        Err(_) => Err(PictureError::NotWebp),
    }
}

/// Inverts the colours of a picture.
pub fn invert_picture(picture: RgbPicture) -> (outcome: Option<RgbPicture>)
    ensures
        option_view(outcome) == inverted(picture@),
{
    let width = picture.width;
    let height = picture.height;
    match invert_rgb(width, height, picture.data) {
        Some(data) => Some(RgbPicture { width, height, data }),
        None => None,
    }
}

/// Decodes a profile picture and inverts its colours. A file that cannot be
/// decoded is an error; a decoded picture whose bytes do not fit its size
/// gives no picture and no error.
pub fn invert_avatar(data: &[u8]) -> (outcome: Result<Option<RgbPicture>, PictureError>)
    ensures
        match decoded(data@) {
            Ok(picture) => outcome matches Ok(p) && option_view(p) == inverted(picture),
            Err(e) => outcome == Err::<Option<RgbPicture>, PictureError>(e),
        },
{
    match decode_picture(data) {
        Ok(picture) => Ok(invert_picture(picture)),
        Err(e) => Err(e),
    }
}

} // verus!
