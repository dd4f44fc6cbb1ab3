//! The frame encoder: from a converted picture, three bytes to the pixel, to a
//! compressed still image in a text encoding that is safe for transport.
//!
//! A converted picture arrives as one plane of bytes whose rows may be padded:
//! each row starts `stride` bytes after the one before it and holds its pixels
//! in its first `3 * width` bytes. The rows are packed tightly, compressed as a
//! JPEG image and written out in base64.

use vstd::prelude::*;
use vstd::string::*;
use crate::error::VideoError;

verus! {

/// The largest width and height that a JPEG image can have.
pub const MAX_JPEG_SIDE: u32 = 65535;

/// True when every one of `height` rows of `3 * width` bytes, `stride` bytes
/// apart, lies within a plane of `len` bytes.
pub open spec fn plane_holds(len: nat, stride: nat, width: nat, height: nat) -> bool {
    height == 0 || (height - 1) * stride + 3 * width <= len
}

/// The first `row` bytes of each of the first `rows` rows of a plane, one after
/// the other.
pub open spec fn packed_rows(data: Seq<u8>, stride: nat, row: nat, rows: nat) -> Seq<u8>
    decreases rows,
{
    if rows == 0 {
        Seq::empty()
    } else {
        packed_rows(data, stride, row, ( rows - 1 ) as nat) + data.subrange(
            (rows - 1) * stride,
            (rows - 1) * stride + row,
        )
    }
}

/// True when a picture of this size can be written as a JPEG image.
pub open spec fn jpeg_size_ok(width: u32, height: u32) -> bool {
    1 <= width <= MAX_JPEG_SIDE && 1 <= height <= MAX_JPEG_SIDE
}

/// The length of the base64 text of `len` bytes, padding included.
pub open spec fn base64_len(len: nat) -> nat {
    4 * ((len + 2) / 3)
}

/// The bytes of the JPEG image that the `image` crate writes for a picture of
/// `width` by `height` pixels, given as packed RGB bytes, at `quality`.
pub uninterp spec fn jpeg_bytes(width: u32, height: u32, rgb: Seq<u8>, quality: u8) -> Seq<u8>;

/// The text of `bytes` in the standard base64 alphabet, with padding, as the
/// `base64` crate writes it.
pub uninterp spec fn base64_text(bytes: Seq<u8>) -> Seq<char>;

/// The error type of the `image` crate.
#[verifier::external_type_specification]
#[verifier::external_body]
pub struct ExImageError(image::ImageError);

/// Compresses a packed RGB picture with
/// `image::codecs::jpeg::JpegEncoder::new_with_quality(..).encode(..)`.
///
/// The encoder refuses a picture with a side of zero or of more than 65535
/// pixels and accepts every other; writing to a vector cannot fail. What it
/// writes depends on the arguments alone and starts with the two bytes of the
/// start-of-image marker. It panics unless the buffer holds exactly three
/// bytes for each pixel, which `requires` rules out.
#[verifier::external_body]
fn jpeg_encode(width: u32, height: u32, rgb: &Vec<u8>, quality: u8) -> (result: Result<
    Vec<u8>,
    image::ImageError,
>)
    requires
        rgb@.len() == 3 * width * height,
    ensures
        result is Ok <==> jpeg_size_ok(width, height),
        result is Ok ==> {
            &&& result->Ok_0@ == jpeg_bytes(width, height, rgb@, quality)
            &&& result->Ok_0@.len() >= 2
            &&& result->Ok_0@[0] == 0xFF
            &&& result->Ok_0@[1] == 0xD8
        },
{
    let mut out: Vec<u8> = Vec::new();
    let mut encoder = image::codecs::jpeg::JpegEncoder::new_with_quality(&mut out, quality);
    match encoder.encode(rgb, width, height, image::ExtendedColorType::Rgb8) {
        Ok(()) => Ok(out),
        Err(e) => Err(e),
    }
}

/// The text of an error of the `image` crate, as its `Display` writes it.
#[verifier::external_body]
fn image_error_text(error: &image::ImageError) -> (text: String) {
    error.to_string()
}

/// Writes bytes as base64 with
/// `base64::engine::general_purpose::STANDARD.encode(..)`.
///
/// The text depends on the bytes alone and has four characters for every
/// three bytes, the last group padded. The call panics where that length does
/// not fit in `usize`, which `requires` rules out.
#[verifier::external_body]
fn base64_encode(bytes: &Vec<u8>) -> (text: String)
    requires
        base64_len(bytes@.len()) <= usize::MAX,
    ensures
        text@ == base64_text(bytes@),
        text@.len() == base64_len(bytes@.len()),
{
    base64::Engine::encode(&base64::engine::general_purpose::STANDARD, bytes)
}

/// The packed rows have `row` bytes for each row.
pub proof fn packed_rows_len(data: Seq<u8>, stride: nat, row: nat, rows: nat)
    requires
        rows == 0 || (rows - 1) * stride + row <= data.len(),
    ensures
        packed_rows(data, stride, row, rows).len() == rows * row,
    decreases rows,
{
    if rows > 0 {
        if rows > 1 {
            assert((rows - 2) * stride + row <= (rows - 1) * stride + row) by (nonlinear_arith)
                requires
                    rows >= 2,
            ;
        }
        packed_rows_len(data, stride, row, ( rows - 1 ) as nat);
        assert((rows - 1) * row + row == rows * row) by (nonlinear_arith);
    }
}

/// Packs the rows of a plane: the first `3 * width` bytes of each of `height`
/// rows that lie `stride` bytes apart.
///
/// Gives nothing where a row would reach past the end of the plane, or where
/// the packed picture would be longer than a vector can be.
pub fn pack_rows(data: &[u8], stride: usize, width: u32, height: u32) -> (packed: Option<Vec<u8>>)
    ensures
        packed is Some <==> plane_holds(data@.len(), stride as nat, width as nat, height as nat)
            && 3 * width * height <= usize::MAX,
        packed is Some ==> {
            &&& packed->Some_0@ == packed_rows(
                data@,
                stride as nat,
                3 * width as nat,
                height as nat,
            )
            &&& packed->Some_0@.len() == 3 * width * height
        },
{
    let row: u128 = 3 * ( width as u128 );
    assert(3 * width * height <= 3 * 0xffff_ffff * 0xffff_ffff) by (nonlinear_arith)
        requires
            width <= 0xffff_ffff,
            height <= 0xffff_ffff,
    ;
    assert(row * height == 3 * width * height) by (nonlinear_arith)
        requires
            row == 3 * width,
    ;
    let total: u128 = row * ( height as u128 );
    if total > usize::MAX as u128 {
        return None;
    }
    if height == 0 {
        return Some(Vec::new());
    }
    assert((height - 1) * stride <= 0xffff_ffff * 0xffff_ffff_ffff_ffff) by (nonlinear_arith)
        requires
            1 <= height <= 0xffff_ffff,
            stride <= 0xffff_ffff_ffff_ffff,
    ;
    let last_end: u128 = ( height as u128 - 1 ) * ( stride as u128 ) + row;
    if last_end > data.len() as u128 {
        return None;
    }
    let row: usize = row as usize;
    let mut out: Vec<u8> = Vec::new();
    let mut y: u32 = 0;
    while y < height
        invariant
            y <= height,
            row == 3 * width,
            (height - 1) * stride + row <= data@.len(),
            data@.len() <= usize::MAX,
            out@ == packed_rows(data@, stride as nat, row as nat, y as nat),
        decreases height - y,
    {
        assert(y * stride + row <= (height - 1) * stride + row) by (nonlinear_arith)
            requires
                y <= height - 1,
                stride >= 0,
        ;
        let start: usize = ( y as usize ) * stride;
        out.extend_from_slice(&data[start..start + row]);
        y = y + 1;
    }
    proof {
        packed_rows_len(data@, stride as nat, row as nat, height as nat);
        assert(height * row == 3 * width * height) by (nonlinear_arith)
            requires
                row == 3 * width,
        ;
    }
    Some(out)
}

/// True when `text` begins with `prefix`.
pub open spec fn starts_with(text: Seq<char>, prefix: Seq<char>) -> bool {
    prefix.len() <= text.len() && text.subrange(0, prefix.len() as int) == prefix
}

/// What [`encode_frame_as_base64_jpeg`] returns for a picture.
///
/// A plane that does not hold its rows gives the image error. A picture whose
/// size a JPEG image cannot have, or whose image is too long to be written as
/// text, gives the encoding error. Every other picture gives the base64 text
/// of the JPEG image of its packed rows.
pub open spec fn encoded_frame(
    result: Result<String, VideoError>,
    data: Seq<u8>,
    stride: nat,
    width: u32,
    height: u32,
    quality: u8,
) -> bool {
    let rgb = packed_rows(data, stride, 3 * width as nat, height as nat);
    let jpeg = jpeg_bytes(width, height, rgb, quality);
    if !(plane_holds(data.len(), stride, width as nat, height as nat) && 3 * width * height
        <= usize::MAX) {
        result is Err && result->Err_0.says(
            "IMAGE_ERROR"@,
            "Failed to create image from frame data"@,
        )
    } else if !jpeg_size_ok(width, height) || base64_len(jpeg.len()) > usize::MAX {
        result is Err && result->Err_0.code@ == "JPEG_ENCODE_ERROR"@ && starts_with(
            result->Err_0.message@,
            "Failed to encode JPEG: "@,
        )
    } else {
        result is Ok && result->Ok_0@ == base64_text(jpeg) && result->Ok_0@.len() > 0
    }
}

/// Whether the base64 text of `len` bytes has a length that fits in `usize`.
fn base64_fits(len: usize) -> (fits: bool)
    ensures
        fits == (base64_len(len as nat) <= usize::MAX),
{
    let groups: u128 = ( len as u128 + 2 ) / 3;
    4 * groups <= usize::MAX as u128
}

/// Writes the JPEG image of an encoded picture as base64 text.
///
/// This is the last step of the encoder, for the bytes that the compression
/// has given.
pub fn jpeg_to_text(jpeg: &Vec<u8>) -> (result: Result<String, VideoError>)
    ensures
        base64_len(jpeg@.len()) <= usize::MAX ==> result is Ok && result->Ok_0@ == base64_text(
            jpeg@,
        ) && result->Ok_0@.len() == base64_len(jpeg@.len()),
        base64_len(jpeg@.len()) > usize::MAX ==> result is Err && result->Err_0.says(
            "JPEG_ENCODE_ERROR"@,
            "Failed to encode JPEG: "@ + "image too large for text encoding"@,
        ),
{
    if base64_fits(jpeg.len()) {
        Ok(base64_encode(jpeg))
    } else {
        Err(VideoError::jpeg_encode_error("image too large for text encoding"))
    }
}

/// Encodes a converted picture as a JPEG image in base64 text.
///
/// `data` is the plane of the picture, `stride` the distance between its rows
/// in bytes, `quality` the still-image quality from 1 (worst) to 100 (best);
/// a quality outside that range counts as the nearest end of it.
pub fn encode_frame_as_base64_jpeg(
    data: &[u8],
    stride: usize,
    width: u32,
    height: u32,
    quality: u8,
) -> (result: Result<String, VideoError>)
    ensures
        encoded_frame(result, data@, stride as nat, width, height, quality),
{
    let rgb = match pack_rows(data, stride, width, height) {
        Some(rgb) => rgb,
        None => {
            return Err(VideoError::image_error());
        },
    };
    match jpeg_encode(width, height, &rgb, quality) {
        Ok(jpeg) => {
            let text = jpeg_to_text(&jpeg);
            proof {
                if text is Err {
                    let prefix = "Failed to encode JPEG: "@;
                    let message = text->Err_0.message@;
                    assert(message.subrange(0, prefix.len() as int) =~= prefix);
                }
            }
            text
        },
        Err(error) => {
            let detail = image_error_text(&error);
            let failure = VideoError::jpeg_encode_error(detail.as_str());
            proof {
                let prefix = "Failed to encode JPEG: "@;
                assert(failure.message@.subrange(0, prefix.len() as int) =~= prefix);
            }
            Err(failure)
        },
    }
}

/// Encoding is a function of its arguments: two results for the same picture
/// at the same quality are the same text, or both are errors.
pub proof fn encoding_is_repeatable(
    first: Result<String, VideoError>,
    second: Result<String, VideoError>,
    data: Seq<u8>,
    stride: nat,
    width: u32,
    height: u32,
    quality: u8,
)
    requires
        encoded_frame(first, data, stride, width, height, quality),
        encoded_frame(second, data, stride, width, height, quality),
    ensures
        first is Ok <==> second is Ok,
        first is Ok ==> first->Ok_0@ == second->Ok_0@,
        first is Err ==> first->Err_0.code@ == second->Err_0.code@,
{
}

} // verus!
