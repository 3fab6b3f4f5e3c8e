//! Decoding of encoded images.
//!
//! The decoder looks at the first bytes of a stream to tell its container,
//! hands the stream to the codec of that container, and checks what the codec
//! gives back before it becomes a pixel buffer. The codecs themselves are not
//! part of this library: a caller passes them in as one function from a
//! container and the bytes to a decoded image or a reason.

use vstd::prelude::*;
use crate::error::{failed_with, UnimageError, UnimageErrorKind};
use crate::format::UnimageFormat;
use crate::image::ImageModel;
use crate::pixel_buffer::PixelBuffer;

verus! {

/// The containers that are told by their signature.
#[derive(Clone, Copy, Debug, PartialEq, Eq, Structural)]
pub enum ContainerFormat {
    Png,
    Jpeg,
    Gif,
    Bmp,
    WebP,
}

/// What a codec hands back when it has decoded a stream: the pixel bytes and
/// how to read them.
#[derive(Debug)]
pub struct DecodedImage {
    pub pixels: Vec<u8>,
    pub width: i32,
    pub height: i32,
    pub format: UnimageFormat,
}

impl View for DecodedImage {
    type V = ImageModel;

    open spec fn view(&self) -> ImageModel {
        ImageModel {
            format: self.format,
            width: self.width as int,
            height: self.height as int,
            bytes: self.pixels@,
        }
    }
}

/// Whether `pattern` stands in `bytes` at `offset`.
pub open spec fn holds_at(bytes: Seq<u8>, offset: int, pattern: Seq<u8>) -> bool {
    offset + pattern.len() <= bytes.len() && bytes.subrange(offset, offset + pattern.len())
        == pattern
}

/// The eight bytes that every PNG stream starts with.
pub open spec fn png_signature() -> Seq<u8> {
    seq![0x89u8, 0x50u8, 0x4eu8, 0x47u8, 0x0du8, 0x0au8, 0x1au8, 0x0au8]
}

/// The three bytes that every JPEG stream starts with.
pub open spec fn jpeg_signature() -> Seq<u8> {
    seq![0xffu8, 0xd8u8, 0xffu8]
}

/// `GIF87a`, the start of a GIF stream of the first version.
pub open spec fn gif87_signature() -> Seq<u8> {
    seq![0x47u8, 0x49u8, 0x46u8, 0x38u8, 0x37u8, 0x61u8]
}

/// `GIF89a`, the start of a GIF stream of the second version.
pub open spec fn gif89_signature() -> Seq<u8> {
    seq![0x47u8, 0x49u8, 0x46u8, 0x38u8, 0x39u8, 0x61u8]
}

/// `BM`, the start of a BMP stream.
pub open spec fn bmp_signature() -> Seq<u8> {
    seq![0x42u8, 0x4du8]
}

/// `RIFF`, the start of the container that a WebP stream lies in.
pub open spec fn riff_signature() -> Seq<u8> {
    seq![0x52u8, 0x49u8, 0x46u8, 0x46u8]
}

/// `WEBP`, which follows the length field of the RIFF container.
pub open spec fn webp_signature() -> Seq<u8> {
    seq![0x57u8, 0x45u8, 0x42u8, 0x50u8]
}

/// The container that a stream's signature tells, if it tells one.
pub open spec fn container_of(bytes: Seq<u8>) -> Option<ContainerFormat> {
    if holds_at(bytes, 0, png_signature()) {
        Some(ContainerFormat::Png)
    } else if holds_at(bytes, 0, jpeg_signature()) {
        Some(ContainerFormat::Jpeg)
    } else if holds_at(bytes, 0, gif87_signature()) || holds_at(bytes, 0, gif89_signature()) {
        Some(ContainerFormat::Gif)
    } else if holds_at(bytes, 0, bmp_signature()) {
        Some(ContainerFormat::Bmp)
    } else if holds_at(bytes, 0, riff_signature()) && holds_at(bytes, 8, webp_signature()) {
        Some(ContainerFormat::WebP)
    } else {
        None
    }
}

/// The message for a stream whose signature tells no container.
pub open spec fn unrecognized_text() -> Seq<char> {
    "unrecognized image signature"@
}

/// The message for a decoded image that cannot be a pixel buffer. After the
/// colon it says why, as `PixelBuffer::adoption_fault_text` does.
pub open spec fn rejected_text(image: ImageModel) -> Seq<char> {
    "decoder returned an invalid image: "@ + PixelBuffer::adoption_fault_text(
        image.bytes,
        image.width,
        image.height,
        image.format,
    )
}

/// What becomes of a codec's outcome: the image where the codec gave one that
/// can be a pixel buffer, and else the reason of the failure.
pub open spec fn accepted(outcome: Result<DecodedImage, String>) -> Result<ImageModel, Seq<char>> {
    match outcome {
        Ok(image) => if PixelBuffer::adoption_fault(
            image@.bytes,
            image@.width,
            image@.height,
            image@.format,
        ) is None {
            Ok(image@)
        } else {
            Err(rejected_text(image@))
        },
        Err(reason) => Err(reason@),
    }
}

/// Whether `result` is the buffer of the expected image, or the failure to
/// decode with the expected reason.
pub open spec fn decoded_as(
    result: Result<PixelBuffer, UnimageError>,
    expected: Result<ImageModel, Seq<char>>,
) -> bool {
    match expected {
        Ok(image) => result matches Ok(buffer) && buffer.wf() && buffer@ == image,
        Err(reason) => failed_with(result, UnimageErrorKind::DecodeFailed, reason),
    }
}

/// Whether the bytes `pattern` stand in `bytes` at `offset`.
fn matches_at(bytes: &[u8], offset: usize, pattern: &[u8]) -> (b: bool)
    requires
        offset + pattern@.len() <= usize::MAX,
    ensures
        b == holds_at(bytes@, offset as int, pattern@),
{
    if bytes.len() < offset || bytes.len() - offset < pattern.len() {
        return false;
    }
    let mut i: usize = 0;
    while i < pattern.len()
        invariant
            i <= pattern@.len(),
            offset + pattern@.len() <= bytes@.len(),
            offset + pattern@.len() <= usize::MAX,
            forall|k: int| 0 <= k < i ==> bytes@[offset + k] == pattern@[k],
        decreases pattern@.len() - i,
    {
        if bytes[offset + i] != pattern[i] {
            assert(bytes@.subrange(offset as int, offset + pattern@.len())[i as int]
                != pattern@[i as int]);
            return false;
        }
        i += 1;
    }
    assert(bytes@.subrange(offset as int, offset + pattern@.len()) =~= pattern@);
    true
}

/// Tells the container of a stream by its signature.
pub fn sniff(bytes: &[u8]) -> (container: Option<ContainerFormat>)
    ensures
        container == container_of(bytes@),
{
    let png: [u8; 8] = [0x89, 0x50, 0x4e, 0x47, 0x0d, 0x0a, 0x1a, 0x0a];
    let jpeg: [u8; 3] = [0xff, 0xd8, 0xff];
    let gif87: [u8; 6] = [0x47, 0x49, 0x46, 0x38, 0x37, 0x61];
    let gif89: [u8; 6] = [0x47, 0x49, 0x46, 0x38, 0x39, 0x61];
    let bmp: [u8; 2] = [0x42, 0x4d];
    let riff: [u8; 4] = [0x52, 0x49, 0x46, 0x46];
    let webp: [u8; 4] = [0x57, 0x45, 0x42, 0x50];
    assert(png@ =~= png_signature());
    assert(jpeg@ =~= jpeg_signature());
    assert(gif87@ =~= gif87_signature());
    assert(gif89@ =~= gif89_signature());
    assert(bmp@ =~= bmp_signature());
    assert(riff@ =~= riff_signature());
    assert(webp@ =~= webp_signature());
    if matches_at(bytes, 0, png.as_slice()) {
        Some(ContainerFormat::Png)
    } else if matches_at(bytes, 0, jpeg.as_slice()) {
        Some(ContainerFormat::Jpeg)
    } else if matches_at(bytes, 0, gif87.as_slice()) || matches_at(bytes, 0, gif89.as_slice()) {
        Some(ContainerFormat::Gif)
    } else if matches_at(bytes, 0, bmp.as_slice()) {
        Some(ContainerFormat::Bmp)
    } else if matches_at(bytes, 0, riff.as_slice()) && matches_at(bytes, 8, webp.as_slice()) {
        Some(ContainerFormat::WebP)
    } else {
        None
    }
}

/// The error for a stream whose signature tells no container.
fn unrecognized_error() -> (e: UnimageError)
    ensures
        e.says(UnimageErrorKind::DecodeFailed, unrecognized_text()),
{
    let mut text = String::new();
    text.append("unrecognized image signature");
    assert(text@ =~= unrecognized_text());
    UnimageError::from(UnimageErrorKind::DecodeFailed, text)
}

/// Turns a codec's outcome into a pixel buffer.
///
/// It succeeds where the codec gave an image whose bytes are as many as its
/// extent says and whose extent is valid. Else it fails with `DecodeFailed`:
/// with the codec's own reason where the codec failed, and with a reason that
/// says what is wrong with the image where the codec gave one that cannot be
/// a pixel buffer.
pub fn accept(outcome: Result<DecodedImage, String>) -> (r: Result<PixelBuffer, UnimageError>)
    ensures
        decoded_as(r, accepted(outcome)),
{
    match outcome {
        Ok(image) => {
            let ghost model = image@;
            match PixelBuffer::from_pixels(image.pixels, image.width, image.height, image.format) {
                Ok(buffer) => Ok(buffer),
                Err(fault) => {
                    let mut text = String::new();
                    text.append("decoder returned an invalid image: ");
                    text.append(fault.message());
                    assert(text@ =~= rejected_text(model));
                    Err(UnimageError::from(UnimageErrorKind::DecodeFailed, text))
                },
            }
        },
        Err(reason) => Err(UnimageError::from(UnimageErrorKind::DecodeFailed, reason)),
    }
}

/// Decodes a stream: tells its container, runs the codec on it and accepts
/// what the codec gives back.
///
/// A stream whose signature tells no container fails with `DecodeFailed`, and
/// no codec is run on it. For any other stream the result is what `accept`
/// makes of the outcome of `codec` on the container and the stream.
pub fn decode<C>(bytes: &[u8], codec: C) -> (r: Result<PixelBuffer, UnimageError>) where
    C: Fn(ContainerFormat, &[u8]) -> Result<DecodedImage, String>,

    requires
        forall|container: ContainerFormat|
            container_of(bytes@) == Some(container) ==> call_requires(codec, (container, bytes)),
    ensures
        match container_of(bytes@) {
            None => decoded_as(r, Err(unrecognized_text())),
            Some(container) => exists|outcome: Result<DecodedImage, String>|
                call_ensures(codec, (container, bytes), outcome) && decoded_as(r, accepted(outcome)),
        },
{
    match sniff(bytes) {
        None => Err(unrecognized_error()),
        Some(container) => {
            let outcome = codec(container, bytes);
            let ghost witness = outcome;
            let r = accept(outcome);
            assert(call_ensures(codec, (container, bytes), witness) && decoded_as(
                r,
                accepted(witness),
            ));
            r
        },
    }
}

} // verus!
