//! What holds of the processor whatever it holds and whatever it is given.

use vstd::prelude::*;
use crate::decoder::{accepted, container_of, DecodedImage};
use crate::error::UnimageErrorKind;
use crate::format::UnimageFormat;
use crate::image::{extent_bytes, ImageModel};
use crate::pixel_buffer::valid_extent;
use crate::processor::{ProcessorModel, UnimageProcessor};
use crate::transformer::{
    clip_fits,
    lemma_clip_whole,
    lemma_clipped_pixels,
    lemma_resampled_pixels,
    lemma_resize_same_size,
    out_of_bounds_text,
};

verus! {

/// A buffer allocated with a valid extent is well formed and holds width
/// times height times bytes per pixel bytes, all zero.
pub proof fn lemma_allocated_size(width: int, height: int, format: UnimageFormat)
    requires
        valid_extent(width, height, format),
        width <= i32::MAX,
        height <= i32::MAX,
    ensures
        ImageModel::zeroed(format, width, height).wf(),
        ImageModel::zeroed(format, width, height).format == format,
        ImageModel::zeroed(format, width, height).width == width,
        ImageModel::zeroed(format, width, height).height == height,
        ImageModel::zeroed(format, width, height).bytes.len() == width * height
            * format.spec_bytes_per_pixel(),
        forall|k: int|
            0 <= k < width * height * format.spec_bytes_per_pixel() ==> (
            #[trigger] ImageModel::zeroed(format, width, height).bytes[k]) == 0,
{
    ImageModel::lemma_of_pixels(format, width, height, |x: int, y: int, c: int| 0u8);
}

/// Every operation leaves a well-formed processor well formed.
pub proof fn lemma_operations_keep_invariant(
    p: ProcessorModel,
    data: Seq<u8>,
    outcome: Result<DecodedImage, String>,
    x: int,
    y: int,
    width: int,
    height: int,
    format: UnimageFormat,
)
    requires
        p.wf(),
        -0x8000_0000 <= width <= i32::MAX,
        -0x8000_0000 <= height <= i32::MAX,
    ensures
        ProcessorModel::fresh().wf(),
        p.after_load_raw(data, width, height, format).wf(),
        p.after_load_decoded(outcome).wf(),
        p.after_resize(width, height).wf(),
        p.after_clip(x, y, width, height).wf(),
{
    assert(ImageModel::absent().bytes.len() == 0);
    assert(extent_bytes(0, 0, UnimageFormat::Absent) == 0);
    if p.resize_fault(width, height) is None {
        lemma_resampled_pixels(p.image, width, height);
    }
    if p.clip_fault(x, y, width, height) is None {
        lemma_clipped_pixels(p.image, x, y, width, height);
    }
}

/// An image once loaded stays: no operation, whether it succeeds or fails,
/// takes a processor back to the state without an image.
pub proof fn lemma_loaded_stays_loaded(
    p: ProcessorModel,
    data: Seq<u8>,
    outcome: Result<DecodedImage, String>,
    x: int,
    y: int,
    width: int,
    height: int,
    format: UnimageFormat,
)
    requires
        p.image.is_loaded(),
    ensures
        p.after_load_raw(data, width, height, format).image.is_loaded(),
        p.after_load_decoded(outcome).image.is_loaded(),
        p.after_resize(width, height).image.is_loaded(),
        p.after_clip(x, y, width, height).image.is_loaded(),
{
}

/// An operation that fails leaves the image as it was and records the
/// message of its fault; one that succeeds leaves the message as it was.
pub proof fn lemma_failure_keeps_image(
    p: ProcessorModel,
    data: Seq<u8>,
    outcome: Result<DecodedImage, String>,
    x: int,
    y: int,
    width: int,
    height: int,
    format: UnimageFormat,
)
    ensures
        match ProcessorModel::load_raw_fault(data, width, height, format) {
            Some((_, message)) => p.after_load_raw(data, width, height, format) == (ProcessorModel {
                error: message,
                ..p
            }),
            None => p.after_load_raw(data, width, height, format).error == p.error,
        },
        match ProcessorModel::load_decoded_fault(outcome) {
            Some((_, message)) => p.after_load_decoded(outcome) == (ProcessorModel {
                error: message,
                ..p
            }),
            None => p.after_load_decoded(outcome).error == p.error,
        },
        match p.resize_fault(width, height) {
            Some((_, message)) => p.after_resize(width, height) == (ProcessorModel {
                error: message,
                ..p
            }),
            None => p.after_resize(width, height).error == p.error,
        },
        match p.clip_fault(x, y, width, height) {
            Some((_, message)) => p.after_clip(x, y, width, height) == (ProcessorModel {
                error: message,
                ..p
            }),
            None => p.after_clip(x, y, width, height).error == p.error,
        },
{
}

/// A resize to the width and the height that the image has changes no
/// image: the bytes, the extent and the format are afterwards what they were.
/// It succeeds, and then leaves the message too, exactly where an image with
/// at least one pixel is loaded; else it fails, which changes no image either.
pub proof fn lemma_resize_to_own_size(p: ProcessorModel)
    requires
        p.wf(),
    ensures
        p.after_resize(p.image.width, p.image.height).image == p.image,
        p.resize_fault(p.image.width, p.image.height) is None <==> p.image.is_loaded()
            && p.image.width >= 1 && p.image.height >= 1,
        p.resize_fault(p.image.width, p.image.height) is None ==> p.after_resize(
            p.image.width,
            p.image.height,
        ) == p,
{
    lemma_resize_same_size(p.image);
}

/// A clip to the rectangle of the whole image changes no image: the bytes,
/// the extent and the format are afterwards what they were. It succeeds, and
/// then leaves the message too, exactly where an image with at least one
/// pixel is loaded; else it fails, which changes no image either.
pub proof fn lemma_clip_to_whole(p: ProcessorModel)
    requires
        p.wf(),
    ensures
        p.after_clip(0, 0, p.image.width, p.image.height).image == p.image,
        p.clip_fault(0, 0, p.image.width, p.image.height) is None <==> p.image.is_loaded()
            && p.image.width >= 1 && p.image.height >= 1,
        p.clip_fault(0, 0, p.image.width, p.image.height) is None ==> p.after_clip(
            0,
            0,
            p.image.width,
            p.image.height,
        ) == p,
{
    lemma_clip_whole(p.image);
}

/// A clip of a loaded image to a rectangle that does not lie inside it fails
/// with `OutOfBounds`, leaves the image as it was and records a message,
/// which is not empty.
pub proof fn lemma_clip_outside_fails(p: ProcessorModel, x: int, y: int, width: int, height: int)
    requires
        p.image.is_loaded(),
        !clip_fits(p.image, x, y, width, height),
    ensures
        p.clip_fault(x, y, width, height) == Some(
            (UnimageErrorKind::OutOfBounds, out_of_bounds_text(p.image, x, y, width, height)),
        ),
        p.after_clip(x, y, width, height).image == p.image,
        p.after_clip(x, y, width, height).error == out_of_bounds_text(p.image, x, y, width, height),
        p.after_clip(x, y, width, height).error.len() > 0,
{
    reveal_strlit("clip rectangle x=");
}

/// Every failure of a load of raw pixels, of a resize and of a clip records a
/// message that is not empty, and so does a stream that tells no container.
pub proof fn lemma_fault_messages_nonempty(
    p: ProcessorModel,
    data: Seq<u8>,
    x: int,
    y: int,
    width: int,
    height: int,
    format: UnimageFormat,
)
    ensures
        ProcessorModel::load_raw_fault(data, width, height, format) matches Some((_, message))
            ==> message.len() > 0,
        p.resize_fault(width, height) matches Some((_, message)) ==> message.len() > 0,
        p.clip_fault(x, y, width, height) matches Some((_, message)) ==> message.len() > 0,
        ProcessorModel::unrecognized_fault() matches Some((_, message)) ==> message.len() > 0,
{
    reveal_strlit("pixel data of ");
    reveal_strlit("width must not be negative, but is ");
    reveal_strlit("height must not be negative, but is ");
    reveal_strlit("pixel format must be RGB or RGBA");
    reveal_strlit("an image of ");
    reveal_strlit("no image is loaded");
    reveal_strlit("cannot resize to ");
    reveal_strlit("clip rectangle x=");
    reveal_strlit("unrecognized image signature");
}

/// What is taken in from a codec is an image with a pixel format, well formed
/// and exactly what the codec gave; a codec's failure, or an image that
/// cannot be a pixel buffer, changes no image.
pub proof fn lemma_decoded_is_loaded(p: ProcessorModel, outcome: Result<DecodedImage, String>)
    ensures
        match accepted(outcome) {
            Ok(image) => outcome matches Ok(given) && image == given@ && image.wf()
                && image.is_loaded() && p.after_load_decoded(outcome).image == image,
            Err(_) => p.after_load_decoded(outcome).image == p.image,
        },
        outcome is Err ==> accepted(outcome) is Err,
{
}

/// A stream that is cut off before the second byte, or that starts with a
/// byte that no signature starts with, tells no container.
pub proof fn lemma_malformed_header(bytes: Seq<u8>)
    requires
        bytes.len() < 2 || (bytes[0] != 0x89 && bytes[0] != 0xff && bytes[0] != 0x47 && bytes[0]
            != 0x42 && bytes[0] != 0x52),
    ensures
        container_of(bytes) is None,
{
    if bytes.len() >= 2 {
        let first = bytes[0];
        assert(bytes.subrange(0, 8)[0] == first || bytes.len() < 8);
        assert(bytes.subrange(0, 3)[0] == first || bytes.len() < 3);
        assert(bytes.subrange(0, 6)[0] == first || bytes.len() < 6);
        assert(bytes.subrange(0, 2)[0] == first);
        assert(bytes.subrange(0, 4)[0] == first || bytes.len() < 4);
    }
}

/// A clone and its source are apart. The run takes a clone, clips the clone,
/// then resizes the source. Afterwards the clone is what the clip makes of
/// the state at the time of cloning, whatever was done to the source since,
/// and the source is what the resize makes of that state, whatever was done
/// to the clone. Where the clone cannot be had, the source is as it was.
pub fn clone_then_transform(
    source: &mut UnimageProcessor,
    x: i32,
    y: i32,
    width: i32,
    height: i32,
    new_width: i32,
    new_height: i32,
) -> (copy: Option<UnimageProcessor>)
    requires
        old(source).wf(),
    ensures
        final(source).wf(),
        match copy {
            Some(c) => c.wf() && c@ == old(source)@.after_clip(
                x as int,
                y as int,
                width as int,
                height as int,
            ) && final(source)@ == old(source)@.after_resize(new_width as int, new_height as int),
            None => final(source)@ == old(source)@,
        },
        old(source)@.image.bytes.len() == 0 ==> copy is Some,
{
    match source.try_clone() {
        Ok(mut copy) => {
            let _ = copy.clip(x, y, width, height);
            let _ = source.resize(new_width, new_height);
            Some(copy)
        },
        Err(_) => None,
    }
}

} // verus!
