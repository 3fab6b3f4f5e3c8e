//! Clipping and resizing of a pixel buffer.
//!
//! Both compute the new image into fresh storage and put it in the buffer's
//! place only when it is complete, so that a failure leaves the buffer as it
//! was.

use vstd::prelude::*;
use vstd::slice::slice_subrange;
use crate::error::{failed_with, UnimageError, UnimageErrorKind};
use crate::image::{
    byte_index,
    extent_bytes,
    lemma_byte_coordinates,
    lemma_byte_index,
    lemma_extent_bound,
    raster,
    ImageModel,
};
use crate::pixel_buffer::{extent_size, invalid_extent_error, PixelBuffer};
use crate::text::{decimal, push_signed};

verus! {

/// The message of every operation that needs an image where none is loaded.
pub open spec fn no_image_text() -> Seq<char> {
    "no image is loaded"@
}

/// Whether the rectangle `width` by `height` whose first pixel is column `x`
/// of row `y` has at least one pixel and lies inside the image.
pub open spec fn clip_fits(image: ImageModel, x: int, y: int, width: int, height: int) -> bool {
    &&& x >= 0
    &&& y >= 0
    &&& width >= 1
    &&& height >= 1
    &&& x + width <= image.width
    &&& y + height <= image.height
}

/// The rectangle cut out of an image: its pixel in column `i` of row `j` is
/// the image's pixel in column `x + i` of row `y + j`.
pub open spec fn clipped(image: ImageModel, x: int, y: int, width: int, height: int) -> ImageModel {
    ImageModel::of_pixels(
        image.format,
        width,
        height,
        |i: int, j: int, c: int| image.byte_at(x + i, y + j, c),
    )
}

/// The message for a rectangle that does not lie inside the image: it gives
/// the rectangle and the extent of the image.
pub open spec fn out_of_bounds_text(
    image: ImageModel,
    x: int,
    y: int,
    width: int,
    height: int,
) -> Seq<char> {
    "clip rectangle x="@ + decimal(x) + ", y="@ + decimal(y) + ", width="@ + decimal(width)
        + ", height="@ + decimal(height) + " does not lie inside the image of "@ + decimal(
        image.width,
    ) + " x "@ + decimal(image.height) + " pixels"@
}

/// The error of an operation that needs an image where none is loaded.
pub(crate) fn no_image_error() -> (e: UnimageError)
    ensures
        e.says(UnimageErrorKind::NoImageLoaded, no_image_text()),
{
    let mut text = String::new();
    text.append("no image is loaded");
    assert(text@ =~= no_image_text());
    UnimageError::from(UnimageErrorKind::NoImageLoaded, text)
}

/// The error for a rectangle that does not lie inside the image.
fn out_of_bounds_error(buffer: &PixelBuffer, x: i32, y: i32, width: i32, height: i32) -> (e:
    UnimageError)
    ensures
        e.says(
            UnimageErrorKind::OutOfBounds,
            out_of_bounds_text(buffer@, x as int, y as int, width as int, height as int),
        ),
{
    let mut text = String::new();
    text.append("clip rectangle x=");
    push_signed(&mut text, x as i64);
    text.append(", y=");
    push_signed(&mut text, y as i64);
    text.append(", width=");
    push_signed(&mut text, width as i64);
    text.append(", height=");
    push_signed(&mut text, height as i64);
    text.append(" does not lie inside the image of ");
    push_signed(&mut text, buffer.width() as i64);
    text.append(" x ");
    push_signed(&mut text, buffer.height() as i64);
    text.append(" pixels");
    assert(text@ =~= out_of_bounds_text(
        buffer@,
        x as int,
        y as int,
        width as int,
        height as int,
    ));
    UnimageError::from(UnimageErrorKind::OutOfBounds, text)
}

/// Where row `j` of a rectangle starts and ends among the bytes of the image
/// that it is cut from and among its own.
proof fn lemma_clip_row(image: ImageModel, x: int, y: int, width: int, height: int, j: int)
    requires
        image.wf(),
        image.is_loaded(),
        clip_fits(image, x, y, width, height),
        0 <= j < height,
    ensures
        0 <= (y + j) * image.width,
        0 <= (y + j) * image.width + x <= byte_index(image.width, image.depth(), x, y + j, 0),
        byte_index(image.width, image.depth(), x, y + j, 0) + width * image.depth()
            <= image.bytes.len(),
        0 <= j * (width * image.depth()),
        (j + 1) * (width * image.depth()) == j * (width * image.depth()) + width * image.depth(),
        (j + 1) * (width * image.depth()) <= width * height * image.depth(),
        forall|t: int|
            0 <= t < width * image.depth() ==> (#[trigger] clipped(
                image,
                x,
                y,
                width,
                height,
            ).bytes[j * (width * image.depth()) + t]) == image.bytes[byte_index(
                image.width,
                image.depth(),
                x,
                y + j,
                0,
            ) + t],
{
    let d = image.depth();
    let w = image.width;
    let start = byte_index(w, d, x, y + j, 0);
    lemma_byte_index(w, image.height, d, x, y + j, 0);
    lemma_byte_index(w, image.height, d, x + width - 1, y + j, d - 1);
    assert(byte_index(w, d, x + width - 1, y + j, d - 1) == start + width * d - 1)
        by (nonlinear_arith)
        requires
            start == ((y + j) * w + x) * d + 0,
            byte_index(w, d, x + width - 1, y + j, d - 1) == ((y + j) * w + (x + width - 1)) * d
                + (d - 1),
    ;
    assert(w * image.height * d == image.bytes.len());
    assert(0 <= (y + j) * w && (y + j) * w + x <= ((y + j) * w + x) * d + 0) by (nonlinear_arith)
        requires
            0 <= y + j,
            0 <= x,
            0 <= w,
            d >= 1,
    ;
    assert(0 <= j * (width * d) && (j + 1) * (width * d) == j * (width * d) + width * d && (j + 1)
        * (width * d) <= width * height * d) by (nonlinear_arith)
        requires
            0 <= j < height,
            width >= 1,
            d >= 1,
    ;
    let target = clipped(image, x, y, width, height);
    assert forall|t: int| 0 <= t < width * d implies (#[trigger] target.bytes[j * (width * d) + t])
        == image.bytes[start + t] by {
        let k = j * (width * d) + t;
        assert(0 <= k < width * height * d) by (nonlinear_arith)
            requires
                k == j * (width * d) + t,
                0 <= t < width * d,
                0 <= j < height,
                width >= 1,
                d >= 1,
        ;
        lemma_byte_coordinates(width, height, d, k);
        let i = (k / d) % width;
        let jj = (k / d) / width;
        let c = k % d;
        assert(jj == j && t == i * d + c) by (nonlinear_arith)
            requires
                k == j * (width * d) + t,
                k == (jj * width + i) * d + c,
                0 <= t < width * d,
                0 <= i < width,
                0 <= c < d,
                0 <= j,
                0 <= jj,
        ;
        assert(byte_index(w, d, x + i, y + j, c) == start + t) by (nonlinear_arith)
            requires
                t == i * d + c,
                start == ((y + j) * w + x) * d + 0,
                byte_index(w, d, x + i, y + j, c) == ((y + j) * w + (x + i)) * d + c,
        ;
    }
}

/// Replaces the image by the rectangle `width` by `height` whose first pixel
/// is column `x` of row `y`.
///
/// Fails with `NoImageLoaded` where the buffer holds no image, and with
/// `OutOfBounds` where it holds one and the rectangle is empty or does not lie
/// inside it. A failure leaves the buffer as it was.
pub fn clip(buffer: &mut PixelBuffer, x: i32, y: i32, width: i32, height: i32) -> (r: Result<
    (),
    UnimageError,
>)
    requires
        old(buffer).wf(),
    ensures
        final(buffer).wf(),
        !old(buffer)@.is_loaded() ==> final(buffer)@ == old(buffer)@ && failed_with(
            r,
            UnimageErrorKind::NoImageLoaded,
            no_image_text(),
        ),
        old(buffer)@.is_loaded() && !clip_fits(
            old(buffer)@,
            x as int,
            y as int,
            width as int,
            height as int,
        ) ==> final(buffer)@ == old(buffer)@ && failed_with(
            r,
            UnimageErrorKind::OutOfBounds,
            out_of_bounds_text(old(buffer)@, x as int, y as int, width as int, height as int),
        ),
        old(buffer)@.is_loaded() && clip_fits(
            old(buffer)@,
            x as int,
            y as int,
            width as int,
            height as int,
        ) ==> r is Ok && final(buffer)@ == clipped(
            old(buffer)@,
            x as int,
            y as int,
            width as int,
            height as int,
        ),
{
    let format = buffer.format();
    if !format.has_pixels() {
        return Err(no_image_error());
    }
    if x < 0 || y < 0 || width < 1 || height < 1 || x as i64 + width as i64 > buffer.width() as i64
        || y as i64 + height as i64 > buffer.height() as i64 {
        return Err(out_of_bounds_error(buffer, x, y, width, height));
    }
    let ghost image = buffer@;
    let ghost target = clipped(image, x as int, y as int, width as int, height as int);
    let depth = format.bytes_per_pixel();
    let source_width = buffer.width() as usize;
    proof {
        lemma_extent_bound(
            width as int,
            height as int,
            depth as int,
            image.width,
            image.height,
            depth as int,
        );
        ImageModel::lemma_of_pixels(
            format,
            width as int,
            height as int,
            |i: int, j: int, c: int| image.byte_at(x + i, y + j, c),
        );
        lemma_extent_bound(width as int, 1, depth as int, width as int, height as int, depth as int);
    }
    let total = buffer.byte_size();
    proof {
        assert(width * depth <= total && height * (width * depth) == width * height * depth)
            by (nonlinear_arith)
            requires
                1 <= width <= image.width,
                1 <= height <= image.height,
                1 <= depth,
                total == image.width * image.height * depth,
        ;
    }
    let row_bytes = width as usize * depth;
    let mut data: Vec<u8> = Vec::with_capacity(height as usize * row_bytes);
    let mut j: usize = 0;
    while j < height as usize
        invariant
            buffer.wf(),
            buffer@ == image,
            image.is_loaded(),
            clip_fits(image, x as int, y as int, width as int, height as int),
            target == clipped(image, x as int, y as int, width as int, height as int),
            target.bytes.len() == width * height * depth,
            depth == image.depth(),
            source_width == image.width,
            row_bytes == width * depth,
            height * row_bytes == target.bytes.len(),
            total == image.bytes.len(),
            j <= height,
            j * row_bytes <= target.bytes.len(),
            data@.len() == j * row_bytes,
            data@ == target.bytes.subrange(0, j * row_bytes),
        decreases height - j,
    {
        proof {
            lemma_clip_row(image, x as int, y as int, width as int, height as int, j as int);
        }
        let start = ((y as usize + j) * source_width + x as usize) * depth;
        let row = slice_subrange(buffer.as_bytes(), start, start + row_bytes);
        let ghost before = data@;
        data.extend_from_slice(row);
        proof {
            let next = target.bytes.subrange(0, (j + 1) * row_bytes);
            assert forall|k: int| 0 <= k < next.len() implies data@[k] == next[k] by {
                if k >= before.len() {
                    let t = k - j * row_bytes;
                    assert(target.bytes[j * (width * image.depth()) + t] == image.bytes[start + t]);
                }
            }
            assert(data@ =~= next);
        }
        j += 1;
    }
    assert(data@ =~= target.bytes);
    buffer.install(data, width, height, format);
    Ok(())
}

/// The column of an image `from` pixels wide that column `i` of an image `to`
/// pixels wide takes its pixel from when the one is resized to the other: the
/// nearest to the left. The same holds of rows.
pub open spec fn nearest(i: int, from: int, to: int) -> int {
    i * from / to
}

/// Whether an image can be resized to `width` by `height` pixels: both are at
/// least 1 and the bytes can be addressed.
pub open spec fn resize_fits(image: ImageModel, width: int, height: int) -> bool {
    &&& width >= 1
    &&& height >= 1
    &&& extent_bytes(width, height, image.format) <= isize::MAX
}

/// An image resized to `width` by `height` pixels: each pixel is the nearest
/// pixel of the image, and zero in every channel where the image has no pixel
/// at all.
pub open spec fn resampled(image: ImageModel, width: int, height: int) -> ImageModel {
    ImageModel::of_pixels(
        image.format,
        width,
        height,
        |i: int, j: int, c: int|
            if image.width > 0 && image.height > 0 {
                image.byte_at(nearest(i, image.width, width), nearest(j, image.height, height), c)
            } else {
                0u8
            },
    )
}

/// The message for a size that an image cannot be resized to.
pub open spec fn resize_fault_text(image: ImageModel, width: int, height: int) -> Seq<char> {
    if width < 1 || height < 1 {
        "cannot resize to "@ + decimal(width) + " x "@ + decimal(height)
            + " pixels: width and height must be at least 1"@
    } else {
        crate::pixel_buffer::invalid_extent_text(width, height, image.format)
    }
}

/// The error for a size that an image cannot be resized to.
fn resize_fault_error(buffer: &PixelBuffer, width: i32, height: i32) -> (e: UnimageError)
    requires
        buffer@.is_loaded(),
        !resize_fits(buffer@, width as int, height as int),
    ensures
        e.says(
            UnimageErrorKind::InvalidDimensions,
            resize_fault_text(buffer@, width as int, height as int),
        ),
{
    if width < 1 || height < 1 {
        let mut text = String::new();
        text.append("cannot resize to ");
        push_signed(&mut text, width as i64);
        text.append(" x ");
        push_signed(&mut text, height as i64);
        text.append(" pixels: width and height must be at least 1");
        assert(text@ =~= resize_fault_text(buffer@, width as int, height as int));
        UnimageError::from(UnimageErrorKind::InvalidDimensions, text)
    } else {
        invalid_extent_error(width, height, buffer.format())
    }
}

/// The nearest column lies inside the image that it is taken from.
pub proof fn lemma_nearest_inside(i: int, from: int, to: int)
    requires
        0 <= i < to,
        0 < from,
    ensures
        0 <= i * from,
        0 <= nearest(i, from, to) < from,
{
    let n = i * from;
    assert(0 <= n < from * to) by (nonlinear_arith)
        requires
            n == i * from,
            0 <= i < to,
            0 < from,
    ;
    vstd::arithmetic::div_mod::lemma_fundamental_div_mod(n, to);
    vstd::arithmetic::div_mod::lemma_mod_bound(n, to);
    let q = n / to;
    assert(0 <= q < from) by (nonlinear_arith)
        requires
            n == to * q + n % to,
            0 <= n % to < to,
            0 <= n < from * to,
    ;
}

/// Between images of one width, the nearest column is the column itself.
pub proof fn lemma_nearest_same(i: int, n: int)
    requires
        0 < n,
    ensures
        nearest(i, n, n) == i,
{
    vstd::arithmetic::div_mod::lemma_div_multiples_vanish(i, n);
    assert(i * n == n * i) by (nonlinear_arith);
}

/// Where pixel `i` of row `j` of a resized image is taken from, and where it
/// lies among the bytes.
proof fn lemma_resample_pixel(image: ImageModel, width: int, height: int, i: int, j: int)
    requires
        image.wf(),
        image.is_loaded(),
        image.width > 0,
        image.height > 0,
        0 <= i < width,
        0 <= j < height,
    ensures
        0 <= i * image.width,
        0 <= j * image.height,
        0 <= nearest(i, image.width, width) < image.width,
        0 <= nearest(j, image.height, height) < image.height,
        0 <= nearest(j, image.height, height) * image.width,
        nearest(j, image.height, height) * image.width + nearest(i, image.width, width)
            <= byte_index(
            image.width,
            image.depth(),
            nearest(i, image.width, width),
            nearest(j, image.height, height),
            0,
        ),
        byte_index(
            image.width,
            image.depth(),
            nearest(i, image.width, width),
            nearest(j, image.height, height),
            0,
        ) + image.depth() <= image.bytes.len(),
        0 <= (j * width + i) * image.depth(),
        (j * width + i) * image.depth() + image.depth() <= width * height * image.depth(),
        forall|c: int|
            0 <= c < image.depth() ==> (#[trigger] resampled(image, width, height).bytes[(j * width
                + i) * image.depth() + c]) == image.bytes[byte_index(
                image.width,
                image.depth(),
                nearest(i, image.width, width),
                nearest(j, image.height, height),
                0,
            ) + c],
{
    let d = image.depth();
    let sx = nearest(i, image.width, width);
    let sy = nearest(j, image.height, height);
    lemma_nearest_inside(i, image.width, width);
    lemma_nearest_inside(j, image.height, height);
    lemma_byte_index(image.width, image.height, d, sx, sy, 0);
    lemma_byte_index(image.width, image.height, d, sx, sy, d - 1);
    let start = byte_index(image.width, d, sx, sy, 0);
    assert(0 <= sy * image.width && sy * image.width + sx <= (sy * image.width + sx) * d + 0)
        by (nonlinear_arith)
        requires
            0 <= sy,
            0 <= sx,
            0 < image.width,
            d >= 1,
    ;
    lemma_byte_index(width, height, d, i, j, 0);
    lemma_byte_index(width, height, d, i, j, d - 1);
    let target = resampled(image, width, height);
    assert forall|c: int| 0 <= c < d implies (#[trigger] target.bytes[(j * width + i) * d + c])
        == image.bytes[start + c] by {
        lemma_byte_index(width, height, d, i, j, c);
        assert(byte_index(width, d, i, j, c) == (j * width + i) * d + c);
        assert(byte_index(image.width, d, sx, sy, c) == start + c);
    }
}

/// Replaces the image by one of `width` by `height` pixels in the same
/// format, each pixel of which is the nearest pixel of the image.
///
/// Fails with `NoImageLoaded` where the buffer holds no image, and with
/// `InvalidDimensions` where it holds one and the width or the height is less
/// than 1 or the new image would take more bytes than can be addressed. A
/// failure leaves the buffer as it was.
pub fn resize(buffer: &mut PixelBuffer, width: i32, height: i32) -> (r: Result<(), UnimageError>)
    requires
        old(buffer).wf(),
    ensures
        final(buffer).wf(),
        !old(buffer)@.is_loaded() ==> final(buffer)@ == old(buffer)@ && failed_with(
            r,
            UnimageErrorKind::NoImageLoaded,
            no_image_text(),
        ),
        old(buffer)@.is_loaded() && !resize_fits(old(buffer)@, width as int, height as int)
            ==> final(buffer)@ == old(buffer)@ && failed_with(
            r,
            UnimageErrorKind::InvalidDimensions,
            resize_fault_text(old(buffer)@, width as int, height as int),
        ),
        old(buffer)@.is_loaded() && resize_fits(old(buffer)@, width as int, height as int) ==> r is Ok
            && final(buffer)@ == resampled(old(buffer)@, width as int, height as int),
{
    let format = buffer.format();
    if !format.has_pixels() {
        return Err(no_image_error());
    }
    if width < 1 || height < 1 {
        return Err(resize_fault_error(buffer, width, height));
    }
    let size = extent_size(width, height, format);
    if size > isize::MAX as i128 {
        return Err(resize_fault_error(buffer, width, height));
    }
    let ghost image = buffer@;
    let ghost target = resampled(image, width as int, height as int);
    let depth = format.bytes_per_pixel();
    let source_width = buffer.width() as usize;
    let source_height = buffer.height() as usize;
    let total = buffer.byte_size();
    proof {
        ImageModel::lemma_of_pixels(
            format,
            width as int,
            height as int,
            |i: int, j: int, c: int|
                if image.width > 0 && image.height > 0 {
                    image.byte_at(
                        nearest(i, image.width, width as int),
                        nearest(j, image.height, height as int),
                        c,
                    )
                } else {
                    0u8
                },
        );
    }
    if source_width == 0 || source_height == 0 {
        let data = vec![0u8; size as usize];
        assert(data@ =~= target.bytes);
        buffer.install(data, width, height, format);
        return Ok(());
    }
    let mut data: Vec<u8> = Vec::with_capacity(size as usize);
    let mut i: usize = 0;
    let mut j: usize = 0;
    while j < height as usize
        invariant
            buffer.wf(),
            buffer@ == image,
            image.is_loaded(),
            image.width > 0,
            image.height > 0,
            width >= 1,
            height >= 1,
            target == resampled(image, width as int, height as int),
            target.bytes.len() == width * height * depth,
            target.bytes.len() == size,
            size <= isize::MAX,
            depth == image.depth(),
            source_width == image.width,
            source_height == image.height,
            total == image.bytes.len(),
            j <= height,
            i < width,
            j == height ==> i == 0,
            data@.len() == (j * width + i) * depth,
            data@.len() <= target.bytes.len(),
            data@ == target.bytes.subrange(0, data@.len() as int),
        decreases height - j, width - i,
    {
        proof {
            lemma_resample_pixel(image, width as int, height as int, i as int, j as int);
            lemma_extent_bound(i as int, image.width, 1, 0x7fff_ffff, 0x7fff_ffff, 1);
            lemma_extent_bound(j as int, image.height, 1, 0x7fff_ffff, 0x7fff_ffff, 1);
        }
        let column = (i as u64 * source_width as u64 / width as u64) as usize;
        let row = (j as u64 * source_height as u64 / height as u64) as usize;
        let start = (row * source_width + column) * depth;
        let pixel = slice_subrange(buffer.as_bytes(), start, start + depth);
        let ghost before = data@;
        data.extend_from_slice(pixel);
        proof {
            let next = target.bytes.subrange(0, before.len() + depth);
            assert forall|k: int| 0 <= k < next.len() implies data@[k] == next[k] by {
                if k >= before.len() {
                    let c = k - before.len();
                    assert(target.bytes[(j * width + i) * image.depth() + c] == image.bytes[start
                        + c]);
                }
            }
            assert(data@ =~= next);
            if i + 1 == width {
                assert(((j + 1) * width + 0) * depth == (j * width + i) * depth + depth)
                    by (nonlinear_arith)
                    requires
                        i + 1 == width,
                ;
            }
            assert((j * width + (i + 1)) * depth == (j * width + i) * depth + depth)
                by (nonlinear_arith);
        }
        if i + 1 == width as usize {
            i = 0;
            j += 1;
        } else {
            i += 1;
        }
    }
    assert(data@.len() == target.bytes.len()) by (nonlinear_arith)
        requires
            data@.len() == (j * width + i) * depth,
            j == height,
            i == 0,
            target.bytes.len() == width * height * depth,
    ;
    assert(data@ =~= target.bytes);
    buffer.install(data, width, height, format);
    Ok(())
}

/// A clipped image is well formed, and each of its pixels is the pixel of the
/// image at the same place in the rectangle.
pub proof fn lemma_clipped_pixels(image: ImageModel, x: int, y: int, width: int, height: int)
    requires
        image.wf(),
        image.is_loaded(),
        clip_fits(image, x, y, width, height),
    ensures
        clipped(image, x, y, width, height).wf(),
        clipped(image, x, y, width, height).format == image.format,
        clipped(image, x, y, width, height).width == width,
        clipped(image, x, y, width, height).height == height,
        forall|i: int, j: int, c: int|
            0 <= i < width && 0 <= j < height && 0 <= c < image.depth() ==> (#[trigger] clipped(
                image,
                x,
                y,
                width,
                height,
            ).byte_at(i, j, c)) == image.byte_at(x + i, y + j, c),
{
    lemma_extent_bound(width, height, image.depth(), image.width, image.height, image.depth());
    ImageModel::lemma_of_pixels(
        image.format,
        width,
        height,
        |i: int, j: int, c: int| image.byte_at(x + i, y + j, c),
    );
}

/// A resized image is well formed, and each of its pixels is the nearest
/// pixel of the image.
pub proof fn lemma_resampled_pixels(image: ImageModel, width: int, height: int)
    requires
        image.wf(),
        image.is_loaded(),
        resize_fits(image, width, height),
        width <= i32::MAX,
        height <= i32::MAX,
    ensures
        resampled(image, width, height).wf(),
        resampled(image, width, height).format == image.format,
        resampled(image, width, height).width == width,
        resampled(image, width, height).height == height,
        forall|i: int, j: int, c: int|
            0 <= i < width && 0 <= j < height && 0 <= c < image.depth() && image.width > 0
                && image.height > 0 ==> (#[trigger] resampled(image, width, height).byte_at(i, j, c))
                == image.byte_at(
                nearest(i, image.width, width),
                nearest(j, image.height, height),
                c,
            ) && image.has_pixel(
                nearest(i, image.width, width),
                nearest(j, image.height, height),
            ),
        forall|i: int, j: int, c: int|
            0 <= i < width && 0 <= j < height && 0 <= c < image.depth() && (image.width == 0
                || image.height == 0) ==> (#[trigger] resampled(image, width, height).byte_at(
                i,
                j,
                c,
            )) == 0,
{
    ImageModel::lemma_of_pixels(
        image.format,
        width,
        height,
        |i: int, j: int, c: int|
            if image.width > 0 && image.height > 0 {
                image.byte_at(nearest(i, image.width, width), nearest(j, image.height, height), c)
            } else {
                0u8
            },
    );
    assert forall|i: int, j: int, c: int|
        0 <= i < width && 0 <= j < height && 0 <= c < image.depth() && image.width > 0
            && image.height > 0 implies (#[trigger] resampled(image, width, height).byte_at(i, j, c))
        == image.byte_at(nearest(i, image.width, width), nearest(j, image.height, height), c)
        && image.has_pixel(
        nearest(i, image.width, width),
        nearest(j, image.height, height),
    ) by {
        lemma_nearest_inside(i, image.width, width);
        lemma_nearest_inside(j, image.height, height);
    }
}

/// Clipping an image to the rectangle of its whole extent gives the image
/// itself.
pub proof fn lemma_clip_whole(image: ImageModel)
    requires
        image.wf(),
    ensures
        clipped(image, 0, 0, image.width, image.height) == image,
{
    let whole = clipped(image, 0, 0, image.width, image.height);
    image.lemma_raster_of_self();
    assert(whole.bytes =~= raster(
        image.width,
        image.height,
        image.depth(),
        |x: int, y: int, c: int| image.byte_at(x, y, c),
    ));
}

/// Resizing an image to its own width and height gives the image itself.
pub proof fn lemma_resize_same_size(image: ImageModel)
    requires
        image.wf(),
    ensures
        resampled(image, image.width, image.height) == image,
{
    let same = resampled(image, image.width, image.height);
    image.lemma_raster_of_self();
    let own = raster(
        image.width,
        image.height,
        image.depth(),
        |x: int, y: int, c: int| image.byte_at(x, y, c),
    );
    assert(same.bytes.len() == own.len());
    assert forall|k: int| 0 <= k < own.len() implies same.bytes[k] == own[k] by {
        crate::image::lemma_byte_coordinates(image.width, image.height, image.depth(), k);
        lemma_nearest_same((k / image.depth()) % image.width, image.width);
        lemma_nearest_same((k / image.depth()) / image.width, image.height);
    }
    assert(same.bytes =~= own);
}

} // verus!
