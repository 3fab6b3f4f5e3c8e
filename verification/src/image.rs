//! The mathematical model of an image: its format, its extent and its bytes,
//! row after row, pixel after pixel, channel after channel.

use vstd::prelude::*;
use crate::format::UnimageFormat;

verus! {

/// What a pixel buffer holds, as plain mathematical values.
pub struct ImageModel {
    pub format: UnimageFormat,
    pub width: int,
    pub height: int,
    pub bytes: Seq<u8>,
}

/// The number of bytes that `width` by `height` pixels of a format take.
pub open spec fn extent_bytes(width: int, height: int, format: UnimageFormat) -> int {
    width * height * format.spec_bytes_per_pixel()
}

/// The position, among the bytes of an image `width` pixels wide with `depth`
/// bytes per pixel, of channel `c` of the pixel in column `x` of row `y`.
pub open spec fn byte_index(width: int, depth: int, x: int, y: int, c: int) -> int {
    (y * width + x) * depth + c
}

/// The bytes of the image `width` by `height` pixels of `depth` bytes each in
/// which channel `c` of the pixel in column `x` of row `y` is `pixel(x, y, c)`.
pub open spec fn raster(
    width: int,
    height: int,
    depth: int,
    pixel: spec_fn(int, int, int) -> u8,
) -> Seq<u8> {
    Seq::new(
        (width * height * depth) as nat,
        |k: int| pixel((k / depth) % width, (k / depth) / width, k % depth),
    )
}

impl ImageModel {
    /// The model of a buffer that holds no image.
    pub open spec fn absent() -> ImageModel {
        ImageModel { format: UnimageFormat::Absent, width: 0, height: 0, bytes: Seq::empty() }
    }

    /// The image of the given extent whose channels are all `pixel(x, y, c)`.
    pub open spec fn of_pixels(
        format: UnimageFormat,
        width: int,
        height: int,
        pixel: spec_fn(int, int, int) -> u8,
    ) -> ImageModel {
        ImageModel {
            format,
            width,
            height,
            bytes: raster(width, height, format.spec_bytes_per_pixel(), pixel),
        }
    }

    /// The image of the given extent whose bytes are all zero.
    pub open spec fn zeroed(format: UnimageFormat, width: int, height: int) -> ImageModel {
        Self::of_pixels(format, width, height, |x: int, y: int, c: int| 0u8)
    }

    /// The invariant of every buffer: the extent is not negative and fits the
    /// integers that report it, there is exactly one byte per channel of each
    /// pixel, the bytes can be addressed, and without a format there is no
    /// extent.
    pub open spec fn wf(self) -> bool {
        &&& 0 <= self.width <= i32::MAX
        &&& 0 <= self.height <= i32::MAX
        &&& self.format == UnimageFormat::Absent ==> self.width == 0 && self.height == 0
        &&& self.bytes.len() == extent_bytes(self.width, self.height, self.format)
        &&& self.bytes.len() <= isize::MAX
    }

    /// Whether an image is loaded.
    pub open spec fn is_loaded(self) -> bool {
        self.format != UnimageFormat::Absent
    }

    /// Bytes per pixel of the image's format.
    pub open spec fn depth(self) -> int {
        self.format.spec_bytes_per_pixel()
    }

    /// Whether column `x` of row `y` lies inside the image.
    pub open spec fn has_pixel(self, x: int, y: int) -> bool {
        0 <= x < self.width && 0 <= y < self.height
    }

    /// Channel `c` of the pixel in column `x` of row `y`.
    pub open spec fn byte_at(self, x: int, y: int, c: int) -> u8 {
        self.bytes[byte_index(self.width, self.depth(), x, y, c)]
    }
}

/// The product of three bounded factors is bounded by the product of the bounds.
pub proof fn lemma_extent_bound(width: int, height: int, depth: int, w: int, h: int, d: int)
    by (nonlinear_arith)
    requires
        0 <= width <= w,
        0 <= height <= h,
        0 <= depth <= d,
    ensures
        0 <= width * height <= w * h,
        0 <= width * height * depth <= w * h * d,
{
}

/// The byte of a channel lies inside the image, and its position gives the
/// column, the row and the channel back.
pub proof fn lemma_byte_index(width: int, height: int, depth: int, x: int, y: int, c: int)
    requires
        0 <= x < width,
        0 <= y < height,
        0 <= c < depth,
    ensures
        0 <= byte_index(width, depth, x, y, c) < width * height * depth,
        byte_index(width, depth, x, y, c) / depth == y * width + x,
        byte_index(width, depth, x, y, c) % depth == c,
        (y * width + x) % width == x,
        (y * width + x) / width == y,
{
    let p = y * width + x;
    let k = p * depth + c;
    assert(0 <= p < width * height) by (nonlinear_arith)
        requires
            p == y * width + x,
            0 <= x < width,
            0 <= y < height,
    ;
    assert(0 <= k < width * height * depth) by (nonlinear_arith)
        requires
            k == p * depth + c,
            0 <= p < width * height,
            0 <= c < depth,
    ;
    vstd::arithmetic::div_mod::lemma_fundamental_div_mod_converse(k, depth, p, c);
    vstd::arithmetic::div_mod::lemma_fundamental_div_mod_converse(p, width, y, x);
}

/// Every position among the bytes of an image is the byte of one channel of
/// one pixel inside it.
pub proof fn lemma_byte_coordinates(width: int, height: int, depth: int, k: int)
    requires
        0 <= width,
        0 <= height,
        0 <= depth,
        0 <= k < width * height * depth,
    ensures
        0 <= (k / depth) % width < width,
        0 <= (k / depth) / width < height,
        0 <= k % depth < depth,
        byte_index(width, depth, (k / depth) % width, (k / depth) / width, k % depth) == k,
{
    assert(width > 0 && depth > 0 && height > 0) by (nonlinear_arith)
        requires
            0 <= width,
            0 <= height,
            0 <= depth,
            0 <= k < width * height * depth,
    ;
    let p = k / depth;
    vstd::arithmetic::div_mod::lemma_fundamental_div_mod(k, depth);
    vstd::arithmetic::div_mod::lemma_mod_bound(k, depth);
    assert(0 <= p < width * height) by (nonlinear_arith)
        requires
            k == depth * p + k % depth,
            0 <= k % depth < depth,
            0 <= k < width * height * depth,
            depth > 0,
    ;
    vstd::arithmetic::div_mod::lemma_fundamental_div_mod(p, width);
    vstd::arithmetic::div_mod::lemma_mod_bound(p, width);
    assert(0 <= p / width < height) by (nonlinear_arith)
        requires
            p == width * (p / width) + p % width,
            0 <= p % width < width,
            0 <= p < width * height,
            width > 0,
    ;
    assert((p / width * width + p % width) * depth + k % depth == k) by (nonlinear_arith)
        requires
            p == width * (p / width) + p % width,
            k == depth * p + k % depth,
    ;
}

/// In a raster, the byte of each channel is what the pixel function says.
pub proof fn lemma_raster_at(
    width: int,
    height: int,
    depth: int,
    pixel: spec_fn(int, int, int) -> u8,
    x: int,
    y: int,
    c: int,
)
    requires
        0 <= x < width,
        0 <= y < height,
        0 <= c < depth,
    ensures
        0 <= byte_index(width, depth, x, y, c) < raster(width, height, depth, pixel).len(),
        raster(width, height, depth, pixel)[byte_index(width, depth, x, y, c)] == pixel(x, y, c),
{
    lemma_byte_index(width, height, depth, x, y, c);
}

impl ImageModel {
    /// The bytes of a well-formed image are the raster of its own channels.
    pub proof fn lemma_raster_of_self(self)
        requires
            self.wf(),
        ensures
            raster(self.width, self.height, self.depth(), |x: int, y: int, c: int| self.byte_at(x, y, c))
                == self.bytes,
    {
        let r = raster(
            self.width,
            self.height,
            self.depth(),
            |x: int, y: int, c: int| self.byte_at(x, y, c),
        );
        assert(r.len() == self.bytes.len());
        assert forall|k: int| 0 <= k < r.len() implies r[k] == self.bytes[k] by {
            lemma_byte_coordinates(self.width, self.height, self.depth(), k);
        }
        assert(r =~= self.bytes);
    }

    /// An image made of a pixel function is well formed and has those pixels.
    pub proof fn lemma_of_pixels(
        format: UnimageFormat,
        width: int,
        height: int,
        pixel: spec_fn(int, int, int) -> u8,
    )
        requires
            format != UnimageFormat::Absent,
            0 <= width <= i32::MAX,
            0 <= height <= i32::MAX,
            extent_bytes(width, height, format) <= isize::MAX,
        ensures
            Self::of_pixels(format, width, height, pixel).wf(),
            forall|x: int, y: int, c: int|
                0 <= x < width && 0 <= y < height && 0 <= c < format.spec_bytes_per_pixel() ==> (
                #[trigger] Self::of_pixels(format, width, height, pixel).byte_at(x, y, c)) == pixel(
                    x,
                    y,
                    c,
                ),
    {
        let depth = format.spec_bytes_per_pixel();
        lemma_extent_bound(width, height, depth, width, height, depth);
        assert forall|x: int, y: int, c: int|
            0 <= x < width && 0 <= y < height && 0 <= c < depth implies (
        #[trigger] Self::of_pixels(format, width, height, pixel).byte_at(x, y, c)) == pixel(
            x,
            y,
            c,
        ) by {
            lemma_raster_at(width, height, depth, pixel, x, y, c);
        }
    }
}

} // verus!
