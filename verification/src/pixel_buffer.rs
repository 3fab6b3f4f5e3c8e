//! The pixel buffer: a byte vector with the extent and the format that say
//! how to read it.

use vstd::prelude::*;
use vstd::slice::slice_to_vec;
use crate::error::{failed_with, UnimageError, UnimageErrorKind};
use crate::format::UnimageFormat;
use crate::image::{extent_bytes, lemma_extent_bound, ImageModel};
use crate::text::{decimal, push_signed, push_unsigned};

verus! {

/// Whether a buffer of this extent can be made: neither side is negative,
/// there is a pixel format, and the bytes can be addressed.
pub open spec fn valid_extent(width: int, height: int, format: UnimageFormat) -> bool {
    &&& width >= 0
    &&& height >= 0
    &&& format != UnimageFormat::Absent
    &&& extent_bytes(width, height, format) <= isize::MAX
}

/// The message for an extent of which no buffer can be made. It names the
/// first of the conditions of `valid_extent` that fails.
pub open spec fn invalid_extent_text(width: int, height: int, format: UnimageFormat) -> Seq<char> {
    if width < 0 {
        "width must not be negative, but is "@ + decimal(width)
    } else if height < 0 {
        "height must not be negative, but is "@ + decimal(height)
    } else if format == UnimageFormat::Absent {
        "pixel format must be RGB or RGBA"@
    } else {
        "an image of "@ + decimal(width) + " x "@ + decimal(height)
            + " pixels takes more bytes than can be addressed"@
    }
}

/// The message for raw pixel data whose length is not what its extent takes.
pub open spec fn size_mismatch_text(
    len: int,
    width: int,
    height: int,
    format: UnimageFormat,
) -> Seq<char> {
    "pixel data of "@ + decimal(len) + " bytes does not match width "@ + decimal(width)
        + ", height "@ + decimal(height) + " at "@ + decimal(format.spec_bytes_per_pixel())
        + " bytes per pixel"@
}

/// The error for an extent of which no buffer can be made.
pub(crate) fn invalid_extent_error(width: i32, height: i32, format: UnimageFormat) -> (e: UnimageError)
    requires
        !valid_extent(width as int, height as int, format),
    ensures
        e.says(
            UnimageErrorKind::InvalidDimensions,
            invalid_extent_text(width as int, height as int, format),
        ),
{
    let mut text = String::new();
    if width < 0 {
        text.append("width must not be negative, but is ");
        push_signed(&mut text, width as i64);
    } else if height < 0 {
        text.append("height must not be negative, but is ");
        push_signed(&mut text, height as i64);
    } else if !format.has_pixels() {
        text.append("pixel format must be RGB or RGBA");
    } else {
        text.append("an image of ");
        push_signed(&mut text, width as i64);
        text.append(" x ");
        push_signed(&mut text, height as i64);
        text.append(" pixels takes more bytes than can be addressed");
    }
    assert(text@ =~= invalid_extent_text(width as int, height as int, format));
    UnimageError::from(UnimageErrorKind::InvalidDimensions, text)
}

/// The error for raw pixel data whose length is not what its extent takes.
pub(crate) fn size_mismatch_error(len: usize, width: i32, height: i32, format: UnimageFormat) -> (e:
    UnimageError)
    ensures
        e.says(
            UnimageErrorKind::SizeMismatch,
            size_mismatch_text(len as int, width as int, height as int, format),
        ),
{
    let mut text = String::new();
    text.append("pixel data of ");
    push_unsigned(&mut text, len as u64);
    text.append(" bytes does not match width ");
    push_signed(&mut text, width as i64);
    text.append(", height ");
    push_signed(&mut text, height as i64);
    text.append(" at ");
    push_unsigned(&mut text, format.bytes_per_pixel() as u64);
    text.append(" bytes per pixel");
    assert(text@ =~= size_mismatch_text(len as int, width as int, height as int, format));
    UnimageError::from(UnimageErrorKind::SizeMismatch, text)
}

/// The product of three factors is bounded as the factors are.
proof fn lemma_product_bound(a: int, b: int, c: int, m: int, n: int)
    by (nonlinear_arith)
    requires
        -m <= a <= m,
        -m <= b <= m,
        0 <= c <= n,
    ensures
        -(m * m * n) <= a * b * c <= m * m * n,
        -(m * m) <= a * b <= m * m,
{
}

/// The number of bytes that an extent takes, which is negative where just one
/// of the sides is.
pub fn extent_size(width: i32, height: i32, format: UnimageFormat) -> (n: i128)
    ensures
        n == extent_bytes(width as int, height as int, format),
{
    let depth = format.bytes_per_pixel() as i128;
    proof {
        lemma_product_bound(width as int, height as int, depth as int, 0x8000_0000, 4);
    }
    (width as i128) * (height as i128) * depth
}

/// `index_mut` of `Vec<u8>` over the full range, `&mut data[..]`. Not proved
/// but taken from std: the slice handed out holds the vector's bytes, and the
/// vector holds afterwards whatever the slice holds when the borrow ends. A
/// slice cannot grow or shrink, so these are as many bytes as before.
#[verifier::external_body]
fn bytes_for_writing(data: &mut Vec<u8>) -> (bytes: &mut [u8])
    ensures
        bytes@ == old(data)@,
        final(data)@ == final(bytes)@,
        final(bytes)@.len() == bytes@.len(),
{
    &mut data[..]
}

/// Owns the bytes of one image, with its width, its height and its format.
pub struct PixelBuffer {
    data: Vec<u8>,
    width: i32,
    height: i32,
    format: UnimageFormat,
}

impl View for PixelBuffer {
    type V = ImageModel;

    closed spec fn view(&self) -> ImageModel {
        ImageModel {
            format: self.format,
            width: self.width as int,
            height: self.height as int,
            bytes: self.data@,
        }
    }
}

impl PixelBuffer {
    /// The invariant: see `ImageModel::wf`.
    pub open spec fn wf(&self) -> bool {
        self@.wf()
    }

    /// A buffer that holds no image.
    pub fn new() -> (buffer: PixelBuffer)
        ensures
            buffer.wf(),
            buffer@ == ImageModel::absent(),
    {
        let buffer = PixelBuffer {
            data: Vec::new(),
            width: 0,
            height: 0,
            format: UnimageFormat::Absent,
        };
        assert(buffer@.bytes =~= Seq::<u8>::empty());
        buffer
    }

    /// Replaces the buffer by one of the given extent, all bytes zero.
    ///
    /// Fails with `InvalidDimensions`, and leaves the buffer as it was, where
    /// the extent is not valid.
    pub fn allocate(&mut self, width: i32, height: i32, format: UnimageFormat) -> (r: Result<
        (),
        UnimageError,
    >)
        requires
            old(self).wf(),
        ensures
            final(self).wf(),
            r is Ok ==> final(self)@.bytes.len() == extent_bytes(width as int, height as int, format),
            valid_extent(width as int, height as int, format) ==> r is Ok && final(self)@
                == ImageModel::zeroed(format, width as int, height as int),
            !valid_extent(width as int, height as int, format) ==> final(self)@ == old(self)@
                && failed_with(
                r,
                UnimageErrorKind::InvalidDimensions,
                invalid_extent_text(width as int, height as int, format),
            ),
    {
        if width < 0 || height < 0 || !format.has_pixels() {
            return Err(invalid_extent_error(width, height, format));
        }
        let size = extent_size(width, height, format);
        if size > isize::MAX as i128 {
            return Err(invalid_extent_error(width, height, format));
        }
        proof {
            lemma_extent_bound(
                width as int,
                height as int,
                format.spec_bytes_per_pixel(),
                width as int,
                height as int,
                format.spec_bytes_per_pixel(),
            );
        }
        let data = vec![0u8; size as usize];
        let ghost zero = ImageModel::zeroed(format, width as int, height as int);
        assert(data@ =~= zero.bytes);
        *self = PixelBuffer { data, width, height, format };
        Ok(())
    }

    /// Says whether pixel data can be adopted with the given extent, and
    /// gives the error where it cannot.
    fn check_adoption(data: &[u8], width: i32, height: i32, format: UnimageFormat) -> (r: Result<
        (),
        UnimageError,
    >)
        ensures
            match Self::adoption_fault(data@, width as int, height as int, format) {
                None => r is Ok,
                Some(kind) => failed_with(
                    r,
                    kind,
                    Self::adoption_fault_text(data@, width as int, height as int, format),
                ),
            },
    {
        let size = extent_size(width, height, format);
        if data.len() as i128 != size {
            return Err(size_mismatch_error(data.len(), width, height, format));
        }
        if width < 0 || height < 0 || !format.has_pixels() || size > isize::MAX as i128 {
            return Err(invalid_extent_error(width, height, format));
        }
        Ok(())
    }

    /// Replaces the buffer by a copy of the given pixel bytes, read with the
    /// given extent.
    ///
    /// Fails with `SizeMismatch` where the data is not as long as the extent
    /// says, and with `InvalidDimensions` where it is but the extent is not
    /// valid. A failure leaves the buffer as it was.
    pub fn adopt_raw(&mut self, data: &[u8], width: i32, height: i32, format: UnimageFormat) -> (r:
        Result<(), UnimageError>)
        requires
            old(self).wf(),
        ensures
            final(self).wf(),
            match Self::adoption_fault(data@, width as int, height as int, format) {
                None => r is Ok && final(self)@ == (ImageModel {
                    format,
                    width: width as int,
                    height: height as int,
                    bytes: data@,
                }),
                Some(kind) => final(self)@ == old(self)@ && failed_with(
                    r,
                    kind,
                    Self::adoption_fault_text(data@, width as int, height as int, format),
                ),
            },
    {
        match Self::check_adoption(data, width, height, format) {
            Ok(()) => {
                let bytes = slice_to_vec(data);
                *self = PixelBuffer { data: bytes, width, height, format };
                Ok(())
            },
            Err(e) => Err(e),
        }
    }

    /// Makes a buffer of the given pixel bytes, which it takes over, read
    /// with the given extent. It fails as `adopt_raw` does.
    pub fn from_pixels(data: Vec<u8>, width: i32, height: i32, format: UnimageFormat) -> (r: Result<
        PixelBuffer,
        UnimageError,
    >)
        ensures
            match Self::adoption_fault(data@, width as int, height as int, format) {
                None => r matches Ok(buffer) && buffer.wf() && buffer@ == (ImageModel {
                    format,
                    width: width as int,
                    height: height as int,
                    bytes: data@,
                }),
                Some(kind) => failed_with(
                    r,
                    kind,
                    Self::adoption_fault_text(data@, width as int, height as int, format),
                ),
            },
    {
        match Self::check_adoption(data.as_slice(), width, height, format) {
            Ok(()) => Ok(PixelBuffer { data, width, height, format }),
            Err(e) => Err(e),
        }
    }

    /// Why raw pixel data cannot be adopted, if it cannot.
    pub open spec fn adoption_fault(
        data: Seq<u8>,
        width: int,
        height: int,
        format: UnimageFormat,
    ) -> Option<UnimageErrorKind> {
        if data.len() != extent_bytes(width, height, format) {
            Some(UnimageErrorKind::SizeMismatch)
        } else if !valid_extent(width, height, format) {
            Some(UnimageErrorKind::InvalidDimensions)
        } else {
            None
        }
    }

    /// The message that goes with `adoption_fault`.
    pub open spec fn adoption_fault_text(
        data: Seq<u8>,
        width: int,
        height: int,
        format: UnimageFormat,
    ) -> Seq<char> {
        if data.len() != extent_bytes(width, height, format) {
            size_mismatch_text(data.len() as int, width, height, format)
        } else {
            invalid_extent_text(width, height, format)
        }
    }

    /// Replaces the buffer by the given bytes, read with the given extent.
    pub(crate) fn install(&mut self, data: Vec<u8>, width: i32, height: i32, format: UnimageFormat)
        requires
            (ImageModel { format, width: width as int, height: height as int, bytes: data@ }).wf(),
        ensures
            final(self).wf(),
            final(self)@ == (ImageModel {
                format,
                width: width as int,
                height: height as int,
                bytes: data@,
            }),
    {
        *self = PixelBuffer { data, width, height, format };
    }

    /// The bytes held, for writing. The extent and the format stay; the
    /// bytes are afterwards what was written.
    pub fn as_bytes_mut(&mut self) -> (bytes: &mut [u8])
        requires
            old(self).wf(),
        ensures
            bytes@ == old(self)@.bytes,
            final(bytes)@.len() == bytes@.len(),
            final(self).wf(),
            final(self)@ == (ImageModel { bytes: final(bytes)@, ..old(self)@ }),
    {
        bytes_for_writing(&mut self.data)
    }

    /// A buffer with the same image, in the given storage, whose former
    /// contents are dropped.
    pub fn duplicate_into(&self, storage: Vec<u8>) -> (copy: PixelBuffer)
        requires
            self.wf(),
        ensures
            copy.wf(),
            copy@ == self@,
    {
        let mut data = storage;
        data.clear();
        data.extend_from_slice(self.data.as_slice());
        assert(data@ =~= self.data@);
        PixelBuffer { data, width: self.width, height: self.height, format: self.format }
    }

    /// The number of bytes held: width times height times bytes per pixel,
    /// which is 0 where no image is loaded.
    pub fn byte_size(&self) -> (n: usize)
        requires
            self.wf(),
        ensures
            n == extent_bytes(self@.width, self@.height, self@.format),
            n == self@.bytes.len(),
            !self@.is_loaded() ==> n == 0,
    {
        self.data.len()
    }

    /// The width in pixels, 0 where no image is loaded.
    pub fn width(&self) -> (w: i32)
        ensures
            w == self@.width,
    {
        self.width
    }

    /// The height in pixels, 0 where no image is loaded.
    pub fn height(&self) -> (h: i32)
        ensures
            h == self@.height,
    {
        self.height
    }

    /// The pixel format, `Absent` where no image is loaded.
    pub fn format(&self) -> (f: UnimageFormat)
        ensures
            f == self@.format,
    {
        self.format
    }

    /// The bytes held, for reading.
    pub fn as_bytes(&self) -> (bytes: &[u8])
        ensures
            bytes@ == self@.bytes,
    {
        self.data.as_slice()
    }
}

} // verus!
