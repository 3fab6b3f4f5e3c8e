//! The image processor: one pixel buffer and the message of the last
//! failure.

use vstd::prelude::*;
use crate::decoder::{
    accept,
    accepted,
    container_of,
    sniff,
    unrecognized_text,
    ContainerFormat,
    DecodedImage,
};
use crate::error::{failed_with, ErrorSlot, UnimageError, UnimageErrorKind};
use crate::format::UnimageFormat;
use crate::image::ImageModel;
use crate::pixel_buffer::PixelBuffer;
use crate::transformer::{
    clip_fits,
    clipped,
    no_image_text,
    out_of_bounds_text,
    resampled,
    resize_fault_text,
    resize_fits,
};

verus! {

/// What a processor holds, as plain mathematical values: its image and the
/// message of the last operation that failed.
pub struct ProcessorModel {
    pub image: ImageModel,
    pub error: Seq<char>,
}

/// A failure: its kind and its message.
pub type Fault = (UnimageErrorKind, Seq<char>);

/// Whether a result reports the given fault, or success where there is none.
pub open spec fn reports(result: Result<(), UnimageError>, fault: Option<Fault>) -> bool {
    match fault {
        None => result is Ok,
        Some((kind, message)) => failed_with(result, kind, message),
    }
}

impl ProcessorModel {
    /// The state of a new processor: no image, no message.
    pub open spec fn fresh() -> ProcessorModel {
        ProcessorModel { image: ImageModel::absent(), error: Seq::empty() }
    }

    /// The invariant of every processor: that of its image.
    pub open spec fn wf(self) -> bool {
        self.image.wf()
    }

    /// The state after an operation: where it failed, the image is as before
    /// and the message is that of the fault; where it succeeded, the image is
    /// the new one and the message is as before.
    pub open spec fn after(self, fault: Option<Fault>, image: ImageModel) -> ProcessorModel {
        match fault {
            None => ProcessorModel { image, error: self.error },
            Some((_, message)) => ProcessorModel { image: self.image, error: message },
        }
    }

    /// Why raw pixels cannot be loaded, if they cannot.
    pub open spec fn load_raw_fault(
        data: Seq<u8>,
        width: int,
        height: int,
        format: UnimageFormat,
    ) -> Option<Fault> {
        match PixelBuffer::adoption_fault(data, width, height, format) {
            None => None,
            Some(kind) => Some(
                (kind, PixelBuffer::adoption_fault_text(data, width, height, format)),
            ),
        }
    }

    /// The state after raw pixels were loaded, or were refused.
    pub open spec fn after_load_raw(
        self,
        data: Seq<u8>,
        width: int,
        height: int,
        format: UnimageFormat,
    ) -> ProcessorModel {
        self.after(
            Self::load_raw_fault(data, width, height, format),
            ImageModel { format, width, height, bytes: data },
        )
    }

    /// Why the outcome of a codec cannot be loaded, if it cannot.
    pub open spec fn load_decoded_fault(outcome: Result<DecodedImage, String>) -> Option<Fault> {
        match accepted(outcome) {
            Ok(_) => None,
            Err(reason) => Some((UnimageErrorKind::DecodeFailed, reason)),
        }
    }

    /// The state after the outcome of a codec was loaded, or was refused.
    pub open spec fn after_load_decoded(
        self,
        outcome: Result<DecodedImage, String>,
    ) -> ProcessorModel {
        match accepted(outcome) {
            Ok(image) => ProcessorModel { image, error: self.error },
            Err(reason) => ProcessorModel { image: self.image, error: reason },
        }
    }

    /// The fault of a stream whose signature tells no container.
    pub open spec fn unrecognized_fault() -> Option<Fault> {
        Some((UnimageErrorKind::DecodeFailed, unrecognized_text()))
    }

    /// Why the image cannot be resized to `width` by `height`, if it cannot.
    pub open spec fn resize_fault(self, width: int, height: int) -> Option<Fault> {
        if !self.image.is_loaded() {
            Some((UnimageErrorKind::NoImageLoaded, no_image_text()))
        } else if !resize_fits(self.image, width, height) {
            Some(
                (UnimageErrorKind::InvalidDimensions, resize_fault_text(self.image, width, height)),
            )
        } else {
            None
        }
    }

    /// The state after a resize, or after its failure.
    pub open spec fn after_resize(self, width: int, height: int) -> ProcessorModel {
        self.after(self.resize_fault(width, height), resampled(self.image, width, height))
    }

    /// Why the image cannot be clipped to the rectangle, if it cannot.
    pub open spec fn clip_fault(self, x: int, y: int, width: int, height: int) -> Option<Fault> {
        if !self.image.is_loaded() {
            Some((UnimageErrorKind::NoImageLoaded, no_image_text()))
        } else if !clip_fits(self.image, x, y, width, height) {
            Some(
                (
                    UnimageErrorKind::OutOfBounds,
                    out_of_bounds_text(self.image, x, y, width, height),
                ),
            )
        } else {
            None
        }
    }

    /// The state after a clip, or after its failure.
    pub open spec fn after_clip(self, x: int, y: int, width: int, height: int) -> ProcessorModel {
        self.after(self.clip_fault(x, y, width, height), clipped(self.image, x, y, width, height))
    }
}

/// An image processor: it loads an image, resizes it and clips it, and keeps
/// the message of the last of these that failed.
pub struct UnimageProcessor {
    buffer: PixelBuffer,
    error: ErrorSlot,
}

impl View for UnimageProcessor {
    type V = ProcessorModel;

    closed spec fn view(&self) -> ProcessorModel {
        ProcessorModel { image: self.buffer@, error: self.error@ }
    }
}

impl UnimageProcessor {
    /// The invariant: see `ProcessorModel::wf`.
    pub open spec fn wf(&self) -> bool {
        self@.wf()
    }

    /// A new processor: it holds no image and no message.
    pub fn new() -> (processor: UnimageProcessor)
        ensures
            processor.wf(),
            processor@ == ProcessorModel::fresh(),
    {
        UnimageProcessor { buffer: PixelBuffer::new(), error: ErrorSlot::new() }
    }

    /// Records the error of a failed operation and hands it on.
    fn fail(&mut self, error: UnimageError) -> (r: Result<(), UnimageError>)
        ensures
            final(self)@ == (ProcessorModel { image: old(self)@.image, error: error@ }),
            failed_with(r, error.spec_kind(), error@),
    {
        self.error.record(&error);
        Err(error)
    }

    /// Loads raw pixels: the bytes are copied and become the image, read with
    /// the given width, height and format.
    ///
    /// Fails with `SizeMismatch` where the data is not as long as the extent
    /// says, and with `InvalidDimensions` where it is but the extent is not
    /// valid. A failure leaves the image as it was and records its message.
    pub fn load_raw(&mut self, data: &[u8], width: i32, height: i32, format: UnimageFormat) -> (r:
        Result<(), UnimageError>)
        requires
            old(self).wf(),
        ensures
            final(self).wf(),
            final(self)@ == old(self)@.after_load_raw(data@, width as int, height as int, format),
            reports(r, ProcessorModel::load_raw_fault(data@, width as int, height as int, format)),
    {
        match self.buffer.adopt_raw(data, width, height, format) {
            Ok(()) => Ok(()),
            Err(e) => self.fail(e),
        }
    }

    /// Loads raw pixels from a `Vec<u8>`, as `load_raw` does. The vector is
    /// left as it is.
    pub fn load_raw_from_vec(
        &mut self,
        data: &mut Vec<u8>,
        width: i32,
        height: i32,
        format: UnimageFormat,
    ) -> (r: Result<(), UnimageError>)
        requires
            old(self).wf(),
        ensures
            final(data)@ == old(data)@,
            final(self).wf(),
            final(self)@ == old(self)@.after_load_raw(
                old(data)@,
                width as int,
                height as int,
                format,
            ),
            reports(
                r,
                ProcessorModel::load_raw_fault(old(data)@, width as int, height as int, format),
            ),
    {
        self.load_raw(data.as_slice(), width, height, format)
    }

    /// Loads raw pixels from a slice, as `load_raw` does. The slice is left as
    /// it is.
    pub fn load_raw_from_slice(
        &mut self,
        data: &mut [u8],
        width: i32,
        height: i32,
        format: UnimageFormat,
    ) -> (r: Result<(), UnimageError>)
        requires
            old(self).wf(),
        ensures
            final(data)@ == old(data)@,
            final(self).wf(),
            final(self)@ == old(self)@.after_load_raw(
                old(data)@,
                width as int,
                height as int,
                format,
            ),
            reports(
                r,
                ProcessorModel::load_raw_fault(old(data)@, width as int, height as int, format),
            ),
    {
        self.load_raw(data, width, height, format)
    }

    /// Takes in what a codec made of a stream.
    ///
    /// Where the codec gave an image that can be a pixel buffer, it becomes
    /// the image. Else the call fails with `DecodeFailed`, leaves the image as
    /// it was and records the reason: the codec's own, or what is wrong with
    /// the image that it gave.
    pub fn load_decoded(&mut self, outcome: Result<DecodedImage, String>) -> (r: Result<
        (),
        UnimageError,
    >)
        requires
            old(self).wf(),
        ensures
            final(self).wf(),
            final(self)@ == old(self)@.after_load_decoded(outcome),
            reports(r, ProcessorModel::load_decoded_fault(outcome)),
    {
        match accept(outcome) {
            Ok(buffer) => {
                self.buffer = buffer;
                Ok(())
            },
            Err(e) => self.fail(e),
        }
    }

    /// Loads an image from encoded data.
    ///
    /// The container is told by the signature of the data, and `codec` is run
    /// on the container and the data. A stream whose signature tells no
    /// container fails with `DecodeFailed`, and no codec is run on it. Else
    /// the outcome of the codec is taken in as `load_decoded` does. Every
    /// failure leaves the image as it was and records its reason.
    pub fn load<C>(&mut self, data: &[u8], codec: C) -> (r: Result<(), UnimageError>) where
        C: Fn(ContainerFormat, &[u8]) -> Result<DecodedImage, String>,

        requires
            old(self).wf(),
            forall|container: ContainerFormat|
                container_of(data@) == Some(container) ==> call_requires(codec, (container, data)),
        ensures
            final(self).wf(),
            r is Err ==> final(self)@.image == old(self)@.image,
            match container_of(data@) {
                None => final(self)@ == old(self)@.after(
                    ProcessorModel::unrecognized_fault(),
                    old(self)@.image,
                ) && reports(r, ProcessorModel::unrecognized_fault()),
                Some(container) => exists|outcome: Result<DecodedImage, String>|
                    call_ensures(codec, (container, data), outcome) && final(self)@ == old(
                        self,
                    )@.after_load_decoded(outcome) && reports(
                        r,
                        ProcessorModel::load_decoded_fault(outcome),
                    ),
            },
    {
        match sniff(data) {
            None => self.load_decoded(Err(unrecognized_reason())),
            Some(container) => {
                let outcome = codec(container, data);
                let ghost witness = outcome;
                let r = self.load_decoded(outcome);
                assert(call_ensures(codec, (container, data), witness) && self@ == old(
                    self,
                )@.after_load_decoded(witness) && reports(
                    r,
                    ProcessorModel::load_decoded_fault(witness),
                ));
                r
            },
        }
    }

    /// Loads an image from the encoded data in a `Vec<u8>`, as `load` does.
    /// The vector is left as it is.
    pub fn load_from_vec<C>(&mut self, data: &mut Vec<u8>, codec: C) -> (r: Result<
        (),
        UnimageError,
    >) where C: Fn(ContainerFormat, &[u8]) -> Result<DecodedImage, String>
        requires
            old(self).wf(),
            forall|container: ContainerFormat, stream: &[u8]|
                stream@ == old(data)@ && container_of(stream@) == Some(container) ==> call_requires(
                    codec,
                    (container, stream),
                ),
        ensures
            final(data)@ == old(data)@,
            final(self).wf(),
            r is Err ==> final(self)@.image == old(self)@.image,
            match container_of(old(data)@) {
                None => final(self)@ == old(self)@.after(
                    ProcessorModel::unrecognized_fault(),
                    old(self)@.image,
                ) && reports(r, ProcessorModel::unrecognized_fault()),
                Some(container) => exists|stream: &[u8], outcome: Result<DecodedImage, String>|
                    stream@ == old(data)@ && call_ensures(codec, (container, stream), outcome)
                        && final(self)@ == old(self)@.after_load_decoded(outcome) && reports(
                        r,
                        ProcessorModel::load_decoded_fault(outcome),
                    ),
            },
    {
        self.load(data.as_slice(), codec)
    }

    /// Loads an image from the encoded data in a slice, as `load` does. The
    /// slice is left as it is.
    pub fn load_from_slice<C>(&mut self, data: &mut [u8], codec: C) -> (r: Result<
        (),
        UnimageError,
    >) where C: Fn(ContainerFormat, &[u8]) -> Result<DecodedImage, String>
        requires
            old(self).wf(),
            forall|container: ContainerFormat, stream: &[u8]|
                stream@ == old(data)@ && container_of(stream@) == Some(container) ==> call_requires(
                    codec,
                    (container, stream),
                ),
        ensures
            final(data)@ == old(data)@,
            final(self).wf(),
            r is Err ==> final(self)@.image == old(self)@.image,
            match container_of(old(data)@) {
                None => final(self)@ == old(self)@.after(
                    ProcessorModel::unrecognized_fault(),
                    old(self)@.image,
                ) && reports(r, ProcessorModel::unrecognized_fault()),
                Some(container) => exists|stream: &[u8], outcome: Result<DecodedImage, String>|
                    stream@ == old(data)@ && call_ensures(codec, (container, stream), outcome)
                        && final(self)@ == old(self)@.after_load_decoded(outcome) && reports(
                        r,
                        ProcessorModel::load_decoded_fault(outcome),
                    ),
            },
    {
        self.load(data, codec)
    }

    /// The width of the image in pixels, 0 where none is loaded.
    pub fn get_width(&self) -> (w: i32)
        ensures
            w == self@.image.width,
    {
        self.buffer.width()
    }

    /// The height of the image in pixels, 0 where none is loaded.
    pub fn get_height(&self) -> (h: i32)
        ensures
            h == self@.image.height,
    {
        self.buffer.height()
    }

    /// The pixel format of the image, `Absent` where none is loaded.
    pub fn get_format(&self) -> (f: UnimageFormat)
        ensures
            f == self@.image.format,
    {
        self.buffer.format()
    }

    /// The message of the last operation that failed. It is empty as long as
    /// nothing has failed, and a later success does not clear it.
    pub fn get_error_message(&self) -> (m: String)
        ensures
            m@ == self@.error,
    {
        self.error.message()
    }

    /// The pixel buffer, for reading.
    pub fn buffer(&self) -> (b: &PixelBuffer)
        ensures
            b@ == self@.image,
    {
        &self.buffer
    }

    /// Resizes the image to `width` by `height` pixels, each of which is the
    /// nearest pixel of the image.
    ///
    /// Fails with `NoImageLoaded` where no image is loaded, and with
    /// `InvalidDimensions` where one is and the width or the height is less
    /// than 1 or the new image would take more bytes than can be addressed. A
    /// failure leaves the image as it was and records its message.
    pub fn resize(&mut self, width: i32, height: i32) -> (r: Result<(), UnimageError>)
        requires
            old(self).wf(),
        ensures
            final(self).wf(),
            final(self)@ == old(self)@.after_resize(width as int, height as int),
            reports(r, old(self)@.resize_fault(width as int, height as int)),
    {
        match crate::transformer::resize(&mut self.buffer, width, height) {
            Ok(()) => Ok(()),
            Err(e) => self.fail(e),
        }
    }

    /// Clips the image to the rectangle `width` by `height` whose first pixel
    /// is column `x` of row `y`.
    ///
    /// Fails with `NoImageLoaded` where no image is loaded, and with
    /// `OutOfBounds` where one is and the rectangle is empty or does not lie
    /// inside it. A failure leaves the image as it was and records its
    /// message, which gives the rectangle and the extent of the image.
    pub fn clip(&mut self, x: i32, y: i32, width: i32, height: i32) -> (r: Result<
        (),
        UnimageError,
    >)
        requires
            old(self).wf(),
        ensures
            final(self).wf(),
            final(self)@ == old(self)@.after_clip(x as int, y as int, width as int, height as int),
            reports(r, old(self)@.clip_fault(x as int, y as int, width as int, height as int)),
    {
        match crate::transformer::clip(&mut self.buffer, x, y, width, height) {
            Ok(()) => Ok(()),
            Err(e) => self.fail(e),
        }
    }

    /// The bytes of the image, row after row, for reading. Where no image is
    /// loaded there are none.
    pub fn get_buffer(&self) -> (bytes: Option<&[u8]>)
        ensures
            !self@.image.is_loaded() ==> bytes is None,
            self@.image.is_loaded() ==> (bytes matches Some(b) && b@ == self@.image.bytes),
    {
        if self.buffer.format().has_pixels() {
            Some(self.buffer.as_bytes())
        } else {
            None
        }
    }

    /// The bytes of the image, row after row, for writing. Where no image is
    /// loaded there are none. What is written becomes the image's bytes; the
    /// extent, the format and the message stay.
    pub fn get_buffer_as_mut(&mut self) -> (bytes: Option<&mut [u8]>)
        requires
            old(self).wf(),
        ensures
            final(self).wf(),
            !old(self)@.image.is_loaded() ==> bytes is None && final(self)@ == old(self)@,
            old(self)@.image.is_loaded() ==> (bytes matches Some(b) && b@ == old(self)@.image.bytes
                && final(b)@.len() == b@.len() && final(self)@ == (ProcessorModel {
                image: ImageModel { bytes: final(b)@, ..old(self)@.image },
                ..old(self)@
            })),
    {
        if self.buffer.format().has_pixels() {
            Some(self.buffer.as_bytes_mut())
        } else {
            None
        }
    }

    /// Makes the clone for which storage was asked: a processor with the same
    /// image and the same message in storage of its own where the storage
    /// was had, and the failure `CloneFailed`, with the message that the
    /// processor holds, where it was not.
    pub fn clone_with_storage(&self, storage: Option<Vec<u8>>) -> (r: Result<
        UnimageProcessor,
        UnimageError,
    >)
        requires
            self.wf(),
        ensures
            storage is Some ==> (r matches Ok(copy) && copy.wf() && copy@ == self@),
            storage is None ==> failed_with(r, UnimageErrorKind::CloneFailed, self@.error),
    {
        match storage {
            Some(bytes) => Ok(
                UnimageProcessor {
                    buffer: self.buffer.duplicate_into(bytes),
                    error: self.error.duplicate(),
                },
            ),
            None => Err(UnimageError::from(UnimageErrorKind::CloneFailed, self.error.message())),
        }
    }

    /// A copy of the processor and of the image in it.
    ///
    /// The clone has the same image and the same message, and shares no
    /// storage with the processor. Where the storage for the bytes cannot be
    /// had, the call fails with `CloneFailed` and the message that the
    /// processor holds; a processor without bytes needs none and is always
    /// cloned.
    pub fn try_clone(&self) -> (r: Result<UnimageProcessor, UnimageError>)
        requires
            self.wf(),
        ensures
            match r {
                Ok(copy) => copy.wf() && copy@ == self@,
                Err(e) => e.says(UnimageErrorKind::CloneFailed, self@.error),
            },
            self@.image.bytes.len() == 0 ==> r is Ok,
    {
        self.clone_with_storage(reserve_storage(self.buffer.byte_size()))
    }
}

/// Asks for the storage of `bytes` bytes: an empty vector that can take them,
/// or nothing where the allocator refuses. For no bytes nothing is asked of
/// the allocator.
fn reserve_storage(bytes: usize) -> (storage: Option<Vec<u8>>)
    ensures
        bytes == 0 ==> storage is Some,
        storage matches Some(vector) ==> vector@ == Seq::<u8>::empty(),
{
    let mut storage: Vec<u8> = Vec::new();
    if bytes == 0 {
        return Some(storage);
    }
    match storage.try_reserve(bytes) {
        Ok(()) => Some(storage),
        Err(_) => None,
    }
}

/// The reason given for a stream whose signature tells no container.
fn unrecognized_reason() -> (reason: String)
    ensures
        reason@ == unrecognized_text(),
{
    "unrecognized image signature".to_owned()
}

} // verus!
