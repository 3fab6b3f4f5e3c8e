//! Errors, and the slot that keeps the message of the last one.

use vstd::prelude::*;

verus! {

/// Why an operation failed.
#[derive(Clone, Copy, Debug, PartialEq, Eq, Structural)]
pub enum UnimageErrorKind {
    /// A width or a height is out of range, or the extent has no pixel format
    /// or takes more bytes than can be addressed.
    InvalidDimensions,
    /// Raw pixel data is not as long as its extent says.
    SizeMismatch,
    /// Encoded bytes could not be turned into an image.
    DecodeFailed,
    /// The operation needs an image and none is loaded.
    NoImageLoaded,
    /// A rectangle does not lie inside the image.
    OutOfBounds,
    /// The storage for a copy could not be had.
    CloneFailed,
}

/// Error with message.
#[derive(Debug)]
pub struct UnimageError {
    kind: UnimageErrorKind,
    message: String,
}

impl View for UnimageError {
    type V = Seq<char>;

    /// The message of the error.
    closed spec fn view(&self) -> Seq<char> {
        self.message@
    }
}

impl UnimageError {
    /// The kind of the error.
    pub closed spec fn spec_kind(&self) -> UnimageErrorKind {
        self.kind
    }

    /// Whether the error is of the given kind and carries the given message.
    pub open spec fn says(&self, kind: UnimageErrorKind, message: Seq<char>) -> bool {
        self.spec_kind() == kind && self@ == message
    }

    /// Makes an error of a kind and a message.
    pub fn from(kind: UnimageErrorKind, err: String) -> (e: UnimageError)
        ensures
            e.says(kind, err@),
    {
        UnimageError { kind, message: err }
    }

    /// The kind of the error.
    #[verifier::when_used_as_spec(spec_kind)]
    pub fn kind(&self) -> (k: UnimageErrorKind)
        ensures
            k == self.spec_kind(),
    {
        self.kind
    }

    /// The message, borrowed.
    pub fn message(&self) -> (m: &str)
        ensures
            m@ == self@,
    {
        self.message.as_str()
    }

    /// The message as an owned string: what the error displays as.
    pub fn to_string(&self) -> (m: String)
        ensures
            m@ == self@,
    {
        self.message.clone()
    }
}

/// Whether a result is the failure of the given kind with the given message.
pub open spec fn failed_with<T>(
    result: Result<T, UnimageError>,
    kind: UnimageErrorKind,
    message: Seq<char>,
) -> bool {
    result matches Err(e) && e.says(kind, message)
}

/// The message of the last operation that failed.
///
/// It starts empty, every failure overwrites it, and no success clears it.
pub struct ErrorSlot {
    message: String,
}

impl View for ErrorSlot {
    type V = Seq<char>;

    /// The message held.
    closed spec fn view(&self) -> Seq<char> {
        self.message@
    }
}

impl ErrorSlot {
    /// An empty slot.
    pub fn new() -> (slot: ErrorSlot)
        ensures
            slot@ == Seq::<char>::empty(),
    {
        ErrorSlot { message: String::new() }
    }

    /// Overwrites the message with that of `error`.
    pub fn record(&mut self, error: &UnimageError)
        ensures
            final(self)@ == error@,
    {
        self.message = error.to_string();
    }

    /// The message held, which is empty as long as nothing has failed.
    pub fn message(&self) -> (m: String)
        ensures
            m@ == self@,
    {
        self.message.clone()
    }

    /// A slot with the same message.
    pub fn duplicate(&self) -> (slot: ErrorSlot)
        ensures
            slot@ == self@,
    {
        ErrorSlot { message: self.message.clone() }
    }
}

} // verus!
