//! Pixel formats and their byte layout.

use vstd::prelude::*;

verus! {

/// The pixel formats.
///
/// `Absent` says that no image is loaded; the two others say how many bytes a
/// pixel takes.
#[derive(Clone, Copy, Debug, PartialEq, Eq, Structural)]
pub enum UnimageFormat {
    Absent,
    RGB,
    RGBA,
}

impl UnimageFormat {
    /// Bytes per pixel: 3 for `RGB`, 4 for `RGBA`, and 0 where there is no image.
    pub open spec fn spec_bytes_per_pixel(self) -> int {
        match self {
            UnimageFormat::Absent => 0,
            UnimageFormat::RGB => 3,
            UnimageFormat::RGBA => 4,
        }
    }

    /// The stable integer code of the format: 0, 1 or 2.
    pub open spec fn spec_code(self) -> u8 {
        match self {
            UnimageFormat::Absent => 0,
            UnimageFormat::RGB => 1,
            UnimageFormat::RGBA => 2,
        }
    }

    /// The format that an integer code stands for, if it stands for one.
    pub open spec fn spec_from_code(code: u8) -> Option<UnimageFormat> {
        if code == 0 {
            Some(UnimageFormat::Absent)
        } else if code == 1 {
            Some(UnimageFormat::RGB)
        } else if code == 2 {
            Some(UnimageFormat::RGBA)
        } else {
            None
        }
    }

    /// Whether the format describes pixels, that is, whether it is not `Absent`.
    pub open spec fn spec_has_pixels(self) -> bool {
        self != UnimageFormat::Absent
    }

    /// Bytes per pixel, as `spec_bytes_per_pixel` says.
    pub fn bytes_per_pixel(self) -> (n: usize)
        ensures
            n == self.spec_bytes_per_pixel(),
    {
        match self {
            UnimageFormat::Absent => 0,
            UnimageFormat::RGB => 3,
            UnimageFormat::RGBA => 4,
        }
    }

    /// Whether the format describes pixels.
    #[verifier::when_used_as_spec(spec_has_pixels)]
    pub fn has_pixels(self) -> (b: bool)
        ensures
            b == self.spec_has_pixels(),
    {
        match self {
            UnimageFormat::Absent => false,
            _ => true,
        }
    }

    /// The stable integer code of the format.
    #[verifier::when_used_as_spec(spec_code)]
    pub fn code(self) -> (c: u8)
        ensures
            c == self.spec_code(),
    {
        match self {
            UnimageFormat::Absent => 0,
            UnimageFormat::RGB => 1,
            UnimageFormat::RGBA => 2,
        }
    }

    /// Reads a format from its integer code. A code other than 0, 1 and 2
    /// stands for no format, and nothing is returned for it.
    pub fn from_code(code: u8) -> (f: Option<UnimageFormat>)
        ensures
            f == Self::spec_from_code(code),
            f is Some <==> code <= 2,
    {
        if code == 0 {
            Some(UnimageFormat::Absent)
        } else if code == 1 {
            Some(UnimageFormat::RGB)
        } else if code == 2 {
            Some(UnimageFormat::RGBA)
        } else {
            None
        }
    }

    /// Reading back the code of a format gives that format, and every code
    /// that is read as a format is that format's code.
    pub proof fn lemma_code_round_trip(f: UnimageFormat, code: u8)
        ensures
            Self::spec_from_code(f.spec_code()) == Some(f),
            Self::spec_from_code(code) matches Some(g) ==> g.spec_code() == code,
    {
    }
}

} // verus!
