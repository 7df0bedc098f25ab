//! PCM configuration vocabulary for the sound device.
//!
//! The access and format enumerations mirror the ALSA PCM ABI; each value
//! maps to the numeric code the sound library's C interface expects. The
//! CPU-endian formats carry the codes of their little-endian forms, as on
//! the device's processor.

use vstd::prelude::*;

verus! {

/// PCM access type.
#[derive(Clone, Copy, Debug, PartialEq, Eq, Structural)]
pub enum Access {
    /// MMAP access with simple interleaved channels.
    MmapInterleaved,
    /// MMAP access with simple non interleaved channels.
    MmapNoninterleaved,
    /// MMAP access with complex placement.
    MmapComplex,
    /// Interleaved read/write access.
    RwInterleaved,
    /// Non-interleaved read/write access.
    RwNoninterleaved,
}

/// The ALSA code of an access type.
pub open spec fn spec_access_code(a: Access) -> u32 {
    match a {
        Access::MmapInterleaved => 0,
        Access::MmapNoninterleaved => 1,
        Access::MmapComplex => 2,
        Access::RwInterleaved => 3,
        Access::RwNoninterleaved => 4,
    }
}

impl Access {
    /// The numeric code the PCM interface expects for this access type.
    pub fn alsa_code(self) -> (r: u32)
        ensures
            r == spec_access_code(self),
    {
        match self {
            Access::MmapInterleaved => 0,
            Access::MmapNoninterleaved => 1,
            Access::MmapComplex => 2,
            Access::RwInterleaved => 3,
            Access::RwNoninterleaved => 4,
        }
    }
}

/// PCM sample format.
#[derive(Clone, Copy, Debug, PartialEq, Eq, Structural)]
pub enum Format {
    Unknown,
    S8,
    U8,
    S16Le,
    S16Be,
    U16Le,
    U16Be,
    S24Le,
    S24Be,
    U24Le,
    U24Be,
    S32Le,
    S32Be,
    U32Le,
    U32Be,
    FloatLe,
    FloatBe,
    FloaT64Le,
    FloaT64Be,
    IeC958SubframeLe,
    IeC958SubframeBe,
    MuLaw,
    ALaw,
    ImaAdpcm,
    Mpeg,
    Gsm,
    Special,
    S243Le,
    S243Be,
    U243Le,
    U243Be,
    S203Le,
    S203Be,
    U203Le,
    U203Be,
    S183Le,
    S183Be,
    U183Le,
    U183Be,
    S16,
    U16,
    S24,
    U24,
    S32,
    U32,
    Float,
    FloaT64,
    IeC958Subframe,
}

/// The ALSA code of a sample format; `Unknown` is the one negative code.
pub open spec fn spec_format_code(f: Format) -> i32 {
    match f {
        Format::Unknown => -1i32,
        Format::S8 => 0,
        Format::U8 => 1,
        Format::S16Le => 2,
        Format::S16Be => 3,
        Format::U16Le => 4,
        Format::U16Be => 5,
        Format::S24Le => 6,
        Format::S24Be => 7,
        Format::U24Le => 8,
        Format::U24Be => 9,
        Format::S32Le => 10,
        Format::S32Be => 11,
        Format::U32Le => 12,
        Format::U32Be => 13,
        Format::FloatLe => 14,
        Format::FloatBe => 15,
        Format::FloaT64Le => 16,
        Format::FloaT64Be => 17,
        Format::IeC958SubframeLe => 18,
        Format::IeC958SubframeBe => 19,
        Format::MuLaw => 20,
        Format::ALaw => 21,
        Format::ImaAdpcm => 22,
        Format::Mpeg => 23,
        Format::Gsm => 24,
        Format::Special => 31,
        Format::S243Le => 32,
        Format::S243Be => 33,
        Format::U243Le => 34,
        Format::U243Be => 35,
        Format::S203Le => 36,
        Format::S203Be => 37,
        Format::U203Le => 38,
        Format::U203Be => 39,
        Format::S183Le => 40,
        Format::S183Be => 41,
        Format::U183Le => 42,
        Format::U183Be => 43,
        Format::S16 => 2,
        Format::U16 => 4,
        Format::S24 => 6,
        Format::U24 => 8,
        Format::S32 => 10,
        Format::U32 => 12,
        Format::Float => 14,
        Format::FloaT64 => 16,
        Format::IeC958Subframe => 18,
    }
}

impl Format {
    /// The numeric code the PCM interface expects for this sample format.
    pub fn alsa_code(self) -> (r: i32)
        ensures
            r == spec_format_code(self),
    {
        match self {
            Format::Unknown => -1,
            Format::S8 => 0,
            Format::U8 => 1,
            Format::S16Le => 2,
            Format::S16Be => 3,
            Format::U16Le => 4,
            Format::U16Be => 5,
            Format::S24Le => 6,
            Format::S24Be => 7,
            Format::U24Le => 8,
            Format::U24Be => 9,
            Format::S32Le => 10,
            Format::S32Be => 11,
            Format::U32Le => 12,
            Format::U32Be => 13,
            Format::FloatLe => 14,
            Format::FloatBe => 15,
            Format::FloaT64Le => 16,
            Format::FloaT64Be => 17,
            Format::IeC958SubframeLe => 18,
            Format::IeC958SubframeBe => 19,
            Format::MuLaw => 20,
            Format::ALaw => 21,
            Format::ImaAdpcm => 22,
            Format::Mpeg => 23,
            Format::Gsm => 24,
            Format::Special => 31,
            Format::S243Le => 32,
            Format::S243Be => 33,
            Format::U243Le => 34,
            Format::U243Be => 35,
            Format::S203Le => 36,
            Format::S203Be => 37,
            Format::U203Le => 38,
            Format::U203Be => 39,
            Format::S183Le => 40,
            Format::S183Be => 41,
            Format::U183Le => 42,
            Format::U183Be => 43,
            Format::S16 => 2,
            Format::U16 => 4,
            Format::S24 => 6,
            Format::U24 => 8,
            Format::S32 => 10,
            Format::U32 => 12,
            Format::Float => 14,
            Format::FloaT64 => 16,
            Format::IeC958Subframe => 18,
        }
    }
}

} // verus!
