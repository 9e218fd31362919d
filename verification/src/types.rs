use vstd::prelude::*;

verus! {

/// The error taxonomy of this crate's older dispatch interface, kept
/// for backward compatibility. It does not wrap underlying I/O
/// failures, so only the two dispatch errors exist here.
#[derive(Debug, Clone, Copy, PartialEq, Eq, Structural)]
pub enum NifflerError {
    /// The codec for the requested or detected format is not enabled.
    FeatureDisabled,
    /// The stream holds fewer bytes than the classification window needs.
    FileTooShort,
}

/// The compression level of the older dispatch interface, 1 through
/// 9. A codec with fewer gradations collapses it: the lowest level
/// maps to the codec's fastest tier, the highest to its
/// best-compression tier, the rest to its default.
#[derive(Debug, Clone, Copy, PartialEq, Eq, Structural)]
pub enum CompressionLevel {
    One,
    Two,
    Three,
    Four,
    Five,
    Six,
    Seven,
    Eight,
    Nine,
}

/// The numeric value of a compression level: `One` is 1, `Nine` is 9.
pub open spec fn spec_compression_level_value(level: CompressionLevel) -> int {
    match level {
        CompressionLevel::One => 1,
        CompressionLevel::Two => 2,
        CompressionLevel::Three => 3,
        CompressionLevel::Four => 4,
        CompressionLevel::Five => 5,
        CompressionLevel::Six => 6,
        CompressionLevel::Seven => 7,
        CompressionLevel::Eight => 8,
        CompressionLevel::Nine => 9,
    }
}

impl vstd::std_specs::convert::FromSpecImpl<CompressionLevel> for u32 {
    open spec fn obeys_from_spec() -> bool {
        true
    }

    open spec fn from_spec(level: CompressionLevel) -> u32 {
        spec_compression_level_value(level) as u32
    }
}

impl From<CompressionLevel> for u32 {
    fn from(level: CompressionLevel) -> (r: u32)
        ensures
            r == spec_compression_level_value(level),
    {
        match level {
            CompressionLevel::One => 1,
            CompressionLevel::Two => 2,
            CompressionLevel::Three => 3,
            CompressionLevel::Four => 4,
            CompressionLevel::Five => 5,
            CompressionLevel::Six => 6,
            CompressionLevel::Seven => 7,
            CompressionLevel::Eight => 8,
            CompressionLevel::Nine => 9,
        }
    }
}

/// The bzip2 tier for a compression level: bzip2 exposes three
/// settings, so the lowest level maps to its fastest (native 1), the
/// highest to its best compression (native 9), and every level in
/// between to its default (native 6).
pub open spec fn spec_bzip2_tier(level: CompressionLevel) -> u32 {
    match level {
        CompressionLevel::One => 1,
        CompressionLevel::Nine => 9,
        _ => 6,
    }
}

/// Exec counterpart of [`spec_bzip2_tier`].
pub fn bzip2_tier(level: CompressionLevel) -> (r: u32)
    ensures
        r == spec_bzip2_tier(level),
{
    match level {
        CompressionLevel::One => 1,
        CompressionLevel::Nine => 9,
        _ => 6,
    }
}

} // verus!
