use vstd::prelude::*;

verus! {

/// The `Format` of this crate's older dispatch interface, kept for
/// backward compatibility: Gzip, Bzip, Lzma or `No`. That interface
/// has no zstd support, so no zstd tag exists here.
#[derive(Debug, Clone, Copy, PartialEq, Eq, Structural)]
pub enum Format {
    Gzip,
    Bzip,
    Lzma,
    No,
}

/// The `Level` of the older dispatch interface, 1 through 9: 1
/// optimizes the compression time, 9 the size of the output.
#[derive(Debug, Clone, Copy, PartialEq, Eq, Structural)]
pub enum Level {
    One,
    Two,
    Three,
    Four,
    Five,
    Six,
    Seven,
    Eight,
    Nine,
}

/// The numeric value of a level: `One` is 1, `Nine` is 9.
pub open spec fn spec_level_value(level: Level) -> int {
    match level {
        Level::One => 1,
        Level::Two => 2,
        Level::Three => 3,
        Level::Four => 4,
        Level::Five => 5,
        Level::Six => 6,
        Level::Seven => 7,
        Level::Eight => 8,
        Level::Nine => 9,
    }
}

impl vstd::std_specs::convert::FromSpecImpl<Level> for u32 {
    open spec fn obeys_from_spec() -> bool {
        true
    }

    open spec fn from_spec(level: Level) -> u32 {
        spec_level_value(level) as u32
    }
}

impl From<Level> for u32 {
    fn from(level: Level) -> (r: u32)
        ensures
            r == spec_level_value(level),
    {
        match level {
            Level::One => 1,
            Level::Two => 2,
            Level::Three => 3,
            Level::Four => 4,
            Level::Five => 5,
            Level::Six => 6,
            Level::Seven => 7,
            Level::Eight => 8,
            Level::Nine => 9,
        }
    }
}

/// The format that the five leading bytes identify, in this module's
/// tag set: the full xz/lzma magic, the gzip or bzip2 two-byte
/// prefix, or `No`.
pub open spec fn spec_classify(bytes: Seq<u8>) -> Format
    recommends
        bytes.len() >= 5,
{
    if bytes[0] == 0xfdu8 && bytes[1] == 0x37u8 && bytes[2] == 0x7au8 && bytes[3] == 0x58u8
        && bytes[4] == 0x5au8 {
        Format::Lzma
    } else if bytes[0] == 0x1fu8 && bytes[1] == 0x8bu8 {
        Format::Gzip
    } else if bytes[0] == 0x42u8 && bytes[1] == 0x5au8 {
        Format::Bzip
    } else {
        Format::No
    }
}

/// Classify a five-byte prefix by packing it into one big-endian
/// integer and comparing against the magic numbers as numbers.
pub fn bytes2type(bytes: [u8; 5]) -> (r: Format)
    ensures
        r == spec_classify(bytes@),
{
    let b0: u8 = bytes[0];
    let b1: u8 = bytes[1];
    let b2: u8 = bytes[2];
    let b3: u8 = bytes[3];
    let b4: u8 = bytes[4];
    let five_byte_val: u64 = ((b0 as u64) << 32) | ((b1 as u64) << 24) | ((b2 as u64) << 16) | ((
    b3 as u64) << 8) | (b4 as u64);
    proof {
        assert((((b0 as u64) << 32) | ((b1 as u64) << 24) | ((b2 as u64) << 16) | ((b3 as u64)
            << 8) | (b4 as u64)) == 0xFD37_7A58_5Au64 <==> (b0 == 0xfdu8 && b1 == 0x37u8 && b2
            == 0x7au8 && b3 == 0x58u8 && b4 == 0x5au8)) by (bit_vector);
    }
    if five_byte_val == 0xFD37_7A58_5A {
        return Format::Lzma;
    }
    let two_byte_val: u64 = ((b0 as u64) << 8) | (b1 as u64);
    proof {
        assert((((b0 as u64) << 8) | (b1 as u64)) == 0x1F8Bu64 <==> (b0 == 0x1fu8 && b1
            == 0x8bu8)) by (bit_vector);
        assert((((b0 as u64) << 8) | (b1 as u64)) == 0x425Au64 <==> (b0 == 0x42u8 && b1
            == 0x5au8)) by (bit_vector);
    }
    if two_byte_val == 0x1F8B {
        Format::Gzip
    } else if two_byte_val == 0x425A {
        Format::Bzip
    } else {
        Format::No
    }
}

} // verus!
