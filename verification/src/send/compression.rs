use vstd::prelude::*;

pub use crate::basic::compression::Format;

verus! {

use crate::basic::compression::spec_classify;

/// Classify a five-byte magic-number prefix, for the
/// thread-transferable dispatch path. Checks the two-byte prefixes
/// before the zstd magic; the magics do not overlap, so the result
/// agrees with the classification of the plain path.
pub fn bytes2type(bytes: [u8; 5]) -> (r: Format)
    ensures
        r == spec_classify(bytes@),
{
    if bytes[0] == 0x1f && bytes[1] == 0x8b {
        Format::Gzip
    } else if bytes[0] == 0x42 && bytes[1] == 0x5a {
        Format::Bzip
    } else if bytes[0] == 0xfd && bytes[1] == 0x37 && bytes[2] == 0x7a && bytes[3] == 0x58
        && bytes[4] == 0x5a {
        Format::Lzma
    } else if bytes[0] == 0x28 && bytes[1] == 0xb5 && bytes[2] == 0x2f && bytes[3] == 0xfd {
        Format::Zstd
    } else {
        Format::No
    }
}

} // verus!
