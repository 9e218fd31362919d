use vstd::prelude::*;

use crate::error::Error;
use crate::level::spec_level_ordinal;
pub use crate::level::Level;
use std::io::Read;
use std::io::Write;

verus! {

/// `Format` is the compression container of a stream: Gzip, Bzip, Lzma
/// (also reachable under its `Xz` alias), Zstd, or `No` for a stream
/// that carries no recognized magic number.
#[derive(Debug, Clone, Copy, PartialEq, Eq, Structural)]
pub enum Format {
    Gzip,
    Bzip,
    Lzma,
    Zstd,
    No,
}

impl Format {
    /// `Xz` is an alias kept for callers who name the format after
    /// the container: it denotes the same tag as `Lzma` and compares
    /// equal to it.
    #[allow(non_upper_case_globals)]
    pub const Xz: Format = Format::Lzma;
}

/// The format that the five leading bytes of a stream identify.
///
/// The full five-byte xz/lzma magic is checked before the shorter
/// prefixes, so no shorter match can shadow it; an unrecognized prefix
/// is `No`, never an error.
pub open spec fn spec_classify(bytes: Seq<u8>) -> Format
    recommends
        bytes.len() >= 5,
{
    if bytes[0] == 0xfdu8 && bytes[1] == 0x37u8 && bytes[2] == 0x7au8 && bytes[3] == 0x58u8
        && bytes[4] == 0x5au8 {
        Format::Lzma
    } else if bytes[0] == 0x1fu8 && bytes[1] == 0x8bu8 {
        Format::Gzip
    } else if bytes[0] == 0x42u8 && bytes[1] == 0x5au8 {
        Format::Bzip
    } else if bytes[0] == 0x28u8 && bytes[1] == 0xb5u8 && bytes[2] == 0x2fu8 && bytes[3]
        == 0xfdu8 {
        Format::Zstd
    } else {
        Format::No
    }
}

/// Classify a five-byte magic-number prefix. Pure and total: every
/// prefix maps to a format, unrecognized ones to `No`.
pub fn bytes2type(bytes: [u8; 5]) -> (r: Format)
    ensures
        r == spec_classify(bytes@),
{
    if bytes[0] == 0xfd && bytes[1] == 0x37 && bytes[2] == 0x7a && bytes[3] == 0x58 && bytes[4]
        == 0x5a {
        Format::Lzma
    } else if bytes[0] == 0x1f && bytes[1] == 0x8b {
        Format::Gzip
    } else if bytes[0] == 0x42 && bytes[1] == 0x5a {
        Format::Bzip
    } else if bytes[0] == 0x28 && bytes[1] == 0xb5 && bytes[2] == 0x2f && bytes[3] == 0xfd {
        Format::Zstd
    } else {
        Format::No
    }
}

/// Classification is a pure function of the prefix: two equal
/// prefixes always classify as the same format, however often and in
/// whatever order the classification runs, and no call leaves state
/// behind that could sway a later one.
pub proof fn lemma_classify_stateless(first: Seq<u8>, second: Seq<u8>)
    requires
        first == second,
    ensures
        spec_classify(first) == spec_classify(second),
{
}

/// A prefix that begins with a supported format's magic number
/// classifies as that format — no magic shadows another, since the
/// magics do not overlap — and a prefix that begins with none of the
/// magic numbers classifies as `No`, never as an error.
pub proof fn lemma_classify_magic(bytes: Seq<u8>)
    requires
        bytes.len() >= 5,
    ensures
        bytes[0] == 0x1fu8 && bytes[1] == 0x8bu8 ==> spec_classify(bytes) == Format::Gzip,
        bytes[0] == 0x42u8 && bytes[1] == 0x5au8 ==> spec_classify(bytes) == Format::Bzip,
        bytes[0] == 0x28u8 && bytes[1] == 0xb5u8 && bytes[2] == 0x2fu8 && bytes[3] == 0xfdu8
            ==> spec_classify(bytes) == Format::Zstd,
        bytes[0] == 0xfdu8 && bytes[1] == 0x37u8 && bytes[2] == 0x7au8 && bytes[3] == 0x58u8
            && bytes[4] == 0x5au8 ==> spec_classify(bytes) == Format::Lzma,
        spec_classify(bytes) is No <==> !((bytes[0] == 0x1fu8 && bytes[1] == 0x8bu8) || (bytes[0]
            == 0x42u8 && bytes[1] == 0x5au8) || (bytes[0] == 0x28u8 && bytes[1] == 0xb5u8
            && bytes[2] == 0x2fu8 && bytes[3] == 0xfdu8) || (bytes[0] == 0xfdu8 && bytes[1]
            == 0x37u8 && bytes[2] == 0x7au8 && bytes[3] == 0x58u8 && bytes[4] == 0x5au8)),
{
}

/// The set of codecs enabled for dispatch. A build may leave codecs
/// out; the enabled set is an explicit value handed to the
/// dispatcher, rather than a compile-time constant, so that the
/// disabled paths stay reachable from one test binary.
#[derive(Debug, Clone, Copy, PartialEq, Eq, Structural)]
pub struct Codecs {
    pub gz: bool,
    pub bz2: bool,
    pub lzma: bool,
    pub zstd: bool,
}

impl Codecs {
    /// Whether the codec for `format` is enabled; `No` needs no codec.
    pub open spec fn spec_enabled(self, format: Format) -> bool {
        match format {
            Format::Gzip => self.gz,
            Format::Bzip => self.bz2,
            Format::Lzma => self.lzma,
            Format::Zstd => self.zstd,
            Format::No => true,
        }
    }

    /// Every codec enabled.
    pub fn all() -> (r: Codecs)
        ensures
            r.gz && r.bz2 && r.lzma && r.zstd,
    {
        Codecs { gz: true, bz2: true, lzma: true, zstd: true }
    }

    /// No codec enabled.
    pub fn none() -> (r: Codecs)
        ensures
            !r.gz && !r.bz2 && !r.lzma && !r.zstd,
    {
        Codecs { gz: false, bz2: false, lzma: false, zstd: false }
    }
}

/// The native gzip level for a `Level`: 0 through 9 map directly, the
/// higher levels collapse onto 9.
pub open spec fn spec_gz_level(level: Level) -> u32 {
    if spec_level_ordinal(level) <= 9 {
        spec_level_ordinal(level) as u32
    } else {
        9
    }
}

/// The native bzip2 level for a `Level`: bzip2 accepts 1 through 9, so
/// `Zero` collapses onto 1 and the levels above `Nine` onto 9.
pub open spec fn spec_bz2_level(level: Level) -> u32 {
    if spec_level_ordinal(level) == 0 {
        1
    } else if spec_level_ordinal(level) <= 9 {
        spec_level_ordinal(level) as u32
    } else {
        9
    }
}

/// The native xz preset for a `Level`: 0 through 9 map directly, the
/// higher levels collapse onto 9.
pub open spec fn spec_xz_level(level: Level) -> u32 {
    if spec_level_ordinal(level) <= 9 {
        spec_level_ordinal(level) as u32
    } else {
        9
    }
}

/// The native zstd level for a `Level`: the whole range 0 through 21
/// maps directly.
pub open spec fn spec_zstd_level(level: Level) -> i32 {
    spec_level_ordinal(level) as i32
}

/// Exec counterpart of [`spec_gz_level`].
pub fn gz_level(level: Level) -> (r: u32)
    ensures
        r == spec_gz_level(level),
{
    let v = u32::from(level);
    if v <= 9 {
        v
    } else {
        9
    }
}

/// Exec counterpart of [`spec_bz2_level`].
pub fn bz2_level(level: Level) -> (r: u32)
    ensures
        r == spec_bz2_level(level),
{
    let v = u32::from(level);
    if v == 0 {
        1
    } else if v <= 9 {
        v
    } else {
        9
    }
}

/// Exec counterpart of [`spec_xz_level`].
pub fn xz_level(level: Level) -> (r: u32)
    ensures
        r == spec_xz_level(level),
{
    let v = u32::from(level);
    if v <= 9 {
        v
    } else {
        9
    }
}

/// Exec counterpart of [`spec_zstd_level`].
pub fn zstd_level(level: Level) -> (r: i32)
    ensures
        r == spec_zstd_level(level),
{
    i32::from(level)
}

/// The gzip stream that flate2 produces for `data` at `level`; a
/// function of the two alone, since flate2 writes a fixed header
/// (mtime 0, operating-system byte 255).
pub uninterp spec fn gzip_encoded(data: Seq<u8>, level: u32) -> Seq<u8>;

/// Whether flate2's gzip decoder accepts `data` whole. The decode
/// wrapper returns Ok exactly on these inputs, and the encoder only
/// ever produces such streams.
pub uninterp spec fn gzip_wf(data: Seq<u8>) -> bool;

/// The bytes that flate2 decodes out of the gzip stream `data`.
pub uninterp spec fn gzip_decoded(data: Seq<u8>) -> Seq<u8>;

/// The bzip2 stream that the bzip2 crate produces for `data` at
/// `level`.
pub uninterp spec fn bzip2_encoded(data: Seq<u8>, level: u32) -> Seq<u8>;

/// Whether the bzip2 decoder accepts `data` whole. The decode
/// wrapper returns Ok exactly on these inputs, and the encoder only
/// ever produces such streams.
pub uninterp spec fn bzip2_wf(data: Seq<u8>) -> bool;

/// The bytes that the bzip2 crate decodes out of the bzip2 stream
/// `data`.
pub uninterp spec fn bzip2_decoded(data: Seq<u8>) -> Seq<u8>;

/// The xz stream that liblzma produces for `data` at preset `level`.
pub uninterp spec fn xz_encoded(data: Seq<u8>, level: u32) -> Seq<u8>;

/// Whether the xz decoder accepts `data` whole. The decode wrapper
/// returns Ok exactly on these inputs, and the encoder only ever
/// produces such streams.
pub uninterp spec fn xz_wf(data: Seq<u8>) -> bool;

/// The bytes that liblzma decodes out of the xz stream `data`.
pub uninterp spec fn xz_decoded(data: Seq<u8>) -> Seq<u8>;

/// The zstd stream that the zstd crate produces for `data` at `level`.
pub uninterp spec fn zstd_encoded(data: Seq<u8>, level: i32) -> Seq<u8>;

/// Whether the zstd decoder accepts `data` whole. The decode
/// wrapper returns Ok exactly on these inputs, and the encoder only
/// ever produces such streams.
pub uninterp spec fn zstd_wf(data: Seq<u8>) -> bool;

/// The bytes that the zstd crate decodes out of the zstd stream
/// `data`.
pub uninterp spec fn zstd_decoded(data: Seq<u8>) -> Seq<u8>;

/// Relies on flate2::write::GzEncoder: its output is a gzip stream
/// determined by the data and the level (the header it writes is
/// fixed: magic 1f 8b, method 8, mtime 0, os byte 255, 10 bytes in
/// all), writing into a Vec cannot fail, and — as the crate
/// documents of its encoder/decoder pair — the gzip decoder accepts
/// the output and decodes it back to the data.
#[verifier::external_body]
pub(crate) fn gz_encode(data: &Vec<u8>, level: u32) -> (r: Vec<u8>)
    requires
        level <= 9,
    ensures
        r@ == gzip_encoded(data@, level),
        r@.len() >= 10,
        r@[0] == 0x1fu8,
        r@[1] == 0x8bu8,
        gzip_wf(r@),
        gzip_decoded(r@) == data@,
{
    let mut encoder = flate2::write::GzEncoder::new(Vec::new(), flate2::Compression::new(level));
    encoder.write_all(data).expect("writing to a Vec cannot fail");
    encoder.finish().expect("writing to a Vec cannot fail")
}

/// Relies on flate2::read::MultiGzDecoder: decodes every member of a
/// gzip stream; whether the input is accepted, and what it decodes
/// to, are functions of the input alone, and a malformed stream is
/// reported as an error, never a panic.
#[verifier::external_body]
pub(crate) fn gz_decode(data: &Vec<u8>) -> (r: Result<Vec<u8>, Error>)
    ensures
        r is Ok <==> gzip_wf(data@),
        r matches Ok(v) ==> v@ == gzip_decoded(data@),
        r matches Err(e) ==> e is IOError,
{
    let mut out = Vec::new();
    match flate2::read::MultiGzDecoder::new(data.as_slice()).read_to_end(&mut out) {
        Ok(_) => Ok(out),
        Err(e) => Err(Error::IOError(e.to_string())),
    }
}

/// Relies on bzip2::write::BzEncoder: its output is a bzip2 stream
/// determined by the data and the level (the stream starts with the
/// magic 42 5a 68 and ends with the stream footer), writing into a
/// Vec cannot fail, and the bzip2 decoder accepts the output and
/// decodes it back to the data. bzip2::Compression::new accepts 1
/// through 9 only.
#[verifier::external_body]
pub(crate) fn bz2_encode(data: &Vec<u8>, level: u32) -> (r: Vec<u8>)
    requires
        1 <= level <= 9,
    ensures
        r@ == bzip2_encoded(data@, level),
        r@.len() >= 10,
        r@[0] == 0x42u8,
        r@[1] == 0x5au8,
        bzip2_wf(r@),
        bzip2_decoded(r@) == data@,
{
    let mut encoder = bzip2::write::BzEncoder::new(Vec::new(), bzip2::Compression::new(level));
    encoder.write_all(data).expect("writing to a Vec cannot fail");
    encoder.finish().expect("writing to a Vec cannot fail")
}

/// Relies on bzip2::read::MultiBzDecoder: decodes every member of a
/// bzip2 multi-stream; whether the input is accepted, and what it
/// decodes to, are functions of the input alone, and a malformed
/// stream is reported as an error.
#[verifier::external_body]
pub(crate) fn bz2_decode(data: &Vec<u8>) -> (r: Result<Vec<u8>, Error>)
    ensures
        r is Ok <==> bzip2_wf(data@),
        r matches Ok(v) ==> v@ == bzip2_decoded(data@),
        r matches Err(e) ==> e is IOError,
{
    let mut out = Vec::new();
    match bzip2::read::MultiBzDecoder::new(data.as_slice()).read_to_end(&mut out) {
        Ok(_) => Ok(out),
        Err(e) => Err(Error::IOError(e.to_string())),
    }
}

/// Relies on liblzma::write::XzEncoder: its output is an xz stream
/// determined by the data and the preset (an xz stream starts with
/// the magic fd 37 7a 58 5a 00 and carries a 12-byte footer), writing
/// into a Vec cannot fail, and the xz decoder accepts the output and
/// decodes it back to the data. Presets 0 through 9 are the valid
/// range.
#[verifier::external_body]
pub(crate) fn xz_encode(data: &Vec<u8>, level: u32) -> (r: Vec<u8>)
    requires
        level <= 9,
    ensures
        r@ == xz_encoded(data@, level),
        r@.len() >= 10,
        r@[0] == 0xfdu8,
        r@[1] == 0x37u8,
        r@[2] == 0x7au8,
        r@[3] == 0x58u8,
        r@[4] == 0x5au8,
        xz_wf(r@),
        xz_decoded(r@) == data@,
{
    let mut encoder = liblzma::write::XzEncoder::new(Vec::new(), level);
    encoder.write_all(data).expect("writing to a Vec cannot fail");
    encoder.finish().expect("writing to a Vec cannot fail")
}

/// Relies on liblzma::read::XzDecoder: decodes an xz stream; whether
/// the input is accepted, and what it decodes to, are functions of
/// the input alone, and a malformed stream is reported as an error.
#[verifier::external_body]
pub(crate) fn xz_decode(data: &Vec<u8>) -> (r: Result<Vec<u8>, Error>)
    ensures
        r is Ok <==> xz_wf(data@),
        r matches Ok(v) ==> v@ == xz_decoded(data@),
        r matches Err(e) ==> e is IOError,
{
    let mut out = Vec::new();
    match liblzma::read::XzDecoder::new(data.as_slice()).read_to_end(&mut out) {
        Ok(_) => Ok(out),
        Err(e) => Err(Error::IOError(e.to_string())),
    }
}

/// Relies on zstd::stream::write::Encoder: its output is a zstd
/// frame determined by the data and the level, starting with the
/// frame magic 28 b5 2f fd. Construction fails only on an invalid
/// compression parameter, which levels 0 through 21 are not (0
/// selects zstd's default), writing into a Vec cannot fail, and the
/// zstd decoder accepts the output and decodes it back to the data.
#[verifier::external_body]
pub(crate) fn zstd_encode(data: &Vec<u8>, level: i32) -> (r: Vec<u8>)
    requires
        0 <= level <= 21,
    ensures
        r@ == zstd_encoded(data@, level),
        r@.len() >= 5,
        r@[0] == 0x28u8,
        r@[1] == 0xb5u8,
        r@[2] == 0x2fu8,
        r@[3] == 0xfdu8,
        zstd_wf(r@),
        zstd_decoded(r@) == data@,
{
    let mut encoder = zstd::stream::write::Encoder::new(Vec::new(), level).expect(
        "levels 0 through 21 are valid",
    );
    encoder.write_all(data).expect("writing to a Vec cannot fail");
    encoder.finish().expect("writing to a Vec cannot fail")
}

/// Relies on zstd::stream::read::Decoder: decodes a zstd stream;
/// whether the input is accepted, and what it decodes to, are
/// functions of the input alone, and a malformed stream is reported
/// as an error.
#[verifier::external_body]
pub(crate) fn zstd_decode(data: &Vec<u8>) -> (r: Result<Vec<u8>, Error>)
    ensures
        r is Ok <==> zstd_wf(data@),
        r matches Ok(v) ==> v@ == zstd_decoded(data@),
        r matches Err(e) ==> e is IOError,
{
    let mut out = Vec::new();
    let mut decoder = match zstd::stream::read::Decoder::new(data.as_slice()) {
        Ok(d) => d,
        Err(e) => return Err(Error::IOError(e.to_string())),
    };
    match decoder.read_to_end(&mut out) {
        Ok(_) => Ok(out),
        Err(e) => Err(Error::IOError(e.to_string())),
    }
}

} // verus!
