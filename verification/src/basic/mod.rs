pub mod compression;

use vstd::prelude::*;

use crate::error::Error;
use crate::level::Level;

verus! {

use crate::basic::compression::Codecs;
use crate::basic::compression::Format;

/// Find the compression format of a stream from its magic number and
/// hand the stream back undisturbed.
///
/// The five peeked bytes are replayed in front of the remainder, so
/// the returned stream holds byte for byte what came in.
pub fn sniff(in_stream: Vec<u8>) -> (r: Result<(Vec<u8>, Format), Error>)
    ensures
        in_stream@.len() >= 5 ==> (r matches Ok(p) && p.0@ == in_stream@ && p.1
            == compression::spec_classify(in_stream@) && compression::spec_classify(p.0@) == p.1),
        in_stream@.len() < 5 ==> (r matches Err(e) && e is FileTooShort),
{
    let ghost incoming = in_stream@;
    let (first_bytes, rest) = match crate::utils::get_first_five(in_stream) {
        Ok(p) => p,
        Err(e) => {
            return Err(e);
        },
    };
    let replayed = crate::utils::replay(&first_bytes, rest);
    let format = compression::bytes2type(first_bytes);
    proof {
        assert(replayed@ =~= incoming);
        assert(first_bytes@ =~= incoming.subrange(0, 5));
    }
    Ok((replayed, format))
}

/// Decode a stream transparently, with an explicit set of enabled
/// codecs. The stream is sniffed first; a stream without a recognized
/// magic number passes through unchanged, a recognized format is
/// decoded by its codec — succeeding exactly when the bytes form a
/// stream that codec accepts — and a recognized format whose codec is
/// not enabled is refused.
pub fn get_reader_with(codecs: Codecs, in_stream: Vec<u8>) -> (r: Result<
    (Vec<u8>, Format),
    Error,
>)
    ensures
        in_stream@.len() < 5 ==> (r matches Err(e) && e is FileTooShort),
        in_stream@.len() >= 5 ==> {
            let format = compression::spec_classify(in_stream@);
            &&& format is No ==> (r matches Ok(p) && p.0@ == in_stream@ && p.1 == Format::No)
            &&& format !is No && !codecs.spec_enabled(format) ==> (r matches Err(e) && e
                is FeatureDisabled)
            &&& format is Gzip && codecs.gz ==> {
                &&& r is Ok <==> compression::gzip_wf(in_stream@)
                &&& r matches Ok(p) ==> p.0@ == compression::gzip_decoded(in_stream@) && p.1
                    == Format::Gzip
                &&& r matches Err(e) ==> e is IOError
            }
            &&& format is Bzip && codecs.bz2 ==> {
                &&& r is Ok <==> compression::bzip2_wf(in_stream@)
                &&& r matches Ok(p) ==> p.0@ == compression::bzip2_decoded(in_stream@) && p.1
                    == Format::Bzip
                &&& r matches Err(e) ==> e is IOError
            }
            &&& format is Lzma && codecs.lzma ==> {
                &&& r is Ok <==> compression::xz_wf(in_stream@)
                &&& r matches Ok(p) ==> p.0@ == compression::xz_decoded(in_stream@) && p.1
                    == Format::Lzma
                &&& r matches Err(e) ==> e is IOError
            }
            &&& format is Zstd && codecs.zstd ==> {
                &&& r is Ok <==> compression::zstd_wf(in_stream@)
                &&& r matches Ok(p) ==> p.0@ == compression::zstd_decoded(in_stream@) && p.1
                    == Format::Zstd
                &&& r matches Err(e) ==> e is IOError
            }
        },
{
    let (in_stream, format) = match sniff(in_stream) {
        Ok(p) => p,
        Err(e) => {
            return Err(e);
        },
    };
    match format {
        Format::Gzip => {
            if codecs.gz {
                match compression::gz_decode(&in_stream) {
                    Ok(v) => Ok((v, Format::Gzip)),
                    Err(e) => Err(e),
                }
            } else {
                Err(Error::FeatureDisabled)
            }
        },
        Format::Bzip => {
            if codecs.bz2 {
                match compression::bz2_decode(&in_stream) {
                    Ok(v) => Ok((v, Format::Bzip)),
                    Err(e) => Err(e),
                }
            } else {
                Err(Error::FeatureDisabled)
            }
        },
        Format::Lzma => {
            if codecs.lzma {
                match compression::xz_decode(&in_stream) {
                    Ok(v) => Ok((v, Format::Lzma)),
                    Err(e) => Err(e),
                }
            } else {
                Err(Error::FeatureDisabled)
            }
        },
        Format::Zstd => {
            if codecs.zstd {
                match compression::zstd_decode(&in_stream) {
                    Ok(v) => Ok((v, Format::Zstd)),
                    Err(e) => Err(e),
                }
            } else {
                Err(Error::FeatureDisabled)
            }
        },
        Format::No => Ok((in_stream, Format::No)),
    }
}

/// Decode a stream transparently with every codec enabled, returning
/// the decoded bytes and the format that was detected. Decoding a
/// recognized format succeeds exactly when the bytes form a stream
/// its codec accepts — in particular on everything `get_writer`
/// produces.
pub fn get_reader(in_stream: Vec<u8>) -> (r: Result<(Vec<u8>, Format), Error>)
    ensures
        in_stream@.len() < 5 ==> (r matches Err(e) && e is FileTooShort),
        in_stream@.len() >= 5 ==> {
            let format = compression::spec_classify(in_stream@);
            &&& format is No ==> (r matches Ok(p) && p.0@ == in_stream@ && p.1 == Format::No)
            &&& format is Gzip ==> {
                &&& r is Ok <==> compression::gzip_wf(in_stream@)
                &&& r matches Ok(p) ==> p.0@ == compression::gzip_decoded(in_stream@) && p.1
                    == Format::Gzip
                &&& r matches Err(e) ==> e is IOError
            }
            &&& format is Bzip ==> {
                &&& r is Ok <==> compression::bzip2_wf(in_stream@)
                &&& r matches Ok(p) ==> p.0@ == compression::bzip2_decoded(in_stream@) && p.1
                    == Format::Bzip
                &&& r matches Err(e) ==> e is IOError
            }
            &&& format is Lzma ==> {
                &&& r is Ok <==> compression::xz_wf(in_stream@)
                &&& r matches Ok(p) ==> p.0@ == compression::xz_decoded(in_stream@) && p.1
                    == Format::Lzma
                &&& r matches Err(e) ==> e is IOError
            }
            &&& format is Zstd ==> {
                &&& r is Ok <==> compression::zstd_wf(in_stream@)
                &&& r matches Ok(p) ==> p.0@ == compression::zstd_decoded(in_stream@) && p.1
                    == Format::Zstd
                &&& r matches Err(e) ==> e is IOError
            }
        },
{
    get_reader_with(Codecs::all(), in_stream)
}

/// Encode a payload for the requested format and level, with an
/// explicit set of enabled codecs. `No` passes the payload through
/// unchanged; a format whose codec is not enabled is refused. The
/// write path never classifies, so it never reports a short stream.
///
/// The contract carries the round trip: what an enabled codec
/// produces is re-detected as its format, is accepted by that codec's
/// decoder, and decodes back to the payload.
pub fn get_writer_with(codecs: Codecs, out_stream: Vec<u8>, format: Format, level: Level) -> (r:
    Result<Vec<u8>, Error>)
    ensures
        format is No ==> (r matches Ok(v) && v@ == out_stream@),
        format !is No && !codecs.spec_enabled(format) ==> (r matches Err(e) && e
            is FeatureDisabled),
        format is Gzip && codecs.gz ==> (r matches Ok(v) && v@ == compression::gzip_encoded(
            out_stream@,
            compression::spec_gz_level(level),
        ) && v@.len() >= 5 && compression::spec_classify(v@) == Format::Gzip
            && compression::gzip_wf(v@) && compression::gzip_decoded(v@) == out_stream@),
        format is Bzip && codecs.bz2 ==> (r matches Ok(v) && v@ == compression::bzip2_encoded(
            out_stream@,
            compression::spec_bz2_level(level),
        ) && v@.len() >= 5 && compression::spec_classify(v@) == Format::Bzip
            && compression::bzip2_wf(v@) && compression::bzip2_decoded(v@) == out_stream@),
        format is Lzma && codecs.lzma ==> (r matches Ok(v) && v@ == compression::xz_encoded(
            out_stream@,
            compression::spec_xz_level(level),
        ) && v@.len() >= 5 && compression::spec_classify(v@) == Format::Lzma
            && compression::xz_wf(v@) && compression::xz_decoded(v@) == out_stream@),
        format is Zstd && codecs.zstd ==> (r matches Ok(v) && v@ == compression::zstd_encoded(
            out_stream@,
            compression::spec_zstd_level(level),
        ) && v@.len() >= 5 && compression::spec_classify(v@) == Format::Zstd
            && compression::zstd_wf(v@) && compression::zstd_decoded(v@) == out_stream@),
{
    match format {
        Format::Gzip => {
            if codecs.gz {
                Ok(compression::gz_encode(&out_stream, compression::gz_level(level)))
            } else {
                Err(Error::FeatureDisabled)
            }
        },
        Format::Bzip => {
            if codecs.bz2 {
                Ok(compression::bz2_encode(&out_stream, compression::bz2_level(level)))
            } else {
                Err(Error::FeatureDisabled)
            }
        },
        Format::Lzma => {
            if codecs.lzma {
                Ok(compression::xz_encode(&out_stream, compression::xz_level(level)))
            } else {
                Err(Error::FeatureDisabled)
            }
        },
        Format::Zstd => {
            if codecs.zstd {
                Ok(compression::zstd_encode(&out_stream, compression::zstd_level(level)))
            } else {
                Err(Error::FeatureDisabled)
            }
        },
        Format::No => Ok(out_stream),
    }
}

/// Encode a payload for the requested format and level with every
/// codec enabled. The contract carries the round trip: the output is
/// re-detected as its format, is accepted by its codec's decoder, and
/// decodes back to the payload.
pub fn get_writer(out_stream: Vec<u8>, format: Format, level: Level) -> (r: Result<
    Vec<u8>,
    Error,
>)
    ensures
        format is No ==> (r matches Ok(v) && v@ == out_stream@),
        format is Gzip ==> (r matches Ok(v) && v@ == compression::gzip_encoded(
            out_stream@,
            compression::spec_gz_level(level),
        ) && v@.len() >= 5 && compression::spec_classify(v@) == Format::Gzip
            && compression::gzip_wf(v@) && compression::gzip_decoded(v@) == out_stream@),
        format is Bzip ==> (r matches Ok(v) && v@ == compression::bzip2_encoded(
            out_stream@,
            compression::spec_bz2_level(level),
        ) && v@.len() >= 5 && compression::spec_classify(v@) == Format::Bzip
            && compression::bzip2_wf(v@) && compression::bzip2_decoded(v@) == out_stream@),
        format is Lzma ==> (r matches Ok(v) && v@ == compression::xz_encoded(
            out_stream@,
            compression::spec_xz_level(level),
        ) && v@.len() >= 5 && compression::spec_classify(v@) == Format::Lzma
            && compression::xz_wf(v@) && compression::xz_decoded(v@) == out_stream@),
        format is Zstd ==> (r matches Ok(v) && v@ == compression::zstd_encoded(
            out_stream@,
            compression::spec_zstd_level(level),
        ) && v@.len() >= 5 && compression::spec_classify(v@) == Format::Zstd
            && compression::zstd_wf(v@) && compression::zstd_decoded(v@) == out_stream@),
{
    get_writer_with(Codecs::all(), out_stream, format, level)
}

} // verus!
