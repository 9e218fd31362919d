pub mod compression;

use vstd::prelude::*;

use crate::error::Error;
use crate::level::Level;

verus! {

use crate::basic::compression::spec_classify;
use crate::basic::compression::Codecs;
use crate::basic::compression::Format;

/// `sniff` for streams that cross a thread boundary. The owned byte
/// stream is safe to hand to another thread before or after the call;
/// the contract is that of [`crate::basic::sniff`].
pub fn sniff(in_stream: Vec<u8>) -> (r: Result<(Vec<u8>, Format), Error>)
    ensures
        in_stream@.len() >= 5 ==> (r matches Ok(p) && p.0@ == in_stream@ && p.1 == spec_classify(
            in_stream@,
        ) && spec_classify(p.0@) == p.1),
        in_stream@.len() < 5 ==> (r matches Err(e) && e is FileTooShort),
{
    let ghost incoming = in_stream@;
    let (first_bytes, rest) = match crate::utils::get_first_five(in_stream) {
        Ok(p) => p,
        Err(e) => {
            return Err(e);
        },
    };
    let replayed = crate::utils::replay(&first_bytes, rest);
    let format = compression::bytes2type(first_bytes);
    proof {
        assert(replayed@ =~= incoming);
        assert(first_bytes@ =~= incoming.subrange(0, 5));
    }
    Ok((replayed, format))
}

/// `get_reader` for thread-transferable streams; the contract is that
/// of [`crate::basic::get_reader`], so both variants return the same
/// result on the same bytes.
pub fn get_reader(in_stream: Vec<u8>) -> (r: Result<(Vec<u8>, Format), Error>)
    ensures
        in_stream@.len() < 5 ==> (r matches Err(e) && e is FileTooShort),
        in_stream@.len() >= 5 ==> {
            let format = spec_classify(in_stream@);
            &&& format is No ==> (r matches Ok(p) && p.0@ == in_stream@ && p.1 == Format::No)
            &&& format is Gzip ==> {
                &&& r is Ok <==> crate::basic::compression::gzip_wf(in_stream@)
                &&& r matches Ok(p) ==> p.0@ == crate::basic::compression::gzip_decoded(
                    in_stream@,
                ) && p.1 == Format::Gzip
                &&& r matches Err(e) ==> e is IOError
            }
            &&& format is Bzip ==> {
                &&& r is Ok <==> crate::basic::compression::bzip2_wf(in_stream@)
                &&& r matches Ok(p) ==> p.0@ == crate::basic::compression::bzip2_decoded(
                    in_stream@,
                ) && p.1 == Format::Bzip
                &&& r matches Err(e) ==> e is IOError
            }
            &&& format is Lzma ==> {
                &&& r is Ok <==> crate::basic::compression::xz_wf(in_stream@)
                &&& r matches Ok(p) ==> p.0@ == crate::basic::compression::xz_decoded(in_stream@)
                    && p.1 == Format::Lzma
                &&& r matches Err(e) ==> e is IOError
            }
            &&& format is Zstd ==> {
                &&& r is Ok <==> crate::basic::compression::zstd_wf(in_stream@)
                &&& r matches Ok(p) ==> p.0@ == crate::basic::compression::zstd_decoded(
                    in_stream@,
                ) && p.1 == Format::Zstd
                &&& r matches Err(e) ==> e is IOError
            }
        },
{
    crate::basic::get_reader(in_stream)
}

/// `get_writer` for thread-transferable sinks; the contract is that
/// of [`crate::basic::get_writer`], so both variants produce the same
/// encoded bytes for the same payload.
pub fn get_writer(out_stream: Vec<u8>, format: Format, level: Level) -> (r: Result<
    Vec<u8>,
    Error,
>)
    ensures
        format is No ==> (r matches Ok(v) && v@ == out_stream@),
        format is Gzip ==> (r matches Ok(v) && v@ == crate::basic::compression::gzip_encoded(
            out_stream@,
            crate::basic::compression::spec_gz_level(level),
        ) && v@.len() >= 5 && spec_classify(v@) == Format::Gzip
            && crate::basic::compression::gzip_wf(v@)
            && crate::basic::compression::gzip_decoded(v@) == out_stream@),
        format is Bzip ==> (r matches Ok(v) && v@ == crate::basic::compression::bzip2_encoded(
            out_stream@,
            crate::basic::compression::spec_bz2_level(level),
        ) && v@.len() >= 5 && spec_classify(v@) == Format::Bzip
            && crate::basic::compression::bzip2_wf(v@)
            && crate::basic::compression::bzip2_decoded(v@) == out_stream@),
        format is Lzma ==> (r matches Ok(v) && v@ == crate::basic::compression::xz_encoded(
            out_stream@,
            crate::basic::compression::spec_xz_level(level),
        ) && v@.len() >= 5 && spec_classify(v@) == Format::Lzma
            && crate::basic::compression::xz_wf(v@) && crate::basic::compression::xz_decoded(v@)
            == out_stream@),
        format is Zstd ==> (r matches Ok(v) && v@ == crate::basic::compression::zstd_encoded(
            out_stream@,
            crate::basic::compression::spec_zstd_level(level),
        ) && v@.len() >= 5 && spec_classify(v@) == Format::Zstd
            && crate::basic::compression::zstd_wf(v@)
            && crate::basic::compression::zstd_decoded(v@) == out_stream@),
{
    crate::basic::get_writer(out_stream, format, level)
}

} // verus!
