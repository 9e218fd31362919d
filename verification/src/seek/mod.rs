pub mod compression;

use vstd::prelude::*;

use crate::error::Error;
use crate::level::Level;

verus! {

use crate::seek::compression::Format;
use crate::seek::compression::ReadSeek;
use crate::seek::compression::WriteSeek;

/// Find the block-container format of a seekable stream. The
/// seventeen-byte window is read and the stream is seeked back, so
/// it comes back with unchanged contents at its original position.
pub fn sniff<T: ReadSeek>(in_stream: T) -> (r: Result<(T, Format), Error>)
    requires
        in_stream.wf(),
    ensures
        in_stream.spec_data().len() - in_stream.spec_pos() >= 17 ==> (r matches Ok(p) && {
            &&& p.0.wf()
            &&& p.0.spec_data() == in_stream.spec_data()
            &&& p.0.spec_pos() == in_stream.spec_pos()
            &&& p.1 == compression::spec_classify_seek(
                in_stream.spec_data().subrange(in_stream.spec_pos(), in_stream.spec_pos() + 17),
            )
        }),
        in_stream.spec_data().len() - in_stream.spec_pos() < 17 ==> (r matches Err(e) && e is FileTooShort),
{
    let mut in_stream = in_stream;
    let first_bytes = match crate::utils::get_first_bytes(&mut in_stream) {
        Ok(b) => b,
        Err(e) => {
            return Err(e);
        },
    };
    let format = compression::bytes2type(first_bytes);
    Ok((in_stream, format))
}

/// Open a seekable stream for transparent reading. Only `No` can be
/// read through at present: the block-gzip format is detected but has
/// no decoder wired in, so it is refused even though `sniff`
/// recognizes it.
pub fn get_reader<T: ReadSeek>(in_stream: T) -> (r: Result<(T, Format), Error>)
    requires
        in_stream.wf(),
    ensures
        in_stream.spec_data().len() - in_stream.spec_pos() >= 17 ==> {
            let format = compression::spec_classify_seek(
                in_stream.spec_data().subrange(in_stream.spec_pos(), in_stream.spec_pos() + 17),
            );
            &&& format is No ==> (r matches Ok(p) && p.0.wf() && p.0.spec_data()
                == in_stream.spec_data() && p.0.spec_pos() == in_stream.spec_pos() && p.1 == Format::No)
            &&& format is BGzip ==> (r matches Err(e) && e is FeatureDisabled)
        },
        in_stream.spec_data().len() - in_stream.spec_pos() < 17 ==> (r matches Err(e) && e is FileTooShort),
{
    let (in_stream, format) = match sniff(in_stream) {
        Ok(p) => p,
        Err(e) => {
            return Err(e);
        },
    };
    match format {
        Format::No => Ok((in_stream, Format::No)),
        Format::BGzip => Err(Error::FeatureDisabled),
    }
}

/// Open a seekable sink for transparent writing. Only `No` can be
/// written through at present: the block-gzip format has no encoder
/// wired in and is refused. No classification happens on the write
/// path.
pub fn get_writer<W: WriteSeek>(out_stream: W, format: Format, _level: Level) -> (r: Result<
    W,
    Error,
>)
    ensures
        format is No ==> (r matches Ok(v) && v.spec_written() == out_stream.spec_written()),
        format is BGzip ==> (r matches Err(e) && e is FeatureDisabled),
{
    match format {
        Format::No => Ok(out_stream),
        Format::BGzip => Err(Error::FeatureDisabled),
    }
}

} // verus!
