use vstd::prelude::*;

use crate::error::Error;
use crate::level::Level;

verus! {

use crate::seek::compression;
use crate::seek::compression::Format;
use crate::seek::compression::ReadSeek;
use crate::seek::compression::WriteSeek;

/// The seekable `sniff`, restricted to streams that can cross a
/// thread boundary: the stream is safe to hand to another thread
/// before or after the call. The contract is that of
/// [`crate::seek::sniff`].
pub fn sniff<T: ReadSeek + Send>(in_stream: T) -> (r: Result<(T, Format), Error>)
    requires
        in_stream.wf(),
    ensures
        in_stream.spec_data().len() - in_stream.spec_pos() >= 17 ==> (r matches Ok(p) && {
            &&& p.0.wf()
            &&& p.0.spec_data() == in_stream.spec_data()
            &&& p.0.spec_pos() == in_stream.spec_pos()
            &&& p.1 == compression::spec_classify_seek(
                in_stream.spec_data().subrange(in_stream.spec_pos(), in_stream.spec_pos() + 17),
            )
        }),
        in_stream.spec_data().len() - in_stream.spec_pos() < 17 ==> (r matches Err(e) && e is FileTooShort),
{
    crate::seek::sniff(in_stream)
}

/// The seekable `get_reader` for thread-transferable streams; the
/// contract is that of [`crate::seek::get_reader`].
pub fn get_reader<T: ReadSeek + Send>(in_stream: T) -> (r: Result<(T, Format), Error>)
    requires
        in_stream.wf(),
    ensures
        in_stream.spec_data().len() - in_stream.spec_pos() >= 17 ==> {
            let format = compression::spec_classify_seek(
                in_stream.spec_data().subrange(in_stream.spec_pos(), in_stream.spec_pos() + 17),
            );
            &&& format is No ==> (r matches Ok(p) && p.0.wf() && p.0.spec_data()
                == in_stream.spec_data() && p.0.spec_pos() == in_stream.spec_pos() && p.1 == Format::No)
            &&& format is BGzip ==> (r matches Err(e) && e is FeatureDisabled)
        },
        in_stream.spec_data().len() - in_stream.spec_pos() < 17 ==> (r matches Err(e) && e is FileTooShort),
{
    crate::seek::get_reader(in_stream)
}

/// The seekable `get_writer` for thread-transferable sinks; the
/// contract is that of [`crate::seek::get_writer`].
pub fn get_writer<W: WriteSeek + Send>(out_stream: W, format: Format, level: Level) -> (r: Result<
    W,
    Error,
>)
    ensures
        format is No ==> (r matches Ok(v) && v.spec_written() == out_stream.spec_written()),
        format is BGzip ==> (r matches Err(e) && e is FeatureDisabled),
{
    crate::seek::get_writer(out_stream, format, level)
}

} // verus!
