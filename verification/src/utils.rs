use vstd::prelude::*;

use crate::error::Error;
use crate::seek::compression::ReadSeek;

verus! {

/// Read the five-byte classification window off the front of a
/// stream. The window and the consumed remainder come back together;
/// a stream of fewer than five bytes is rejected as too short, the
/// only failure mode of the peek step.
pub fn get_first_five(in_stream: Vec<u8>) -> (r: Result<([u8; 5], Vec<u8>), Error>)
    ensures
        in_stream@.len() >= 5 ==> (r matches Ok(p) && p.0@ == in_stream@.subrange(0, 5) && p.1@
            == in_stream@.skip(5)),
        in_stream@.len() < 5 ==> (r matches Err(e) && e is FileTooShort),
{
    if in_stream.len() < 5 {
        return Err(Error::FileTooShort);
    }
    let first: [u8; 5] = [
        in_stream[0],
        in_stream[1],
        in_stream[2],
        in_stream[3],
        in_stream[4],
    ];
    let mut rest: Vec<u8> = Vec::new();
    let mut i: usize = 5;
    while i < in_stream.len()
        invariant
            5 <= i <= in_stream@.len(),
            rest@ =~= in_stream@.subrange(5, i as int),
        decreases in_stream@.len() - i,
    {
        rest.push(in_stream[i]);
        i = i + 1;
    }
    proof {
        assert(first@ =~= in_stream@.subrange(0, 5));
        assert(rest@ =~= in_stream@.skip(5));
    }
    Ok((first, rest))
}

/// Chain the peeked prefix back in front of the remainder of the
/// stream: the result replays the prefix, then the rest, so a peek
/// stays invisible to whoever reads the stream afterwards.
pub fn replay(prefix: &[u8; 5], rest: Vec<u8>) -> (r: Vec<u8>)
    ensures
        r@ == prefix@ + rest@,
{
    let mut out: Vec<u8> = Vec::new();
    let mut i: usize = 0;
    while i < 5
        invariant
            0 <= i <= 5,
            out@ =~= prefix@.subrange(0, i as int),
        decreases 5 - i,
    {
        out.push(prefix[i]);
        i = i + 1;
    }
    let mut j: usize = 0;
    while j < rest.len()
        invariant
            0 <= j <= rest@.len(),
            out@ =~= prefix@ + rest@.subrange(0, j as int),
        decreases rest@.len() - j,
    {
        out.push(rest[j]);
        j = j + 1;
    }
    proof {
        assert(out@ =~= prefix@ + rest@);
    }
    out
}

/// Read the seventeen-byte block-format classification window from a
/// seekable stream, then seek the stream back to where it stood: to
/// its caller the contents and the position are untouched. A stream
/// with fewer than seventeen bytes left is rejected as too short, and
/// keeps its position as well.
pub fn get_first_bytes<T: ReadSeek>(in_stream: &mut T) -> (r: Result<[u8; 17], Error>)
    requires
        old(in_stream).wf(),
    ensures
        final(in_stream).wf(),
        final(in_stream).spec_data() == old(in_stream).spec_data(),
        final(in_stream).spec_pos() == old(in_stream).spec_pos(),
        old(in_stream).spec_data().len() - old(in_stream).spec_pos() >= 17 ==> (r matches Ok(b)
            && b@ == old(in_stream).spec_data().subrange(
            old(in_stream).spec_pos(),
            old(in_stream).spec_pos() + 17,
        )),
        old(in_stream).spec_data().len() - old(in_stream).spec_pos() < 17 ==> (r matches Err(e)
            && e is FileTooShort),
{
    if in_stream.remaining() < 17 {
        return Err(Error::FileTooShort);
    }
    let p = in_stream.position();
    let buf: [u8; 17] = [
        in_stream.read_byte(),
        in_stream.read_byte(),
        in_stream.read_byte(),
        in_stream.read_byte(),
        in_stream.read_byte(),
        in_stream.read_byte(),
        in_stream.read_byte(),
        in_stream.read_byte(),
        in_stream.read_byte(),
        in_stream.read_byte(),
        in_stream.read_byte(),
        in_stream.read_byte(),
        in_stream.read_byte(),
        in_stream.read_byte(),
        in_stream.read_byte(),
        in_stream.read_byte(),
        in_stream.read_byte(),
    ];
    in_stream.seek_to(p);
    proof {
        assert(buf@ =~= in_stream.spec_data().subrange(p as int, p + 17));
    }
    Ok(buf)
}

} // verus!

