use vstd::prelude::*;

verus! {

/// `Format` is the block-container format of a seekable stream:
/// `BGzip` for the block-gzip container, or `No`.
#[derive(Debug, Clone, Copy, PartialEq, Eq, Structural)]
pub enum Format {
    BGzip,
    No,
}

/// The 17-byte header that identifies the first block of a block-gzip
/// container.
pub open spec fn spec_bgzip_header() -> Seq<u8> {
    seq![
        0x1fu8,
        0x8bu8,
        0x08u8,
        0x04u8,
        0x00u8,
        0x00u8,
        0x00u8,
        0x00u8,
        0x00u8,
        0xffu8,
        0x06u8,
        0x00u8,
        0x42u8,
        0x43u8,
        0x02u8,
        0x00u8,
        0x00u8,
    ]
}

/// The format that the seventeen leading bytes of a seekable stream
/// identify: an exact match of the block-gzip header, or `No`. A
/// single exact check, since only one seekable format is recognized.
pub open spec fn spec_classify_seek(bytes: Seq<u8>) -> Format
    recommends
        bytes.len() >= 17,
{
    if bytes.subrange(0, 17) == spec_bgzip_header() {
        Format::BGzip
    } else {
        Format::No
    }
}

/// Classify a seventeen-byte block-format prefix.
pub fn bytes2type(bytes: [u8; 17]) -> (r: Format)
    ensures
        r == spec_classify_seek(bytes@),
{
    let r = if bytes[0] == 0x1f && bytes[1] == 0x8b && bytes[2] == 0x08 && bytes[3] == 0x04
        && bytes[4] == 0x00 && bytes[5] == 0x00 && bytes[6] == 0x00 && bytes[7] == 0x00
        && bytes[8] == 0x00 && bytes[9] == 0xff && bytes[10] == 0x06 && bytes[11] == 0x00
        && bytes[12] == 0x42 && bytes[13] == 0x43 && bytes[14] == 0x02 && bytes[15] == 0x00
        && bytes[16] == 0x00 {
        Format::BGzip
    } else {
        Format::No
    };
    proof {
        assert(bytes@.subrange(0, 17) =~= bytes@);
        if r is BGzip {
            assert(bytes@ =~= spec_bgzip_header());
        } else if bytes@ == spec_bgzip_header() {
            assert(bytes@[0] == 0x1fu8 && bytes@[1] == 0x8bu8 && bytes@[2] == 0x08u8 && bytes@[3]
                == 0x04u8 && bytes@[4] == 0x00u8 && bytes@[5] == 0x00u8 && bytes@[6] == 0x00u8
                && bytes@[7] == 0x00u8 && bytes@[8] == 0x00u8 && bytes@[9] == 0xffu8 && bytes@[10]
                == 0x06u8 && bytes@[11] == 0x00u8 && bytes@[12] == 0x42u8 && bytes@[13] == 0x43u8
                && bytes@[14] == 0x02u8 && bytes@[15] == 0x00u8 && bytes@[16] == 0x00u8);
        }
    }
    r
}

/// An owned, seekable byte stream: the whole contents plus a read
/// position. Reads serve bytes at the position; seeking moves the
/// position without touching the contents.
pub struct SeekableBytes {
    data: Vec<u8>,
    pos: usize,
}

/// The capability the seekable classification path needs from a
/// stream: read bytes at the position and seek to a given offset.
/// Types with this capability can be sniffed without losing their
/// contents, their position or their seekability.
pub trait ReadSeek: Sized {
    /// The full contents of the stream, independent of the position.
    spec fn spec_data(&self) -> Seq<u8>;

    /// The current read position.
    spec fn spec_pos(&self) -> int;

    /// The position never runs past the end of the contents.
    open spec fn wf(&self) -> bool {
        0 <= self.spec_pos() <= self.spec_data().len()
    }

    /// The current position, as a stream offset.
    fn position(&self) -> (r: usize)
        ensures
            r == self.spec_pos(),
    ;

    /// The total length of the contents.
    fn len(&self) -> (r: usize)
        ensures
            r == self.spec_data().len(),
    ;

    /// How many bytes remain between the position and the end.
    fn remaining(&self) -> (r: usize)
        requires
            self.wf(),
        ensures
            r == self.spec_data().len() - self.spec_pos(),
    ;

    /// The byte at the position, which moves forward by one.
    fn read_byte(&mut self) -> (r: u8)
        requires
            old(self).wf(),
            old(self).spec_pos() < old(self).spec_data().len(),
        ensures
            final(self).wf(),
            final(self).spec_data() == old(self).spec_data(),
            final(self).spec_pos() == old(self).spec_pos() + 1,
            r == old(self).spec_data()[old(self).spec_pos()],
    ;

    /// Move the position to the offset `pos`.
    fn seek_to(&mut self, pos: usize)
        requires
            pos <= old(self).spec_data().len(),
        ensures
            final(self).wf(),
            final(self).spec_data() == old(self).spec_data(),
            final(self).spec_pos() == pos,
    ;
}

/// The capability the seekable write path needs from a sink. That
/// path only passes a sink through or refuses the format, so all it
/// asks for is a view of what the sink holds.
pub trait WriteSeek: Sized {
    /// The bytes the sink holds.
    spec fn spec_written(&self) -> Seq<u8>;
}

impl WriteSeek for Vec<u8> {
    closed spec fn spec_written(&self) -> Seq<u8> {
        self@
    }
}

impl ReadSeek for SeekableBytes {
    closed spec fn spec_data(&self) -> Seq<u8> {
        self.data@
    }

    closed spec fn spec_pos(&self) -> int {
        self.pos as int
    }

    fn position(&self) -> (r: usize) {
        self.pos
    }

    fn len(&self) -> (r: usize) {
        self.data.len()
    }

    fn remaining(&self) -> (r: usize) {
        self.data.len() - self.pos
    }

    fn read_byte(&mut self) -> (r: u8) {
        let len = self.data.len();
        let b = self.data[self.pos];
        proof {
            assert(self.pos < len);
        }
        self.pos = self.pos + 1;
        b
    }

    fn seek_to(&mut self, pos: usize) {
        self.pos = pos;
    }
}

impl SeekableBytes {
    /// A stream over `data`, positioned at its start.
    pub fn new(data: Vec<u8>) -> (r: SeekableBytes)
        ensures
            r.wf(),
            r.spec_data() == data@,
            r.spec_pos() == 0,
    {
        SeekableBytes { data, pos: 0 }
    }

    /// The byte at offset `i` of the contents; reading by offset does
    /// not move the position.
    pub fn get(&self, i: usize) -> (r: u8)
        requires
            i < self.spec_data().len(),
        ensures
            r == self.spec_data()[i as int],
    {
        self.data[i]
    }

    /// Rewind the position to the start of the stream.
    pub fn seek_start(&mut self)
        ensures
            final(self).wf(),
            final(self).spec_data() == old(self).spec_data(),
            final(self).spec_pos() == 0,
    {
        self.pos = 0;
    }

    /// Move the position forward by `n` bytes.
    pub fn advance(&mut self, n: usize)
        requires
            old(self).wf(),
            old(self).spec_pos() + n <= old(self).spec_data().len(),
        ensures
            final(self).wf(),
            final(self).spec_data() == old(self).spec_data(),
            final(self).spec_pos() == old(self).spec_pos() + n,
    {
        let len = self.data.len();
        proof {
            assert(self.pos + n <= len);
        }
        self.pos = self.pos + n;
    }

    /// Give the contents back, consuming the stream.
    pub fn into_vec(self) -> (r: Vec<u8>)
        ensures
            r@ == self.spec_data(),
    {
        self.data
    }
}

} // verus!
