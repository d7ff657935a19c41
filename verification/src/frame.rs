//! The head of an upload: eight bytes that hold the size of the metadata, the
//! most significant byte first, and then the metadata.

use crate::text::{from_utf8_lossy, utf8_lossy, Text};
use vstd::prelude::*;

verus! {

/// The number of bytes that hold the size of the metadata.
pub const SIZE_BYTES: usize = 8;

/// The number whose base-256 digits are `bytes`, the most significant one first.
pub open spec fn big_endian(bytes: Seq<u8>) -> nat
    decreases bytes.len(),
{
    if bytes.len() == 0 {
        0
    } else {
        256 * big_endian(bytes.drop_last()) + bytes.last() as nat
    }
}

/// The size that the first bytes of an upload hold: of the number that stands
/// there, the lower thirty-two bits.
pub open spec fn metadata_size(bytes: Seq<u8>) -> u32 {
    (big_endian(bytes.take(SIZE_BYTES as int)) % 0x1_0000_0000) as u32
}

/// Reads the size of the metadata from the first bytes of an upload.
pub fn get_transfer_request_metadata_size(bytes: &[u8]) -> (r: u32)
    requires
        bytes@.len() >= SIZE_BYTES,
    ensures
        r == metadata_size(bytes@),
{
    let mut value: u64 = 0;
    let mut i: usize = 0;
    assert(bytes@.take(0) =~= Seq::<u8>::empty());
    assert(big_endian(Seq::<u8>::empty()) == 0);
    while i < SIZE_BYTES
        invariant
            i <= SIZE_BYTES <= bytes@.len(),
            value == big_endian(bytes@.take(i as int)),
            i == 0 ==> value < 1,
            i == 1 ==> value < 0x100,
            i == 2 ==> value < 0x1_0000,
            i == 3 ==> value < 0x100_0000,
            i == 4 ==> value < 0x1_0000_0000,
            i == 5 ==> value < 0x100_0000_0000,
            i == 6 ==> value < 0x1_0000_0000_0000,
            i == 7 ==> value < 0x100_0000_0000_0000,
        decreases SIZE_BYTES - i,
    {
        assert(bytes@.take(i + 1).drop_last() =~= bytes@.take(i as int));
        value = value * 256 + bytes[i] as u64;
        i = i + 1;
    }
    (value % 0x1_0000_0000) as u32
}

/// The part of an upload that was received while its head is not complete.
#[derive(Debug, PartialEq)]
pub struct Frame<Bytes = Vec<u8>> {
    /// What was received and not used yet.
    pub buffer: Bytes,
    /// The size of the metadata, once it is known.
    pub size: Option<u32>,
}

impl DeepView for Frame {
    type V = Frame<Seq<u8>>;

    open spec fn deep_view(&self) -> Frame<Seq<u8>> {
        Frame { buffer: self.buffer@, size: self.size }
    }
}

/// What is known of the head of an upload.
#[derive(Debug, PartialEq)]
pub enum Framing<S = String, Bytes = Vec<u8>> {
    /// More has to be received.
    Partial(Frame<Bytes>),
    /// The metadata as text, and the bytes that were received behind it.
    Complete { text: S, leftover: Bytes },
}

impl DeepView for Framing {
    type V = Framing<Text, Seq<u8>>;

    open spec fn deep_view(&self) -> Framing<Text, Seq<u8>> {
        match *self {
            Framing::Partial(frame) => Framing::Partial(frame.deep_view()),
            Framing::Complete { text, leftover } => Framing::Complete {
                text: text@,
                leftover: leftover@,
            },
        }
    }
}

impl Frame<Seq<u8>> {
    /// A frame in which nothing was received.
    pub open spec fn empty() -> Frame<Seq<u8>> {
        Frame { buffer: Seq::empty(), size: None }
    }

    /// What is known of the head when the size is known.
    pub open spec fn sized(buffer: Seq<u8>, size: u32) -> Framing<Text, Seq<u8>> {
        if buffer.len() < size {
            Framing::Partial(Frame { buffer, size: Some(size) })
        } else {
            Framing::Complete {
                text: utf8_lossy(buffer.take(size as int)),
                leftover: buffer.skip(size as int),
            }
        }
    }

    /// What is known of the head when `chunk` was received too.
    pub open spec fn received(self, chunk: Seq<u8>) -> Framing<Text, Seq<u8>> {
        let buffer = self.buffer + chunk;
        match self.size {
            Some(size) => Self::sized(buffer, size),
            None => if buffer.len() < SIZE_BYTES {
                Framing::Partial(Frame { buffer, size: None })
            } else {
                Self::sized(buffer.skip(SIZE_BYTES as int), metadata_size(buffer))
            },
        }
    }
}

impl Frame {
    /// A frame in which nothing was received.
    pub fn new() -> (r: Frame)
        ensures
            r.deep_view() == Frame::empty(),
    {
        let r = Frame { buffer: Vec::new(), size: None };
        assert(r.deep_view().buffer =~= Seq::empty());
        r
    }

    /// Reads the metadata from the buffer once it is there.
    fn get_transfer_request_metadata(buffer: Vec<u8>, size: u32) -> (r: Framing)
        ensures
            r.deep_view() == Frame::sized(buffer@, size),
    {
        let len = size as usize;
        if buffer.len() < len {
            Framing::Partial(Frame { buffer, size: Some(size) })
        } else {
            let mut metadata = buffer;
            let leftover = metadata.split_off(len);
            assert(metadata@ =~= buffer@.take(len as int));
            assert(leftover@ =~= buffer@.skip(len as int));
            Framing::Complete { text: from_utf8_lossy(metadata.as_slice()), leftover }
        }
    }

    /// Takes in the next chunk of an upload.
    pub fn receive(self, chunk: Vec<u8>) -> (r: Framing)
        ensures
            r.deep_view() == self.deep_view().received(chunk@),
    {
        let mut buffer = self.buffer;
        let mut chunk = chunk;
        buffer.append(&mut chunk);
        match self.size {
            Some(size) => Self::get_transfer_request_metadata(buffer, size),
            None => {
                if buffer.len() < SIZE_BYTES {
                    Framing::Partial(Frame { buffer, size: None })
                } else {
                    let size = get_transfer_request_metadata_size(buffer.as_slice());
                    let rest = buffer.split_off(SIZE_BYTES);
                    Self::get_transfer_request_metadata(rest, size)
                }
            },
        }
    }
}

/// All chunks of an upload, one behind the other.
pub open spec fn stream(chunks: Seq<Seq<u8>>) -> Seq<u8>
    decreases chunks.len(),
{
    if chunks.len() == 0 {
        Seq::empty()
    } else {
        stream(chunks.drop_last()) + chunks.last()
    }
}

/// What is known of the head of an upload after all of `chunks`, the last of
/// which may complete it.
pub open spec fn framed(chunks: Seq<Seq<u8>>) -> Option<Framing<Text, Seq<u8>>>
    decreases chunks.len(),
{
    if chunks.len() == 0 {
        Some(Framing::Partial(Frame::empty()))
    } else {
        match framed(chunks.drop_last()) {
            Some(Framing::Partial(frame)) => Some(frame.received(chunks.last())),
            _ => None,
        }
    }
}

/// How an upload is cut into chunks does not matter. The head is complete as
/// soon as the size and that many more bytes are there, whatever chunks they
/// came in; the metadata is what stands behind the size, and what was received
/// behind the metadata is left over.
pub proof fn framing_ignores_chunks(chunks: Seq<Seq<u8>>)
    requires
        framed(chunks) is Some,
    ensures
        ({
            let all = stream(chunks);
            let size = metadata_size(all);
            let complete = all.len() >= SIZE_BYTES && all.len() >= SIZE_BYTES + size;
            &&& framed(chunks)->0 is Complete <==> complete
            &&& complete ==> framed(chunks)->0 == (Framing::<Text, Seq<u8>>::Complete {
                text: utf8_lossy(all.subrange(SIZE_BYTES as int, SIZE_BYTES + size)),
                leftover: all.skip(SIZE_BYTES + size),
            })
            &&& !complete ==> framed(chunks)->0 == (Framing::<Text, Seq<u8>>::Partial(
                if all.len() < SIZE_BYTES {
                    Frame { buffer: all, size: None }
                } else {
                    Frame { buffer: all.skip(SIZE_BYTES as int), size: Some(size) }
                },
            ))
        }),
    decreases chunks.len(),
{
    let all = stream(chunks);
    let size = metadata_size(all);
    if chunks.len() == 0 {
        assert(all =~= Seq::empty());
    } else {
        let before = stream(chunks.drop_last());
        let chunk = chunks.last();
        framing_ignores_chunks(chunks.drop_last());
        assert(all == before + chunk);
        if before.len() >= SIZE_BYTES {
            assert(before.take(SIZE_BYTES as int) =~= all.take(SIZE_BYTES as int));
            assert(before.skip(SIZE_BYTES as int) + chunk =~= all.skip(SIZE_BYTES as int));
        }
        if all.len() >= SIZE_BYTES + size {
            assert(all.skip(SIZE_BYTES as int).take(size as int) =~= all.subrange(
                SIZE_BYTES as int,
                SIZE_BYTES + size,
            ));
            assert(all.skip(SIZE_BYTES as int).skip(size as int) =~= all.skip(SIZE_BYTES + size));
        }
    }
}

} // verus!
