//! The block buffer and the cursor that walks it message by message.
//!
//! A [`Framer`] owns one buffer of fixed capacity, sized when the file is
//! opened and filled anew by every block. It does no reading of its own:
//! whoever drives it reads the stream and hands over what came, first the
//! four bytes of a length prefix, then the block they announce. The framer
//! decides what the bytes mean and what is to be read next.

use crate::codec::{unpickle, unpickled};
use crate::endian::{le_i32, read_i32};
use crate::error::ReadError;
use crate::wire::{Message, MessageHeader, HEADER_LEN};
use vstd::prelude::*;

verus! {

/// The length of the prefix before the buffer capacity and before each
/// block.
pub const PREFIX_LEN: usize = 4;

/// What a framer holds, as far as its answers depend on it.
pub struct FramerView {
    /// The fixed size of the buffer.
    pub capacity: nat,
    /// The decoded bytes of the current block.
    pub block: Seq<u8>,
    /// The offset in `block` of the next header.
    pub cursor: nat,
    /// The bytes of the message that the last step returned, empty where it
    /// returned none.
    pub message: Seq<u8>,
    /// Whether the stream has ended, cleanly or by an error.
    pub finished: bool,
}

/// The length that a prefix announces: the first four bytes of `prefix` as
/// a signed little-endian number. No bytes at all are the clean end of the
/// stream; fewer than four are a stream cut short.
pub open spec fn announced(prefix: Seq<u8>) -> Result<Option<usize>, ReadError> {
    if prefix.len() == 0 {
        Ok(None)
    } else if prefix.len() < PREFIX_LEN {
        Err(ReadError::TruncatedInput)
    } else if le_i32(prefix.take(4)) <= 0 {
        Err(ReadError::Format)
    } else {
        Ok(Some(le_i32(prefix.take(4)) as usize))
    }
}

/// What stands at the cursor of a block that is not yet used up.
pub enum Frame {
    /// A message, with its header.
    Message(MessageHeader),
    /// A header with size zero: the rest of the block is unused.
    Sentinel,
    /// No room for a header, or a size smaller than a header or larger than
    /// what is left of the block.
    Malformed,
}

/// Reads the frame at the front of `rest`, the bytes from the cursor to the
/// end of the block.
pub open spec fn frame_at(rest: Seq<u8>) -> Frame {
    match MessageHeader::parsed(rest) {
        None => Frame::Malformed,
        Some(header) => if header.size == 0 {
            Frame::Sentinel
        } else if header.size < HEADER_LEN || header.size > rest.len() {
            Frame::Malformed
        } else {
            Frame::Message(header)
        },
    }
}

/// The block that a buffer of `capacity` bytes takes in when the stream
/// gave `available` for the `length` bytes asked of it. The block is the
/// first `length` bytes; fewer are a stream cut short. The block must
/// decode, and to no more than the buffer holds.
pub open spec fn decoded_block(capacity: nat, length: usize, available: Seq<u8>) -> Result<
    Seq<u8>,
    ReadError,
> {
    if available.len() < length {
        Err(ReadError::TruncatedInput)
    } else {
        match unpickled(available.take(length as int)) {
            Err(e) => Err(e),
            Ok(bytes) => if bytes.len() > capacity {
                Err(ReadError::Capacity)
            } else {
                Ok(bytes)
            },
        }
    }
}

impl FramerView {
    /// The block fits the buffer and the cursor is inside the block.
    pub open spec fn wf(self) -> bool {
        self.block.len() <= self.capacity && self.cursor <= self.block.len()
    }

    /// A framer just opened with a buffer of `capacity` bytes.
    pub open spec fn opened(capacity: nat) -> FramerView {
        FramerView {
            capacity,
            block: Seq::empty(),
            cursor: 0,
            message: Seq::empty(),
            finished: false,
        }
    }

    /// The result of opening a file whose first bytes are `header`.
    pub open spec fn open(header: Seq<u8>) -> Result<FramerView, ReadError> {
        if header.len() < PREFIX_LEN {
            Err(ReadError::TruncatedInput)
        } else if le_i32(header.take(4)) <= 0 {
            Err(ReadError::Format)
        } else {
            Ok(Self::opened(le_i32(header.take(4)) as nat))
        }
    }

    /// Whether the next step has to be the reading of a block.
    pub open spec fn needs_block(self) -> bool {
        !self.finished && self.cursor >= self.block.len()
    }

    /// The framer at the end of its stream.
    pub open spec fn ended(self) -> FramerView {
        FramerView { message: Seq::empty(), finished: true, ..self }
    }

    /// The framer after the driver read `prefix` where a length prefix was
    /// due, and the length of the block to read next, if there is one. Any
    /// outcome but a block length ends the stream.
    pub open spec fn begin_block(self, prefix: Seq<u8>) -> (
        FramerView,
        Result<Option<usize>, ReadError>,
    ) {
        if self.finished {
            (self, Ok(None))
        } else {
            match announced(prefix) {
                Ok(Some(length)) => (self, Ok(Some(length))),
                other => (self.ended(), other),
            }
        }
    }

    /// The framer after the driver asked the stream for `length` bytes and
    /// got `available`: the block of [`decoded_block`] with the cursor at
    /// its start. A failure ends the stream.
    pub open spec fn load_block(self, length: usize, available: Seq<u8>) -> (
        FramerView,
        Result<(), ReadError>,
    ) {
        if self.finished {
            (self, Ok(()))
        } else {
            match decoded_block(self.capacity, length, available) {
                Err(e) => (self.ended(), Err(e)),
                Ok(bytes) => (
                    FramerView { block: bytes, cursor: 0, message: Seq::empty(), ..self },
                    Ok(()),
                ),
            }
        }
    }

    /// The framer after one step inside the current block, and what the step
    /// returns.
    ///
    /// At the end of the block, or of the stream, there is nothing to
    /// return. A sentinel uses the block up. A malformed frame ends the
    /// stream. Otherwise the message is the next `size` bytes, and the
    /// cursor moves past them.
    pub open spec fn next_in_block(self) -> (
        FramerView,
        Result<Option<MessageHeader>, ReadError>,
    ) {
        if self.finished || self.cursor >= self.block.len() {
            (FramerView { message: Seq::empty(), ..self }, Ok(None))
        } else {
            let rest = self.block.skip(self.cursor as int);
            match frame_at(rest) {
                Frame::Malformed => (self.ended(), Err(ReadError::Format)),
                Frame::Sentinel => (
                    FramerView { cursor: self.block.len(), message: Seq::empty(), ..self },
                    Ok(None),
                ),
                Frame::Message(header) => (
                    FramerView {
                        cursor: self.cursor + header.size as nat,
                        message: rest.take(header.size as int),
                        ..self
                    },
                    Ok(Some(header)),
                ),
            }
        }
    }
}

/// The capacity of the buffer is the limit of a block: a block that decodes
/// to exactly as many bytes as the buffer holds is taken in, and one byte
/// more is a capacity error.
pub proof fn lemma_capacity_is_the_limit(
    capacity: nat,
    length: usize,
    available: Seq<u8>,
    bytes: Seq<u8>,
)
    requires
        available.len() >= length,
        unpickled(available.take(length as int)) == Ok::<Seq<u8>, ReadError>(bytes),
    ensures
        bytes.len() <= capacity ==> decoded_block(capacity, length, available) == Ok::<
            Seq<u8>,
            ReadError,
        >(bytes),
        bytes.len() > capacity ==> decoded_block(capacity, length, available) == Err::<
            Seq<u8>,
            ReadError,
        >(ReadError::Capacity),
{
}

/// A header with size zero at the cursor ends the block for the framer:
/// the step returns no message and no error, reads nothing behind the
/// header, and leaves the block used up.
pub proof fn lemma_sentinel_ends_block(view: FramerView)
    requires
        view.wf(),
        !view.finished,
        view.cursor + HEADER_LEN <= view.block.len(),
        MessageHeader::layout(view.block.skip(view.cursor as int)).size == 0,
    ensures
        view.next_in_block().1 == Ok::<Option<MessageHeader>, ReadError>(None),
        view.next_in_block().0.needs_block(),
        view.next_in_block().0.message.len() == 0,
{
}

/// Reading the current message does not move the framer, so reading it
/// again gives the same bytes, and decoding them gives the same fields: any
/// two results of `message` on one framer agree, and so do the results of
/// `decode` on them.
pub proof fn lemma_repeated_reads_agree(
    framer: &Framer,
    first: &[u8],
    second: &[u8],
    decoded_first: Result<Message, ReadError>,
    decoded_second: Result<Message, ReadError>,
)
    requires
        framer.wf(),
        call_ensures(Framer::message, (framer,), first),
        call_ensures(Framer::message, (framer,), second),
        call_ensures(Message::decode, (first,), decoded_first),
        call_ensures(Message::decode, (second,), decoded_second),
    ensures
        first@ == second@,
        first@ == framer@.message,
        decoded_first == decoded_second,
{
}

/// Reads a length prefix: `Ok(None)` at the clean end of the stream, the
/// length of the block that follows otherwise.
pub fn block_length(prefix: &[u8]) -> (length: Result<Option<usize>, ReadError>)
    ensures
        length == announced(prefix@),
{
    if prefix.len() == 0 {
        return Ok(None);
    }
    if prefix.len() < PREFIX_LEN {
        return Err(ReadError::TruncatedInput);
    }
    let value: i32 = read_i32(&prefix[0..4]);
    if value <= 0 {
        Err(ReadError::Format)
    } else {
        Ok(Some(value as usize))
    }
}

/// The reusable block buffer with its cursor.
pub struct Framer {
    buffer: Vec<u8>,
    block_len: usize,
    offset: usize,
    start: usize,
    finished: bool,
}

impl View for Framer {
    type V = FramerView;

    closed spec fn view(&self) -> FramerView {
        FramerView {
            capacity: self.buffer@.len(),
            block: self.buffer@.take(self.block_len as int),
            cursor: self.offset as nat,
            message: self.buffer@.subrange(self.start as int, self.offset as int),
            finished: self.finished,
        }
    }
}

impl Framer {
    /// The invariant of the buffer: the block lies inside it, the cursor
    /// inside the block, and the current message before the cursor.
    pub closed spec fn wf(&self) -> bool {
        &&& self.block_len <= self.buffer@.len()
        &&& self.start <= self.offset <= self.block_len
    }

    /// What a well-formed framer shows is well-formed.
    pub proof fn lemma_view_wf(&self)
        requires
            self.wf(),
        ensures
            self@.wf(),
    {
    }

    /// Opens a framer from the first bytes of a file: the capacity of the
    /// buffer as a four-byte signed number, which must be positive.
    pub fn open(header: &[u8]) -> (result: Result<Framer, ReadError>)
        ensures
            match result {
                Ok(framer) => framer.wf() && FramerView::open(header@) == Ok::<
                    FramerView,
                    ReadError,
                >(framer@),
                Err(e) => FramerView::open(header@) == Err::<FramerView, ReadError>(e),
            },
    {
        if header.len() < PREFIX_LEN {
            return Err(ReadError::TruncatedInput);
        }
        let capacity: i32 = read_i32(&header[0..4]);
        if capacity <= 0 {
            return Err(ReadError::Format);
        }
        let framer = Framer {
            buffer: vec![0u8; capacity as usize],
            block_len: 0,
            offset: 0,
            start: 0,
            finished: false,
        };
        assert(framer@.block =~= Seq::<u8>::empty());
        Ok(framer)
    }

    /// The fixed size of the buffer.
    pub fn capacity(&self) -> (capacity: usize)
        ensures
            capacity == self@.capacity,
    {
        self.buffer.len()
    }

    /// Whether the stream has ended, cleanly or by an error.
    pub fn is_finished(&self) -> (finished: bool)
        ensures
            finished == self@.finished,
    {
        self.finished
    }

    /// Whether the driver has to read a block before the next step.
    pub fn needs_block(&self) -> (needed: bool)
        requires
            self.wf(),
        ensures
            needed == self@.needs_block(),
    {
        !self.finished && self.offset >= self.block_len
    }

    /// The bytes of the message that the last step returned; empty where it
    /// returned none. They stay the same until the next step.
    pub fn message(&self) -> (view: &[u8])
        requires
            self.wf(),
        ensures
            view@ == self@.message,
    {
        let all = self.buffer.as_slice();
        &all[self.start..self.offset]
    }

    /// Takes the bytes that the driver read where a length prefix was due.
    pub fn begin_block(&mut self, prefix: &[u8]) -> (length: Result<Option<usize>, ReadError>)
        requires
            old(self).wf(),
        ensures
            final(self).wf(),
            (final(self)@, length) == old(self)@.begin_block(prefix@),
    {
        if self.finished {
            return Ok(None);
        }
        let length = block_length(prefix);
        match length {
            Ok(Some(_)) => {},
            _ => {
                self.end();
            },
        }
        length
    }

    /// Takes the bytes that the driver got when it asked for the `length`
    /// bytes of a block, decodes the block into the buffer and sets the
    /// cursor to its start.
    pub fn load_block(&mut self, length: usize, available: &[u8]) -> (result: Result<
        (),
        ReadError,
    >)
        requires
            old(self).wf(),
        ensures
            final(self).wf(),
            (final(self)@, result) == old(self)@.load_block(length, available@),
    {
        if self.finished {
            return Ok(());
        }
        if available.len() < length {
            self.end();
            return Err(ReadError::TruncatedInput);
        }
        match unpickle(&available[0..length]) {
            Err(e) => {
                self.end();
                Err(e)
            },
            Ok(block) => {
                if block.len() > self.buffer.len() {
                    self.end();
                    return Err(ReadError::Capacity);
                }
                let count: usize = block.len();
                let mut i: usize = 0;
                while i < count
                    invariant
                        i <= count,
                        count == block@.len(),
                        count <= self.buffer@.len(),
                        self.buffer@.len() == old(self).buffer@.len(),
                        self.finished == old(self).finished,
                        self.buffer@.take(i as int) == block@.take(i as int),
                    decreases count - i,
                {
                    self.buffer.set(i, block[i]);
                    i += 1;
                }
                self.block_len = count;
                self.offset = 0;
                self.start = 0;
                assert(block@.take(count as int) =~= block@);
                assert(self@.message =~= Seq::<u8>::empty());
                Ok(())
            },
        }
    }

    /// Steps over the next message of the current block and returns its
    /// header, or `None` where the block holds no further message.
    pub fn next_in_block(&mut self) -> (result: Result<Option<MessageHeader>, ReadError>)
        requires
            old(self).wf(),
        ensures
            final(self).wf(),
            (final(self)@, result) == old(self)@.next_in_block(),
    {
        self.start = self.offset;
        assert(self@.message =~= Seq::<u8>::empty());
        if self.finished || self.offset >= self.block_len {
            return Ok(None);
        }
        let all = self.buffer.as_slice();
        let rest = &all[self.offset..self.block_len];
        match MessageHeader::parse(rest) {
            None => {
                self.end();
                Err(ReadError::Format)
            },
            Some(header) => {
                let size: usize = header.size as usize;
                if size == 0 {
                    self.offset = self.block_len;
                    self.start = self.block_len;
                    assert(self@.message =~= Seq::<u8>::empty());
                    Ok(None)
                } else if size < HEADER_LEN || size > self.block_len - self.offset {
                    self.end();
                    Err(ReadError::Format)
                } else {
                    self.offset = self.offset + size;
                    assert(self@.message =~= old(self)@.block.skip(
                        old(self)@.cursor as int,
                    ).take(size as int));
                    Ok(Some(header))
                }
            },
        }
    }

    /// Ends the stream.
    fn end(&mut self)
        requires
            old(self).wf(),
        ensures
            final(self).wf(),
            final(self)@ == old(self)@.ended(),
    {
        self.start = self.offset;
        self.finished = true;
        assert(self@.message =~= Seq::<u8>::empty());
    }
}

} // verus!
