//! A capture held in memory and read block by block.
//!
//! [`FastCacheReader`] joins a byte source to a [`Framer`]: each call of
//! `next_msg` steps over one message and reads the next block when the
//! current one is used up. What a whole stream holds is stated apart from
//! the stepping, by [`stream_outcome`], and the two are proved to agree.

use crate::error::ReadError;
use crate::framer::{
    announced,
    decoded_block,
    frame_at,
    Frame,
    Framer,
    FramerView,
    PREFIX_LEN,
};
use crate::wire::MessageHeader;
use vstd::prelude::*;
use vstd::slice::slice_to_vec;

verus! {

/// What a read of up to `count` bytes returns from a stream that still
/// holds `rest`.
pub open spec fn taken(rest: Seq<u8>, count: nat) -> Seq<u8> {
    if count <= rest.len() {
        rest.take(count as int)
    } else {
        rest
    }
}

/// What a read of up to `count` bytes leaves of a stream that held `rest`.
pub open spec fn left(rest: Seq<u8>, count: nat) -> Seq<u8> {
    if count <= rest.len() {
        rest.skip(count as int)
    } else {
        Seq::empty()
    }
}

/// The messages of a stream in order, and the error that ends it, if it
/// does not end cleanly.
pub type Outcome = (Seq<Seq<u8>>, Option<ReadError>);

/// The messages of a decoded block from the offset `at` on, up to the end of
/// the block, a sentinel or a malformed frame.
pub open spec fn block_outcome(block: Seq<u8>, at: nat) -> Outcome
    decreases block.len() - at,
{
    if at >= block.len() {
        (Seq::empty(), None)
    } else {
        let rest = block.skip(at as int);
        match frame_at(rest) {
            Frame::Malformed => (Seq::empty(), Some(ReadError::Format)),
            Frame::Sentinel => (Seq::empty(), None),
            Frame::Message(header) => {
                let (more, end) = block_outcome(block, at + header.size as nat);
                (seq![rest.take(header.size as int)] + more, end)
            },
        }
    }
}

/// The messages of the blocks that `rest` holds, read into a buffer of
/// `capacity` bytes. The stream ends cleanly where a length prefix is due
/// and no byte is left.
pub open spec fn stream_outcome(rest: Seq<u8>, capacity: nat) -> Outcome
    decreases rest.len(),
{
    match announced(taken(rest, PREFIX_LEN as nat)) {
        Ok(None) => (Seq::empty(), None),
        Err(e) => (Seq::empty(), Some(e)),
        Ok(Some(length)) => {
            let body = left(rest, PREFIX_LEN as nat);
            match decoded_block(capacity, length, taken(body, length as nat)) {
                Err(e) => (Seq::empty(), Some(e)),
                Ok(block) => {
                    let (messages, end) = block_outcome(block, 0);
                    if end is Some {
                        (messages, end)
                    } else {
                        let (more, last) = stream_outcome(left(body, length as nat), capacity);
                        (messages + more, last)
                    }
                },
            }
        },
    }
}

/// A reader over a capture in memory: the bytes not yet read, and the
/// framer.
pub struct StreamView {
    pub rest: Seq<u8>,
    pub framer: FramerView,
}

impl StreamView {
    pub open spec fn wf(self) -> bool {
        self.framer.wf()
    }

    /// The reader of a capture, before its first block.
    pub open spec fn open(data: Seq<u8>) -> Result<StreamView, ReadError> {
        match FramerView::open(taken(data, PREFIX_LEN as nat)) {
            Ok(framer) => Ok(StreamView { rest: left(data, PREFIX_LEN as nat), framer }),
            Err(e) => Err(e),
        }
    }

    /// Reads the next block: first its length prefix, then as many bytes as
    /// the prefix announces. `Ok(false)` is the clean end of the stream.
    pub open spec fn load_block(self) -> (StreamView, Result<bool, ReadError>) {
        let (begun, length) = self.framer.begin_block(taken(self.rest, PREFIX_LEN as nat));
        let body = left(self.rest, PREFIX_LEN as nat);
        match length {
            Err(e) => (StreamView { rest: body, framer: begun }, Err(e)),
            Ok(None) => (StreamView { rest: body, framer: begun }, Ok(false)),
            Ok(Some(length)) => {
                let (framer, loaded) = begun.load_block(length, taken(body, length as nat));
                let rest = left(body, length as nat);
                match loaded {
                    Err(e) => (StreamView { rest, framer }, Err(e)),
                    Ok(_) => (StreamView { rest, framer }, Ok(true)),
                }
            },
        }
    }

    /// One call of `next_msg`: where the block is used up, the next block is
    /// read first; then the framer takes one step.
    pub open spec fn next_msg(self) -> (StreamView, Result<Option<MessageHeader>, ReadError>) {
        if self.framer.needs_block() {
            let (loaded, more) = self.load_block();
            match more {
                Err(e) => (loaded, Err(e)),
                Ok(false) => (loaded, Ok(None)),
                Ok(true) => {
                    let (framer, step) = loaded.framer.next_in_block();
                    (StreamView { framer, ..loaded }, step)
                },
            }
        } else {
            let (framer, step) = self.framer.next_in_block();
            (StreamView { framer, ..self }, step)
        }
    }

    /// The messages that the reader has yet to return, and the error that
    /// will end the stream, if one will.
    pub open spec fn outcome(self) -> Outcome {
        if self.framer.finished {
            (Seq::empty(), None)
        } else {
            let (messages, end) = block_outcome(self.framer.block, self.framer.cursor);
            if end is Some {
                (messages, end)
            } else {
                let (more, last) = stream_outcome(self.rest, self.framer.capacity);
                (messages + more, last)
            }
        }
    }

    /// The bytes of the current block that lie behind the cursor.
    pub open spec fn unread_in_block(self) -> nat {
        if self.framer.cursor <= self.framer.block.len() {
            (self.framer.block.len() - self.framer.cursor) as nat
        } else {
            0
        }
    }

    /// `after` is closer to the end of the stream than `self`: less is left
    /// to read, or as much is left and less of the block, or all is as it
    /// was and the stream has ended.
    pub open spec fn advances_to(self, after: StreamView) -> bool {
        ||| after.rest.len() < self.rest.len()
        ||| after.rest.len() == self.rest.len() && after.unread_in_block()
            < self.unread_in_block()
        ||| after.rest.len() == self.rest.len() && after.unread_in_block()
            == self.unread_in_block() && after.framer.finished && !self.framer.finished
    }

    /// Every call of `next_msg` takes the next message off the outcome, or
    /// leaves the outcome as it is, or reports the error that the outcome
    /// ends in; and until the stream has ended, every call brings it closer
    /// to its end. So the calls that return a message are as many as the
    /// messages of the stream, in their order, and after them the reader
    /// reports the end of the stream or its error.
    pub proof fn lemma_next_msg_outcome(self)
        requires
            self.wf(),
        ensures
            ({
                let (after, step) = self.next_msg();
                &&& after.wf()
                &&& !self.framer.finished ==> self.advances_to(after)
                &&& match step {
                    Ok(Some(header)) => {
                        &&& !after.framer.finished
                        &&& MessageHeader::parsed(after.framer.message) == Some(header)
                        &&& self.outcome().0 == seq![after.framer.message] + after.outcome().0
                        &&& self.outcome().1 == after.outcome().1
                    },
                    Ok(None) => after.outcome() == self.outcome(),
                    Err(e) => {
                        &&& after.framer.finished
                        &&& self.outcome() == (Seq::<Seq<u8>>::empty(), Some(e))
                    },
                }
            }),
    {
    }
}

/// The byte sequences that a run of vectors holds.
pub open spec fn views(messages: Seq<Vec<u8>>) -> Seq<Seq<u8>> {
    messages.map_values(|message: Vec<u8>| message@)
}

/// A reader over a capture that is held in memory as a whole.
pub struct FastCacheReader {
    data: Vec<u8>,
    pos: usize,
    framer: Framer,
}

impl View for FastCacheReader {
    type V = StreamView;

    closed spec fn view(&self) -> StreamView {
        StreamView { rest: self.data@.skip(self.pos as int), framer: self.framer@ }
    }
}

/// Where a read of up to `count` bytes ends that starts at `pos` in a
/// source of `len` bytes.
fn read_end(len: usize, pos: usize, count: usize) -> (end: usize)
    requires
        pos <= len,
    ensures
        pos <= end <= len,
        end - pos == if count <= len - pos {
            count as int
        } else {
            len - pos
        },
{
    if count <= len - pos {
        pos + count
    } else {
        len
    }
}

impl FastCacheReader {
    /// The invariant: the read position lies inside the capture, and the
    /// framer is well-formed.
    pub closed spec fn wf(&self) -> bool {
        self.pos <= self.data@.len() && self.framer.wf()
    }

    /// What a well-formed reader shows is well-formed.
    pub proof fn lemma_view_wf(&self)
        requires
            self.wf(),
        ensures
            self@.wf(),
    {
        self.framer.lemma_view_wf();
    }

    /// Opens a capture: reads the buffer capacity from its first four bytes.
    pub fn open(data: Vec<u8>) -> (result: Result<FastCacheReader, ReadError>)
        ensures
            match result {
                Ok(reader) => reader.wf() && StreamView::open(data@) == Ok::<
                    StreamView,
                    ReadError,
                >(reader@),
                Err(e) => StreamView::open(data@) == Err::<StreamView, ReadError>(e),
            },
    {
        let end: usize = read_end(data.len(), 0, PREFIX_LEN);
        let opened = Framer::open(&data.as_slice()[0..end]);
        match opened {
            Ok(framer) => {
                let reader = FastCacheReader { data, pos: end, framer };
                Ok(reader)
            },
            Err(e) => Err(e),
        }
    }

    /// Whether the stream has ended, cleanly or by an error.
    pub fn is_finished(&self) -> (finished: bool)
        ensures
            finished == self@.framer.finished,
    {
        self.framer.is_finished()
    }

    /// The bytes of the message that the last call of `next_msg` returned;
    /// empty where it returned none. They stay the same until the next
    /// call.
    pub fn message(&self) -> (view: &[u8])
        requires
            self.wf(),
        ensures
            view@ == self@.framer.message,
    {
        self.framer.message()
    }

    /// Reads the next block into the buffer. `Ok(false)` is the clean end of
    /// the stream.
    pub fn load_block(&mut self) -> (loaded: Result<bool, ReadError>)
        requires
            old(self).wf(),
        ensures
            final(self).wf(),
            (final(self)@, loaded) == old(self)@.load_block(),
    {
        let data = self.data.as_slice();
        let start: usize = self.pos;
        let body: usize = read_end(data.len(), start, PREFIX_LEN);
        assert(data@.skip(body as int) =~= left(old(self)@.rest, PREFIX_LEN as nat));
        let length = self.framer.begin_block(&data[start..body]);
        self.pos = body;
        match length {
            Err(e) => Err(e),
            Ok(None) => Ok(false),
            Ok(Some(length)) => {
                let end: usize = read_end(data.len(), body, length);
                assert(data@.subrange(body as int, end as int) =~= taken(
                    data@.skip(body as int),
                    length as nat,
                ));
                assert(data@.skip(end as int) =~= left(data@.skip(body as int), length as nat));
                let loaded = self.framer.load_block(length, &data[body..end]);
                self.pos = end;
                match loaded {
                    Err(e) => Err(e),
                    Ok(_) => Ok(true),
                }
            },
        }
    }

    /// Steps over the next message and returns its header. `None` marks the
    /// end of the usable data of a block, or the end of the stream; see
    /// [`Self::is_finished`].
    pub fn next_msg(&mut self) -> (step: Result<Option<MessageHeader>, ReadError>)
        requires
            old(self).wf(),
        ensures
            final(self).wf(),
            (final(self)@, step) == old(self)@.next_msg(),
    {
        if self.framer.needs_block() {
            match self.load_block() {
                Err(e) => {
                    return Err(e);
                },
                Ok(false) => {
                    return Ok(None);
                },
                Ok(true) => {},
            }
        }
        self.framer.next_in_block()
    }

    /// Reads the stream to its end and returns the bytes of every message
    /// in order, or the error that ends the stream.
    pub fn read_all(&mut self) -> (result: Result<Vec<Vec<u8>>, ReadError>)
        requires
            old(self).wf(),
        ensures
            final(self).wf(),
            final(self)@.framer.finished,
            match result {
                Ok(messages) => old(self)@.outcome() == (views(messages@), None::<ReadError>),
                Err(e) => old(self)@.outcome().1 == Some(e),
            },
    {
        let mut messages: Vec<Vec<u8>> = Vec::new();
        while !self.framer.is_finished()
            invariant
                self.wf(),
                views(messages@) + self@.outcome().0 == old(self)@.outcome().0,
                self@.outcome().1 == old(self)@.outcome().1,
            decreases
                    self@.rest.len(),
                    self@.unread_in_block(),
                    (if self@.framer.finished {
                        0nat
                    } else {
                        1nat
                    }),
        {
            let ghost before = self@;
            proof {
                self.lemma_view_wf();
                before.lemma_next_msg_outcome();
            }
            match self.next_msg() {
                Ok(Some(_)) => {
                    let message = slice_to_vec(self.message());
                    messages.push(message);
                },
                Ok(None) => {},
                Err(e) => {
                    return Err(e);
                },
            }
        }
        Ok(messages)
    }
}

} // verus!
