//! The handle protocol for a host process: open, read, close.
//!
//! A handle is a slot that holds a reader or nothing. Every call answers
//! with a status number. Errors are negative and tell only whether opening
//! or reading failed; the end of the stream is zero; a message is reported
//! by its length, which is positive.

use crate::error::ReadError;
use crate::stream::{FastCacheReader, StreamView};
use crate::wire::MessageHeader;
use vstd::prelude::*;

verus! {

/// The status of a successful `open_reader`.
pub const STATUS_OPENED: i32 = 0;

/// The status of a read that found no message: the end of the usable data
/// of a block, or the end of the stream.
pub const STATUS_END: i32 = 0;

/// The status of a call that was given no reader, or of a failed open.
pub const STATUS_OPEN_FAILED: i32 = -1;

/// The status of a failed read.
pub const STATUS_READ_FAILED: i32 = -2;

/// The status that reports a step of a reader: the length of the message,
/// zero where there was none, and the read failure for every error.
pub open spec fn step_status(step: Result<Option<MessageHeader>, ReadError>) -> i32 {
    match step {
        Ok(Some(header)) => header.size as i32,
        Ok(None) => STATUS_END,
        Err(_) => STATUS_READ_FAILED,
    }
}

/// Computes the status that reports a step of a reader.
pub fn status_of(step: &Result<Option<MessageHeader>, ReadError>) -> (status: i32)
    ensures
        status == step_status(*step),
{
    match step {
        Ok(Some(header)) => header.size as i32,
        Ok(None) => STATUS_END,
        Err(_) => STATUS_READ_FAILED,
    }
}

/// Opens a reader over `data` and puts it into `out`. Where the capture
/// cannot be opened, `out` keeps what it held.
pub fn open_reader(data: Vec<u8>, out: &mut Option<FastCacheReader>) -> (status: i32)
    ensures
        match StreamView::open(data@) {
            Ok(view) => {
                &&& status == STATUS_OPENED
                &&& *final(out) matches Some(reader) && reader.wf() && reader@ == view
            },
            Err(_) => status == STATUS_OPEN_FAILED && *final(out) == *old(out),
        },
{
    match FastCacheReader::open(data) {
        Ok(reader) => {
            *out = Some(reader);
            STATUS_OPENED
        },
        Err(_) => STATUS_OPEN_FAILED,
    }
}

/// Steps the reader of `handle` over its next message. The bytes of the
/// message are those of the reader's `message` until the next call.
pub fn read_message(handle: &mut Option<FastCacheReader>) -> (status: i32)
    requires
        *old(handle) matches Some(reader) ==> reader.wf(),
    ensures
        match *old(handle) {
            Some(before) => {
                &&& *final(handle) matches Some(after) && after.wf() && (after@, status) == ({
                    let (view, step) = before@.next_msg();
                    (view, step_status(step))
                })
            },
            None => status == STATUS_OPEN_FAILED && *final(handle) is None,
        },
{
    match handle {
        Some(reader) => {
            let step = reader.next_msg();
            status_of(&step)
        },
        None => STATUS_OPEN_FAILED,
    }
}

/// Closes a handle: the reader, if there was one, is dropped with its
/// buffer.
pub fn close_reader(handle: &mut Option<FastCacheReader>)
    ensures
        *final(handle) is None,
{
    *handle = None;
}

} // verus!
