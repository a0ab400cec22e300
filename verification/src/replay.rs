//! The whole way from a capture to the state of a consumer.

use crate::book::{Consumer, ConsumerView};
use crate::error::ReadError;
use crate::stream::FastCacheReader;
use crate::wire::Message;
use vstd::prelude::*;

verus! {

/// The state of a consumer that takes in `messages` one after the other,
/// and the error of the first message that does not decode, at which it
/// stops.
pub open spec fn replayed(state: ConsumerView, messages: Seq<Seq<u8>>) -> (
    ConsumerView,
    Option<ReadError>,
)
    decreases messages.len(),
{
    if messages.len() == 0 {
        (state, None)
    } else {
        match Message::decoded(messages[0]) {
            Err(e) => (state, Some(e)),
            Ok(message) => replayed(state.apply(message), messages.drop_first()),
        }
    }
}

/// Reads the stream to its end and hands every message to the consumer, in
/// order. Stops at the first message that does not decode, and at the error
/// of the stream after the consumer took in the messages before it.
pub fn replay(reader: &mut FastCacheReader, consumer: &mut Consumer) -> (result: Result<
    (),
    ReadError,
>)
    requires
        old(reader).wf(),
    ensures
        final(reader).wf(),
        final(consumer)@ == replayed(old(consumer)@, old(reader)@.outcome().0).0,
        result == match replayed(old(consumer)@, old(reader)@.outcome().0).1 {
            Some(e) => Err::<(), ReadError>(e),
            None => match old(reader)@.outcome().1 {
                Some(e) => Err(e),
                None => Ok(()),
            },
        },
        old(consumer)@.book.wf() ==> final(consumer)@.book.wf(),
{
    while !reader.is_finished()
        invariant
            reader.wf(),
            replayed(consumer@, reader@.outcome().0) == replayed(
                old(consumer)@,
                old(reader)@.outcome().0,
            ),
            reader@.outcome().1 == old(reader)@.outcome().1,
            old(consumer)@.book.wf() ==> consumer@.book.wf(),
        decreases
                reader@.rest.len(),
                reader@.unread_in_block(),
                (if reader@.framer.finished {
                    0nat
                } else {
                    1nat
                }),
    {
        let ghost before = reader@;
        proof {
            reader.lemma_view_wf();
            before.lemma_next_msg_outcome();
        }
        match reader.next_msg() {
            Ok(Some(_)) => {
                assert(before.outcome().0.drop_first() =~= reader@.outcome().0);
                match consumer.consume(reader.message()) {
                    Ok(_) => {},
                    Err(e) => {
                        return Err(e);
                    },
                }
            },
            Ok(None) => {},
            Err(e) => {
                return Err(e);
            },
        }
    }
    Ok(())
}

} // verus!
