//! What holds of the byte stream over a websocket across several reads and writes.

use crate::stream::{carries, front, message_bytes, message_is_binary, rest};
use vstd::prelude::*;
use warp::ws::Message;

verus! {

/// A reader never gets more than it has room for, gets something where it has room and
/// there is something, and loses nothing of the bytes at hand.
pub proof fn read_splits_the_bytes(bytes: Seq<u8>, room: nat)
    ensures
        front(bytes, room).len() <= room,
        room > 0 && bytes.len() > 0 ==> front(bytes, room).len() > 0,
        room >= bytes.len() ==> front(bytes, room) == bytes && rest(bytes, room).len() == 0,
        front(bytes, room) + rest(bytes, room) == bytes,
{
    assert(front(bytes, room) + rest(bytes, room) =~= bytes);
}

/// A read with some room: from the bytes that were kept, or from a message that came
/// after all of them were read.
pub enum Read {
    Kept { room: nat },
    Received { message: Message, room: nat },
}

/// The bytes that are kept after some reads.
pub open spec fn kept(reads: Seq<Read>) -> Seq<u8>
    decreases reads.len(),
{
    if reads.len() == 0 {
        Seq::empty()
    } else {
        match reads.last() {
            Read::Kept { room } => rest(kept(reads.drop_last()), room),
            Read::Received { message, room } => if message_is_binary(message) {
                rest(message_bytes(message), room)
            } else {
                kept(reads.drop_last())
            },
        }
    }
}

/// The bytes that some reads gave, one after the other.
pub open spec fn given(reads: Seq<Read>) -> Seq<u8>
    decreases reads.len(),
{
    if reads.len() == 0 {
        Seq::empty()
    } else {
        given(reads.drop_last()) + (match reads.last() {
            Read::Kept { room } => front(kept(reads.drop_last()), room),
            Read::Received { message, room } => if message_is_binary(message) {
                front(message_bytes(message), room)
            } else {
                Seq::empty()
            },
        })
    }
}

/// A message is taken only after all bytes before it were read.
pub open spec fn in_turn(reads: Seq<Read>) -> bool
    decreases reads.len(),
{
    reads.len() > 0 ==> {
        &&& in_turn(reads.drop_last())
        &&& reads.last() is Received ==> kept(reads.drop_last()).len() == 0
    }
}

/// The bytes of the binary messages that were received, one after the other.
pub open spec fn received(reads: Seq<Read>) -> Seq<u8>
    decreases reads.len(),
{
    if reads.len() == 0 {
        Seq::empty()
    } else {
        received(reads.drop_last()) + (match reads.last() {
            Read::Received { message, .. } if message_is_binary(message) => message_bytes(message),
            _ => Seq::empty(),
        })
    }
}

/// Nothing of the stream is lost, repeated or put out of order: what the reads gave,
/// followed by what is kept, is what the binary messages carried.
pub proof fn stream_is_lossless(reads: Seq<Read>)
    requires
        in_turn(reads),
    ensures
        given(reads) + kept(reads) == received(reads),
    decreases reads.len(),
{
    if reads.len() > 0 {
        let before = reads.drop_last();
        stream_is_lossless(before);
        match reads.last() {
            Read::Kept { room } => {
                read_splits_the_bytes(kept(before), room);
            },
            Read::Received { message, room } => {
                read_splits_the_bytes(message_bytes(message), room);
            },
        }
        assert(given(reads) + kept(reads) =~= received(reads));
    } else {
        assert(given(reads) + kept(reads) =~= received(reads));
    }
}

/// The messages that were received, one after the other.
pub open spec fn messages(reads: Seq<Read>) -> Seq<Message>
    decreases reads.len(),
{
    if reads.len() == 0 {
        Seq::empty()
    } else {
        match reads.last() {
            Read::Received { message, .. } => messages(reads.drop_last()).push(message),
            Read::Kept { .. } => messages(reads.drop_last()),
        }
    }
}

/// The bytes of some writes, one after the other.
pub open spec fn written(writes: Seq<Seq<u8>>) -> Seq<u8>
    decreases writes.len(),
{
    if writes.len() == 0 {
        Seq::empty()
    } else {
        written(writes.drop_last()) + writes.last()
    }
}

/// The messages that writes make carry the bytes of the writes.
proof fn lemma_received_is_written(reads: Seq<Read>, writes: Seq<Seq<u8>>)
    requires
        messages(reads).len() == writes.len(),
        forall|i: int| 0 <= i < writes.len() ==> carries(#[trigger] messages(reads)[i], writes[i]),
    ensures
        received(reads) == written(writes),
    decreases reads.len(),
{
    if reads.len() > 0 {
        let before = reads.drop_last();
        match reads.last() {
            Read::Received { message, .. } => {
                assert(messages(reads)[writes.len() - 1] == message);
                assert(carries(message, writes.last()));
                let earlier = writes.drop_last();
                assert forall|i: int| 0 <= i < earlier.len() implies carries(
                    #[trigger] messages(before)[i],
                    earlier[i],
                ) by {
                    assert(messages(reads)[i] == messages(before)[i]);
                }
                lemma_received_is_written(before, earlier);
            },
            Read::Kept { .. } => {
                lemma_received_is_written(before, writes);
                assert(received(reads) =~= received(before));
            },
        }
    }
}

/// The other side reads what this side wrote: where the messages that come in are the
/// ones that some writes made, in their order, the reads give the written bytes in
/// their order, and what they did not give yet is kept.
pub proof fn reads_give_what_was_written(reads: Seq<Read>, writes: Seq<Seq<u8>>)
    requires
        in_turn(reads),
        messages(reads).len() == writes.len(),
        forall|i: int| 0 <= i < writes.len() ==> carries(#[trigger] messages(reads)[i], writes[i]),
    ensures
        given(reads) + kept(reads) == written(writes),
{
    stream_is_lossless(reads);
    lemma_received_is_written(reads, writes);
}

} // verus!
