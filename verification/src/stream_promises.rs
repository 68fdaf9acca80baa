//! What the operations of the byte streams promise their callers, for every input.

use crate::async_fs_stream::{after_attempt, AsyncFsStream, Attempt, Flush};
use crate::stream::{
    message_bytes, message_is_binary, read_buf_filled, read_buf_room, ExtractWebsocketStream,
    ReadPoll, SinkPoll, WebsocketPoll, WriteStage, WriteStep,
};
use tokio::io::ReadBuf;
use vstd::prelude::*;

verus! {

/// Some bytes were put into a reader's place, after what was there.
pub open spec fn was_given(before: ReadBuf<'_>, after: ReadBuf<'_>, bytes: Seq<u8>) -> bool {
    &&& read_buf_filled(after) == read_buf_filled(before) + bytes
    &&& read_buf_room(after) + bytes.len() == read_buf_room(before)
}

/// A reader got the first of the bytes at hand, as many as it has room for, and the others
/// are left in their order.
pub open spec fn was_served(
    before: ReadBuf<'_>,
    after: ReadBuf<'_>,
    bytes: Seq<u8>,
    left: Seq<u8>,
) -> bool {
    exists|given: Seq<u8>| #[trigger]
        was_given(before, after, given) && given + left == bytes && (left.len() == 0
            || read_buf_room(after) == 0)
}

/// A new stream holds nothing.
pub proof fn new_stream_holds_nothing(stream: ExtractWebsocketStream)
    requires
        call_ensures(ExtractWebsocketStream::new, (), stream),
    ensures
        stream.wf(),
        stream.pending().len() == 0,
{
}

/// A read is served from the bytes that were received before just where there are any, with
/// the first of them and as many as there is room for. The others stay, in their order.
pub proof fn read_takes_the_first_bytes(
    stream: &mut ExtractWebsocketStream,
    buf: &mut ReadBuf<'_>,
    served: bool,
)
    requires
        call_ensures(ExtractWebsocketStream::poll_read, (stream, buf), served),
    ensures
        final(stream).wf(),
        served <==> old(stream).pending().len() > 0,
        was_served(*old(buf), *final(buf), old(stream).pending(), final(stream).pending()),
{
    let pending = old(stream).pending();
    let left = final(stream).pending();
    let given = pending.take(pending.len() - left.len());
    assert(given + left =~= pending);
    assert(was_given(*old(buf), *final(buf), given)) by {
        assert(read_buf_filled(*final(buf)) =~= read_buf_filled(*old(buf)) + given);
    }
}

/// A binary frame serves a read with its first bytes, as many as there is room for, and the
/// others stay; any other frame leaves the reader waiting and changes nothing.
pub proof fn frame_serves_the_read(
    stream: &mut ExtractWebsocketStream,
    binary: bool,
    bytes: &[u8],
    buf: &mut ReadBuf<'_>,
    poll: ReadPoll,
)
    requires
        call_ensures(ExtractWebsocketStream::accept_frame, (stream, binary, bytes, buf), poll),
    ensures
        final(stream).wf(),
        poll == ReadPoll::Ready <==> binary,
        poll == ReadPoll::Pending <==> !binary,
        binary ==> was_served(*old(buf), *final(buf), bytes@, final(stream).pending()),
        !binary ==> *final(stream) == *old(stream) && *final(buf) == *old(buf),
{
    if binary {
        let left = final(stream).pending();
        let given = bytes@.take(bytes@.len() - left.len());
        assert(given + left =~= bytes@);
        assert(was_given(*old(buf), *final(buf), given)) by {
            assert(read_buf_filled(*final(buf)) =~= read_buf_filled(*old(buf)) + given);
        }
    }
}

/// A binary message serves a read with its first bytes, as many as there is room for, and
/// the others stay. Nothing else that a poll of the websocket gives changes anything: the
/// read fails where the websocket fails, ends where it is closed, and waits otherwise.
pub proof fn message_serves_the_read(
    stream: &mut ExtractWebsocketStream,
    polled: WebsocketPoll,
    buf: &mut ReadBuf<'_>,
    poll: ReadPoll,
)
    requires
        call_ensures(ExtractWebsocketStream::poll_read_websocket, (stream, &polled, buf), poll),
    ensures
        final(stream).wf(),
        polled matches WebsocketPoll::Message(message) && message_is_binary(message) ==> poll
            == ReadPoll::Ready && was_served(
            *old(buf),
            *final(buf),
            message_bytes(polled->Message_0),
            final(stream).pending(),
        ),
        !(polled matches WebsocketPoll::Message(message) && message_is_binary(message))
            ==> *final(stream) == *old(stream) && *final(buf) == *old(buf),
        poll == ReadPoll::Failed <==> polled is Failed,
        polled is Closed ==> poll == ReadPoll::Ready,
        polled is Pending ==> poll == ReadPoll::Pending,
        polled matches WebsocketPoll::Message(message) && !message_is_binary(message) ==> poll
            == ReadPoll::Pending,
{
    if polled is Message && message_is_binary(polled->Message_0) {
        let bytes = message_bytes(polled->Message_0);
        let left = final(stream).pending();
        let given = bytes.take(bytes.len() - left.len());
        assert(given + left =~= bytes);
        assert(was_given(*old(buf), *final(buf), given)) by {
            assert(read_buf_filled(*final(buf)) =~= read_buf_filled(*old(buf)) + given);
        }
    }
}

/// A write hands the websocket, once it takes a message, a binary one with all the bytes and
/// no others, flushes each message, and counts all the bytes as written after that, even if
/// the flush is not done yet. It fails just where a step fails, and waits only for the
/// websocket to take a message.
pub proof fn write_sends_and_flushes(
    stage: WriteStage,
    outcome: SinkPoll,
    buf: &[u8],
    step: WriteStep,
)
    requires
        stage == WriteStage::Sending ==> outcome != SinkPoll::Pending,
        call_ensures(ExtractWebsocketStream::poll_write, (stage, outcome, buf), step),
    ensures
        step is Failed <==> outcome == SinkPoll::Failed,
        step is Pending <==> stage == WriteStage::Readying && outcome == SinkPoll::Pending,
        step is Send <==> stage == WriteStage::Readying && outcome == SinkPoll::Ready,
        step matches WriteStep::Send(message) ==> message_is_binary(message) && message_bytes(
            message,
        ) == buf@,
        step is Flush <==> stage == WriteStage::Sending && outcome == SinkPoll::Ready,
        step is Written <==> stage == WriteStage::Flushing && outcome != SinkPoll::Failed,
        step matches WriteStep::Written(n) ==> n == buf@.len(),
{
}

/// The message that a write sends gives a reader the bytes that were written, and leaves it
/// what it has no room for.
pub proof fn message_of_a_write_is_read_as_written(
    written: &[u8],
    step: WriteStep,
    stream: &mut ExtractWebsocketStream,
    buf: &mut ReadBuf<'_>,
    poll: ReadPoll,
)
    requires
        call_ensures(
            ExtractWebsocketStream::poll_write,
            (WriteStage::Readying, SinkPoll::Ready, written),
            step,
        ),
        call_ensures(
            ExtractWebsocketStream::poll_read_websocket,
            (stream, &WebsocketPoll::Message(step->Send_0), buf),
            poll,
        ),
    ensures
        step is Send,
        poll == ReadPoll::Ready,
        was_served(*old(buf), *final(buf), written@, final(stream).pending()),
{
    message_serves_the_read(stream, WebsocketPoll::Message(step->Send_0), buf, poll);
}

/// An attempt is made again just where it would have blocked; otherwise its outcome is
/// handed on as it is.
pub proof fn attempt_is_made_again_only_where_it_blocks<E>(
    attempt: Attempt<E>,
    outcome: Option<Result<usize, E>>,
)
    requires
        call_ensures(after_attempt::<E>, (attempt,), outcome),
    ensures
        outcome is None <==> attempt is WouldBlock,
        attempt matches Attempt::Done(len) ==> outcome is Some && outcome->0 is Ok
            && outcome->0->Ok_0 == len,
        attempt matches Attempt::Failed(error) ==> outcome is Some && outcome->0 is Err
            && outcome->0->Err_0 == error,
{
}

/// A stream works on the descriptor that it was made for, and calls for a flush just where
/// that is one of a file.
pub proof fn only_files_are_flushed(
    fd: i32,
    fd_is_file: bool,
    stream: AsyncFsStream,
    flush: Flush,
)
    requires
        call_ensures(AsyncFsStream::new, (fd, fd_is_file), stream),
        call_ensures(AsyncFsStream::poll_flush, (&stream,), flush),
    ensures
        stream.fd == fd,
        stream.file is Some <==> fd_is_file,
        stream.file is Some ==> stream.file->0 == fd,
        flush == Flush::File <==> fd_is_file,
        flush == Flush::Nothing <==> !fd_is_file,
{
}

} // verus!
