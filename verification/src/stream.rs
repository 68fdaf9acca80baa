//! A byte stream over the messages of a websocket: every binary message carries some
//! bytes of the stream, and what a reader has no room for is kept for the next read.

use bytebuffer::ByteBuffer;
use tokio::io::ReadBuf;
use vstd::prelude::*;
use vstd::slice::slice_subrange;
use warp::ws::Message;

verus! {

/// A buffer of bytes with a reading position.
#[verifier::external_type_specification]
#[verifier::external_body]
pub struct ExByteBuffer(ByteBuffer);

/// All the bytes that a buffer holds, read ones among them.
pub uninterp spec fn buffer_bytes(buffer: ByteBuffer) -> Seq<u8>;

/// How many bytes of a buffer have been read.
pub uninterp spec fn buffer_rpos(buffer: ByteBuffer) -> nat;

/// Whether a buffer is written at its end and neither read nor written amid a byte.
pub uninterp spec fn buffer_aligned(buffer: ByteBuffer) -> bool;

/// Calls `ByteBuffer::new`: it holds nothing.
#[verifier::external_body]
fn buffer_new() -> (buffer: ByteBuffer)
    ensures
        buffer_bytes(buffer) == Seq::<u8>::empty(),
        buffer_rpos(buffer) == 0,
        buffer_aligned(buffer),
{
    ByteBuffer::new()
}

/// Calls `ByteBuffer::is_empty`, which counts the bytes that were read, too.
#[verifier::external_body]
fn buffer_is_empty(buffer: &ByteBuffer) -> (empty: bool)
    ensures
        empty == (buffer_bytes(*buffer).len() == 0),
{
    buffer.is_empty()
}

/// Calls `ByteBuffer::len`, which counts the bytes that were read, too.
#[verifier::external_body]
fn buffer_len(buffer: &ByteBuffer) -> (len: usize)
    ensures
        len == buffer_bytes(*buffer).len(),
{
    buffer.len()
}

/// Calls `ByteBuffer::get_rpos`.
#[verifier::external_body]
fn buffer_get_rpos(buffer: &ByteBuffer) -> (rpos: usize)
    ensures
        rpos == buffer_rpos(*buffer),
{
    buffer.get_rpos()
}

/// Calls `ByteBuffer::read_bytes` for no more than is left: it gives the next bytes
/// and moves the reading position past them.
#[verifier::external_body]
fn buffer_read_bytes(buffer: &mut ByteBuffer, size: usize) -> (bytes: Vec<u8>)
    requires
        buffer_aligned(*old(buffer)),
        buffer_rpos(*old(buffer)) + size <= buffer_bytes(*old(buffer)).len(),
    ensures
        bytes@ == buffer_bytes(*old(buffer)).subrange(
            buffer_rpos(*old(buffer)) as int,
            buffer_rpos(*old(buffer)) + size,
        ),
        buffer_bytes(*final(buffer)) == buffer_bytes(*old(buffer)),
        buffer_rpos(*final(buffer)) == buffer_rpos(*old(buffer)) + size,
        buffer_aligned(*final(buffer)),
{
    buffer.read_bytes(size).unwrap()
}

/// Calls `ByteBuffer::write_bytes`: the bytes are appended.
#[verifier::external_body]
fn buffer_write_bytes(buffer: &mut ByteBuffer, bytes: &[u8])
    requires
        buffer_aligned(*old(buffer)),
        buffer_bytes(*old(buffer)).len() == 0 || buffer_bytes(*old(buffer)).len() + bytes@.len()
            <= isize::MAX,
    ensures
        buffer_bytes(*final(buffer)) == buffer_bytes(*old(buffer)) + bytes@,
        buffer_rpos(*final(buffer)) == buffer_rpos(*old(buffer)),
        buffer_aligned(*final(buffer)),
{
    buffer.write_bytes(bytes)
}

/// Calls `ByteBuffer::clear`: it holds nothing afterwards.
#[verifier::external_body]
fn buffer_clear(buffer: &mut ByteBuffer)
    ensures
        buffer_bytes(*final(buffer)) == Seq::<u8>::empty(),
        buffer_rpos(*final(buffer)) == 0,
        buffer_aligned(*final(buffer)),
{
    buffer.clear()
}

/// The place where a reader wants its bytes.
#[verifier::external_type_specification]
#[verifier::external_body]
pub struct ExReadBuf<'a>(ReadBuf<'a>);

/// The bytes that were put into a reader's place.
pub uninterp spec fn read_buf_filled(buf: ReadBuf<'_>) -> Seq<u8>;

/// How many bytes more fit into a reader's place.
pub uninterp spec fn read_buf_room(buf: ReadBuf<'_>) -> nat;

/// Calls `ReadBuf::remaining`.
#[verifier::external_body]
fn read_buf_remaining(buf: &ReadBuf<'_>) -> (room: usize)
    ensures
        room == read_buf_room(*buf),
{
    buf.remaining()
}

/// Calls `ReadBuf::put_slice` with bytes that fit: they are appended.
#[verifier::external_body]
fn read_buf_put_slice(buf: &mut ReadBuf<'_>, bytes: &[u8])
    requires
        bytes@.len() <= read_buf_room(*old(buf)),
    ensures
        read_buf_filled(*final(buf)) == read_buf_filled(*old(buf)) + bytes@,
        read_buf_room(*final(buf)) == read_buf_room(*old(buf)) - bytes@.len(),
{
    buf.put_slice(bytes)
}

/// A message of a websocket.
#[verifier::external_type_specification]
#[verifier::external_body]
pub struct ExMessage(Message);

/// The bytes that a message holds.
pub uninterp spec fn message_bytes(message: Message) -> Seq<u8>;

/// Whether a message is a binary one.
pub uninterp spec fn message_is_binary(message: Message) -> bool;

/// Calls `Message::is_binary`.
#[verifier::external_body]
fn is_binary(message: &Message) -> (binary: bool)
    ensures
        binary == message_is_binary(*message),
{
    message.is_binary()
}

/// Calls `Message::as_bytes`.
#[verifier::external_body]
fn as_bytes(message: &Message) -> (bytes: &[u8])
    ensures
        bytes@ == message_bytes(*message),
{
    message.as_bytes()
}

/// Calls `Message::binary`: a binary message of just these bytes.
#[verifier::external_body]
fn binary_message(bytes: &[u8]) -> (message: Message)
    ensures
        message_is_binary(message),
        message_bytes(message) == bytes@,
{
    Message::binary(bytes)
}

/// The part of the bytes at hand that a reader with some room gets.
pub open spec fn front(bytes: Seq<u8>, room: nat) -> Seq<u8> {
    if bytes.len() <= room {
        bytes
    } else {
        bytes.take(room as int)
    }
}

/// The part of the bytes at hand that is kept for later.
pub open spec fn rest(bytes: Seq<u8>, room: nat) -> Seq<u8> {
    if bytes.len() <= room {
        Seq::empty()
    } else {
        bytes.skip(room as int)
    }
}

/// What a poll of the websocket gave.
pub enum WebsocketPoll {
    Pending,
    Message(Message),
    Failed,
    Closed,
}

/// What a read comes to. A read that is ready and put nothing into the reader's
/// place is the end of the stream.
#[derive(Debug, PartialEq, Eq, Structural, Clone, Copy)]
pub enum ReadPoll {
    Pending,
    Ready,
    Failed,
}

/// The reading side of the stream: the bytes that were received and not yet read.
pub struct ExtractWebsocketStream {
    pub byte_buffer: ByteBuffer,
}

impl ExtractWebsocketStream {
    /// The bytes that were received and not yet read.
    pub open spec fn pending(&self) -> Seq<u8> {
        buffer_bytes(self.byte_buffer).skip(buffer_rpos(self.byte_buffer) as int)
    }

    /// The buffer is used at its ends alone, and is emptied once it is read.
    pub open spec fn wf(&self) -> bool {
        &&& buffer_aligned(self.byte_buffer)
        &&& buffer_bytes(self.byte_buffer).len() == 0 ==> buffer_rpos(self.byte_buffer) == 0
        &&& buffer_bytes(self.byte_buffer).len() > 0 ==> buffer_rpos(self.byte_buffer)
            < buffer_bytes(self.byte_buffer).len()
    }

    /// A stream of which nothing was received.
    pub fn new() -> (stream: Self)
        ensures
            stream.wf(),
            stream.pending() == Seq::<u8>::empty(),
    {
        ExtractWebsocketStream { byte_buffer: buffer_new() }
    }

    /// Serves a read from the bytes that were received before, and tells whether
    /// there were any. Where there were none, the websocket is polled and
    /// `poll_read_websocket` goes on.
    pub fn poll_read(&mut self, buf: &mut ReadBuf<'_>) -> (served: bool)
        requires
            old(self).wf(),
        ensures
            final(self).wf(),
            served == (old(self).pending().len() > 0),
            final(self).pending() == rest(old(self).pending(), read_buf_room(*old(buf))),
            read_buf_filled(*final(buf)) == read_buf_filled(*old(buf)) + front(
                old(self).pending(),
                read_buf_room(*old(buf)),
            ),
            read_buf_room(*final(buf)) == read_buf_room(*old(buf)) - front(
                old(self).pending(),
                read_buf_room(*old(buf)),
            ).len(),
    {
        if buffer_is_empty(&self.byte_buffer) {
            assert(self.pending() =~= Seq::empty());
            return false;
        }
        let room: usize = read_buf_remaining(buf);
        let left: usize = buffer_len(&self.byte_buffer) - buffer_get_rpos(&self.byte_buffer);
        let next_len: usize = if room < left {
            room
        } else {
            left
        };
        let bytes = buffer_read_bytes(&mut self.byte_buffer, next_len);
        assert(bytes@ =~= front(old(self).pending(), room as nat));
        assert(self.pending() =~= rest(old(self).pending(), room as nat));
        if buffer_get_rpos(&self.byte_buffer) == buffer_len(&self.byte_buffer) {
            buffer_clear(&mut self.byte_buffer);
            assert(self.pending() =~= Seq::empty());
        }
        read_buf_put_slice(buf, bytes.as_slice());
        true
    }

    /// Serves a read from a frame that was received. A frame that is not binary is
    /// dropped and the reader waits on.
    pub fn accept_frame(&mut self, binary: bool, bytes: &[u8], buf: &mut ReadBuf<'_>) -> (poll:
        ReadPoll)
        requires
            old(self).wf(),
            old(self).pending().len() == 0,
        ensures
            final(self).wf(),
            poll == (if binary {
                ReadPoll::Ready
            } else {
                ReadPoll::Pending
            }),
            binary ==> {
                &&& final(self).pending() == rest(bytes@, read_buf_room(*old(buf)))
                &&& read_buf_filled(*final(buf)) == read_buf_filled(*old(buf)) + front(
                    bytes@,
                    read_buf_room(*old(buf)),
                )
                &&& read_buf_room(*final(buf)) == read_buf_room(*old(buf)) - front(
                    bytes@,
                    read_buf_room(*old(buf)),
                ).len()
            },
            !binary ==> *final(self) == *old(self) && *final(buf) == *old(buf),
    {
        if !binary {
            return ReadPoll::Pending;
        }
        let room: usize = read_buf_remaining(buf);
        if room < bytes.len() {
            let now = slice_subrange(bytes, 0, room);
            let later = slice_subrange(bytes, room, bytes.len());
            assert(now@ =~= front(bytes@, room as nat));
            assert(later@ =~= rest(bytes@, room as nat));
            read_buf_put_slice(buf, now);
            buffer_write_bytes(&mut self.byte_buffer, later);
            assert(self.pending() =~= later@);
        } else {
            read_buf_put_slice(buf, bytes);
        }
        ReadPoll::Ready
    }

    /// Serves a read from what a poll of the websocket gave, where no bytes were left
    /// from before.
    pub fn poll_read_websocket(&mut self, polled: &WebsocketPoll, buf: &mut ReadBuf<'_>) -> (poll:
        ReadPoll)
        requires
            old(self).wf(),
            old(self).pending().len() == 0,
        ensures
            final(self).wf(),
            match *polled {
                WebsocketPoll::Message(message) if message_is_binary(message) => {
                    &&& poll == ReadPoll::Ready
                    &&& final(self).pending() == rest(
                        message_bytes(message),
                        read_buf_room(*old(buf)),
                    )
                    &&& read_buf_filled(*final(buf)) == read_buf_filled(*old(buf)) + front(
                        message_bytes(message),
                        read_buf_room(*old(buf)),
                    )
                    &&& read_buf_room(*final(buf)) == read_buf_room(*old(buf)) - front(
                        message_bytes(message),
                        read_buf_room(*old(buf)),
                    ).len()
                },
                other => {
                    &&& poll == (match other {
                        WebsocketPoll::Failed => ReadPoll::Failed,
                        WebsocketPoll::Closed => ReadPoll::Ready,
                        _ => ReadPoll::Pending,
                    })
                    &&& *final(self) == *old(self)
                    &&& *final(buf) == *old(buf)
                },
            },
    {
        match polled {
            WebsocketPoll::Message(message) => self.accept_frame(
                is_binary(message),
                as_bytes(message),
                buf,
            ),
            WebsocketPoll::Failed => ReadPoll::Failed,
            WebsocketPoll::Closed => ReadPoll::Ready,
            WebsocketPoll::Pending => ReadPoll::Pending,
        }
    }
}

/// What a step of sending on the websocket gave.
#[derive(Debug, PartialEq, Eq, Structural, Clone, Copy)]
pub enum SinkPoll {
    Pending,
    Ready,
    Failed,
}

/// Where a write stands: the websocket was asked whether it takes a message, was
/// given the message, or was asked to flush it.
#[derive(Debug, PartialEq, Eq, Structural, Clone, Copy)]
pub enum WriteStage {
    Readying,
    Sending,
    Flushing,
}

/// How a write goes on.
pub enum WriteStep {
    /// It waits and starts again later.
    Pending,
    /// The message is handed to the websocket.
    Send(Message),
    /// The websocket is asked to flush.
    Flush,
    /// It is done, with so many bytes.
    Written(usize),
    /// It failed.
    Failed,
}

/// The message carries just these bytes of the stream.
pub open spec fn carries(message: Message, bytes: Seq<u8>) -> bool {
    message_is_binary(message) && message_bytes(message) == bytes
}

impl ExtractWebsocketStream {
    /// The next step of writing `buf`, all of it in one message. Every message is flushed
    /// at once; a flush that is not done yet is left to the next one. To hand a message
    /// over never pends.
    pub fn poll_write(stage: WriteStage, outcome: SinkPoll, buf: &[u8]) -> (step: WriteStep)
        requires
            stage == WriteStage::Sending ==> outcome != SinkPoll::Pending,
        ensures
            match (stage, outcome) {
                (_, SinkPoll::Failed) => step is Failed,
                (WriteStage::Readying, SinkPoll::Pending) => step is Pending,
                (WriteStage::Readying, SinkPoll::Ready) => step matches WriteStep::Send(message)
                    && carries(message, buf@),
                (WriteStage::Sending, _) => step is Flush,
                (WriteStage::Flushing, _) => step matches WriteStep::Written(n) && n
                    == buf@.len(),
            },
    {
        match stage {
            WriteStage::Readying => match outcome {
                SinkPoll::Pending => WriteStep::Pending,
                SinkPoll::Ready => WriteStep::Send(binary_message(buf)),
                SinkPoll::Failed => WriteStep::Failed,
            },
            WriteStage::Sending => match outcome {
                SinkPoll::Failed => WriteStep::Failed,
                _ => WriteStep::Flush,
            },
            WriteStage::Flushing => match outcome {
                SinkPoll::Failed => WriteStep::Failed,
                _ => WriteStep::Written(buf.len()),
            },
        }
    }
}

} // verus!
