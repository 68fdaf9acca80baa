use opsd::stream::{
    ExtractWebsocketStream, ReadPoll, SinkPoll, WebsocketPoll, WriteStage, WriteStep,
};
use tokio::io::ReadBuf;
use warp::ws::Message;

fn binary(bytes: &[u8]) -> WebsocketPoll {
    WebsocketPoll::Message(Message::binary(bytes))
}

#[test]
fn a_message_that_fits_is_read_at_once() {
    let mut stream = ExtractWebsocketStream::new();
    let mut place = [0u8; 8];
    let mut buf = ReadBuf::new(&mut place);
    assert!(!stream.poll_read(&mut buf));
    assert_eq!(stream.poll_read_websocket(&binary(b"hello"), &mut buf), ReadPoll::Ready);
    assert_eq!(buf.filled(), b"hello");
    assert_eq!(buf.remaining(), 3);
    assert!(!stream.poll_read(&mut buf));
    assert_eq!(buf.filled(), b"hello");
}

#[test]
fn what_does_not_fit_is_kept_for_the_next_reads() {
    let mut stream = ExtractWebsocketStream::new();
    let mut place = [0u8; 3];
    let mut buf = ReadBuf::new(&mut place);
    assert_eq!(stream.poll_read_websocket(&binary(b"abcdefgh"), &mut buf), ReadPoll::Ready);
    assert_eq!(buf.filled(), b"abc");
    let mut place = [0u8; 4];
    let mut buf = ReadBuf::new(&mut place);
    assert!(stream.poll_read(&mut buf));
    assert_eq!(buf.filled(), b"defg");
    let mut place = [0u8; 4];
    let mut buf = ReadBuf::new(&mut place);
    assert!(stream.poll_read(&mut buf));
    assert_eq!(buf.filled(), b"h");
    assert!(!stream.poll_read(&mut buf));
    assert_eq!(stream.poll_read_websocket(&binary(b"ij"), &mut buf), ReadPoll::Ready);
    assert_eq!(buf.filled(), b"hij");
}

#[test]
fn a_reader_without_room_gets_nothing_and_loses_nothing() {
    let mut stream = ExtractWebsocketStream::new();
    let mut none = [0u8; 0];
    let mut buf = ReadBuf::new(&mut none);
    assert_eq!(stream.poll_read_websocket(&binary(b"xy"), &mut buf), ReadPoll::Ready);
    assert!(stream.poll_read(&mut buf));
    assert_eq!(buf.filled().len(), 0);
    let mut place = [0u8; 2];
    let mut buf = ReadBuf::new(&mut place);
    assert!(stream.poll_read(&mut buf));
    assert_eq!(buf.filled(), b"xy");
    assert!(!stream.poll_read(&mut buf));
}

#[test]
fn other_messages_are_dropped() {
    let mut stream = ExtractWebsocketStream::new();
    let mut place = [0u8; 8];
    let mut buf = ReadBuf::new(&mut place);
    for message in [Message::text("hi"), Message::ping("p"), Message::pong("p"), Message::close()] {
        let polled = WebsocketPoll::Message(message);
        assert_eq!(stream.poll_read_websocket(&polled, &mut buf), ReadPoll::Pending);
    }
    assert_eq!(buf.filled().len(), 0);
    assert!(!stream.poll_read(&mut buf));
}

#[test]
fn ends_and_failures_of_the_websocket() {
    let mut stream = ExtractWebsocketStream::new();
    let mut place = [0u8; 8];
    let mut buf = ReadBuf::new(&mut place);
    assert_eq!(stream.poll_read_websocket(&WebsocketPoll::Pending, &mut buf), ReadPoll::Pending);
    assert_eq!(stream.poll_read_websocket(&WebsocketPoll::Failed, &mut buf), ReadPoll::Failed);
    assert_eq!(stream.poll_read_websocket(&WebsocketPoll::Closed, &mut buf), ReadPoll::Ready);
    assert_eq!(buf.filled().len(), 0);
}

#[test]
fn frames_as_plain_values() {
    let mut stream = ExtractWebsocketStream::new();
    let mut place = [0u8; 2];
    let mut buf = ReadBuf::new(&mut place);
    assert_eq!(stream.accept_frame(false, b"abc", &mut buf), ReadPoll::Pending);
    assert_eq!(buf.filled().len(), 0);
    assert_eq!(stream.accept_frame(true, b"abc", &mut buf), ReadPoll::Ready);
    assert_eq!(buf.filled(), b"ab");
    let mut place = [0u8; 2];
    let mut buf = ReadBuf::new(&mut place);
    assert!(stream.poll_read(&mut buf));
    assert_eq!(buf.filled(), b"c");
}

#[test]
fn steps_of_a_write() {
    match ExtractWebsocketStream::poll_write(WriteStage::Readying, SinkPoll::Ready, b"data") {
        WriteStep::Send(message) => {
            assert!(message.is_binary());
            assert_eq!(message.as_bytes(), b"data");
        }
        _ => panic!("the message has to be sent"),
    }
    let step = ExtractWebsocketStream::poll_write(WriteStage::Readying, SinkPoll::Pending, b"data");
    assert!(matches!(step, WriteStep::Pending));
    let step = ExtractWebsocketStream::poll_write(WriteStage::Sending, SinkPoll::Ready, b"data");
    assert!(matches!(step, WriteStep::Flush));
    let step = ExtractWebsocketStream::poll_write(WriteStage::Flushing, SinkPoll::Ready, b"data");
    assert!(matches!(step, WriteStep::Written(4)));
    let step = ExtractWebsocketStream::poll_write(WriteStage::Flushing, SinkPoll::Pending, b"data");
    assert!(matches!(step, WriteStep::Written(4)));
    for stage in [WriteStage::Readying, WriteStage::Sending, WriteStage::Flushing] {
        let step = ExtractWebsocketStream::poll_write(stage, SinkPoll::Failed, b"data");
        assert!(matches!(step, WriteStep::Failed));
    }
}

#[test]
fn the_other_side_reads_what_was_written() {
    let writes: [&[u8]; 4] = [b"one", b"", b"two and more", b"three"];
    let mut stream = ExtractWebsocketStream::new();
    let mut seen: Vec<u8> = Vec::new();
    for write in writes {
        let step = ExtractWebsocketStream::poll_write(WriteStage::Readying, SinkPoll::Ready, write);
        let message = match step {
            WriteStep::Send(message) => message,
            _ => panic!("the message has to be sent"),
        };
        let mut place = [0u8; 2];
        let mut buf = ReadBuf::new(&mut place);
        let polled = WebsocketPoll::Message(message);
        assert_eq!(stream.poll_read_websocket(&polled, &mut buf), ReadPoll::Ready);
        seen.extend_from_slice(buf.filled());
        loop {
            let mut place = [0u8; 5];
            let mut buf = ReadBuf::new(&mut place);
            if !stream.poll_read(&mut buf) {
                break;
            }
            seen.extend_from_slice(buf.filled());
        }
    }
    assert_eq!(seen, b"onetwo and morethree".to_vec());
}
