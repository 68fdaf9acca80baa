use opsd::async_fs_stream::{after_attempt, AsyncFsStream, Attempt, Flush};

#[test]
fn attempts_are_made_again_only_where_they_would_block() {
    assert_eq!(after_attempt::<u8>(Attempt::WouldBlock), None);
    assert_eq!(after_attempt::<u8>(Attempt::Done(0)), Some(Ok(0)));
    assert_eq!(after_attempt::<u8>(Attempt::Done(12)), Some(Ok(12)));
    assert_eq!(after_attempt::<u8>(Attempt::Failed(5)), Some(Err(5)));
}

#[test]
fn only_files_are_flushed() {
    let file = AsyncFsStream::new(4, true);
    assert_eq!(file.fd, 4);
    assert_eq!(file.file, Some(4));
    assert_eq!(file.poll_flush(), Flush::File);
    let pipe = AsyncFsStream::new(5, false);
    assert_eq!(pipe.fd, 5);
    assert_eq!(pipe.file, None);
    assert_eq!(pipe.poll_flush(), Flush::Nothing);
}
