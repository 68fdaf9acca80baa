use opsd::sftp::{
    plan_bits, plan_open, proceed, read_reply, read_step, read_window, status_of_kind, write_reply,
    write_step, OpenPlan, ReadAction, ReadEvent, ReadStep, SFTPError, SftpSession, StatusCode,
    Version, WriteAction, WriteEvent, WriteStep,
};
use russh_sftp::protocol::OpenFlags;

#[test]
fn codes_of_error_kinds() {
    let expected = [
        StatusCode::NoSuchFile,
        StatusCode::PermissionDenied,
        StatusCode::Failure,
        StatusCode::BadMessage,
        StatusCode::NoConnection,
        StatusCode::ConnectionLost,
        StatusCode::OpUnsupported,
        StatusCode::Failure,
    ];
    for (kind, code) in expected.iter().enumerate() {
        assert_eq!(status_of_kind(kind as u8), *code);
    }
    assert_eq!(status_of_kind(255), StatusCode::Failure);
    for kind in 0..=255u8 {
        assert!(status_of_kind(kind) != StatusCode::Okay);
        assert!(status_of_kind(kind) != StatusCode::Eof);
    }
}

#[test]
fn errors_become_the_code_of_their_kind() {
    for kind in [
        std::io::ErrorKind::NotFound,
        std::io::ErrorKind::PermissionDenied,
        std::io::ErrorKind::UnexpectedEof,
        std::io::ErrorKind::Other,
    ] {
        let error = SFTPError::from(std::io::Error::from(kind));
        assert_eq!(error.inner.kind(), kind);
        let code: StatusCode = error.into();
        assert_eq!(code, status_of_kind(kind as u8));
    }
    let missing = SFTPError::from(std::io::Error::from(std::io::ErrorKind::NotFound));
    assert_eq!(StatusCode::from(missing), StatusCode::NoSuchFile);
}

#[test]
fn a_session_is_greeted_once() {
    let mut session: SftpSession<u32> = SftpSession::default();
    assert_eq!(session.version, None);
    let spoken: Version = session.init(6).ok().unwrap();
    assert_eq!(spoken.version, 3);
    assert!(spoken.extensions.is_empty());
    assert_eq!(session.version, Some(6));
    assert_eq!(session.init(3).err(), Some(StatusCode::ConnectionLost));
    assert_eq!(session.version, Some(6));
    assert_eq!(session.unimplemented(), StatusCode::OpUnsupported);
}

#[test]
fn flags_make_the_plan() {
    let closed = OpenPlan {
        create: false,
        create_new: false,
        read: false,
        write: false,
        append: false,
        truncate: false,
        mode: 0o644,
    };
    let cases = [
        (OpenFlags::empty(), closed),
        (OpenFlags::READ, OpenPlan { read: true, ..closed }),
        (OpenFlags::WRITE, OpenPlan { write: true, ..closed }),
        (OpenFlags::APPEND, OpenPlan { append: true, ..closed }),
        (OpenFlags::CREATE, OpenPlan { create: true, ..closed }),
        (OpenFlags::TRUNCATE, OpenPlan { truncate: true, ..closed }),
        (OpenFlags::EXCLUDE, OpenPlan { create_new: true, ..closed }),
        (
            OpenFlags::WRITE | OpenFlags::CREATE | OpenFlags::TRUNCATE,
            OpenPlan { write: true, create: true, truncate: true, ..closed },
        ),
    ];
    for (flags, plan) in cases {
        assert_eq!(plan_open(&flags, Some(0o644)), plan);
        assert_eq!(plan_bits(flags.bits(), 0o644), plan);
    }
    assert_eq!(plan_bits(0xffff_ffc0, 0), OpenPlan { mode: 0, ..closed });
}

#[test]
fn files_are_found_by_their_handles() {
    let mut session: SftpSession<Vec<u8>> = SftpSession::default();
    let handle = session.open(1, "/tmp/a".to_string(), Some(vec![1])).ok().unwrap();
    assert_eq!(handle.id, 1);
    assert_eq!(handle.handle, "/tmp/a");
    assert!(matches!(session.open(2, "/tmp/b".to_string(), None), Err(StatusCode::Failure)));
    assert!(matches!(session.locate("/tmp/b"), Err(StatusCode::NoSuchFile)));
    if let Ok(file) = session.locate("/tmp/a") {
        file.push(2);
    }
    assert_eq!(session.locate("/tmp/a").ok(), Some(&mut vec![1, 2]));
    assert!(session.open(3, "/tmp/a".to_string(), Some(vec![])).is_ok());
    assert_eq!(session.locate("/tmp/a").ok(), Some(&mut vec![]));
}

#[test]
fn closing_is_always_answered_well() {
    let mut session: SftpSession<u32> = SftpSession::default();
    assert!(session.open(1, "a".to_string(), Some(1)).is_ok());
    assert!(session.open(2, "b".to_string(), Some(2)).is_ok());
    for id in [3, 4] {
        let status = session.close(id, "a").ok().unwrap();
        assert_eq!(status.id, id);
        assert_eq!(status.status_code, StatusCode::Okay);
        assert_eq!(status.error_message, "Ok");
        assert_eq!(status.language_tag, "en-US");
    }
    assert!(session.locate("a").is_err());
    assert!(session.locate("b").is_ok());
}

#[test]
fn windows_of_a_file() {
    assert_eq!(read_window(None, 0, 10), Err(StatusCode::Failure));
    assert_eq!(read_window(Some(0), 0, 10), Err(StatusCode::Eof));
    assert_eq!(read_window(Some(10), 10, 10), Err(StatusCode::Eof));
    assert_eq!(read_window(Some(10), 11, 10), Err(StatusCode::Eof));
    assert_eq!(read_window(Some(10), 0, 10), Ok(10));
    assert_eq!(read_window(Some(10), 3, 10), Ok(7));
    assert_eq!(read_window(Some(10), 3, 4), Ok(4));
    assert_eq!(read_window(Some(10), 3, 0), Ok(0));
    assert_eq!(read_window(Some(u64::MAX), 0, u32::MAX), Ok(u32::MAX));
    assert_eq!(read_window(Some(u64::MAX), u64::MAX - 1, u32::MAX), Ok(1));
}

#[test]
fn windows_cover_the_file() {
    let size: u64 = 1000;
    let mut offset: u64 = 0;
    let mut reads: u32 = 0;
    while let Ok(n) = read_window(Some(size), offset, 300) {
        offset += n as u64;
        reads += 1;
    }
    assert_eq!(offset, size);
    assert_eq!(reads, 4);
}

#[test]
fn answers_to_reads() {
    let mut session: SftpSession<u32> = SftpSession::default();
    assert!(session.open(1, "f".to_string(), Some(1)).is_ok());
    let missing = session.read(9, "g", 0, 4, Some(8), true, Ok(vec![1]));
    assert!(matches!(missing, Err(StatusCode::NoSuchFile)));
    let unsized_file = session.read(9, "f", 0, 4, None, true, Ok(vec![1]));
    assert!(matches!(unsized_file, Err(StatusCode::Failure)));
    let end = session.read(9, "f", 8, 4, Some(8), true, Ok(vec![1]));
    assert!(matches!(end, Err(StatusCode::Eof)));
    let lost = session.read(9, "f", 0, 4, Some(8), false, Ok(vec![1]));
    assert!(matches!(lost, Err(StatusCode::Failure)));
    let denied = std::io::Error::from(std::io::ErrorKind::PermissionDenied);
    let failed = session.read(9, "f", 0, 4, Some(8), true, Err(SFTPError::from(denied)));
    assert!(matches!(failed, Err(StatusCode::PermissionDenied)));
    let data = session.read(9, "f", 0, 4, Some(8), true, Ok(vec![5, 6])).ok().unwrap();
    assert_eq!(data.id, 9);
    assert_eq!(data.data, vec![5, 6]);
    assert!(read_reply(1, Ok(vec![])).is_ok());
}

#[test]
fn answers_to_writes() {
    let mut session: SftpSession<u32> = SftpSession::default();
    assert!(session.open(1, "f".to_string(), Some(1)).is_ok());
    assert!(matches!(session.write(2, "g", true, true), Err(StatusCode::NoSuchFile)));
    assert!(matches!(session.write(2, "f", false, true), Err(StatusCode::Failure)));
    assert!(matches!(session.write(2, "f", true, false), Err(StatusCode::Failure)));
    let status = session.write(2, "f", true, true).ok().unwrap();
    assert_eq!(status.id, 2);
    assert_eq!(status.status_code, StatusCode::Okay);
    assert_eq!(status.error_message, "Ok");
    assert_eq!(status.language_tag, "en-US");
    assert!(write_reply(3, true, false).is_err());
    assert_eq!(proceed(true), Ok(()));
    assert_eq!(proceed(false), Err(StatusCode::Failure));
}

#[test]
fn steps_of_a_read() {
    let step = |event: ReadEvent| read_step(4, 3, 10, event);
    let seek = ReadAction::Seek { offset: 3, window: 5 };
    assert!(matches!(
        step(ReadEvent::Located { open: true }),
        ReadStep::Act(ReadAction::Measure)
    ));
    assert!(matches!(
        step(ReadEvent::Located { open: false }),
        ReadStep::Reply(Err(StatusCode::NoSuchFile))
    ));
    match step(ReadEvent::Measured { size: Some(8) }) {
        ReadStep::Act(action) => assert_eq!(action, seek),
        ReadStep::Reply(_) => panic!("the offset has to be sought"),
    }
    assert!(matches!(
        step(ReadEvent::Measured { size: Some(3) }),
        ReadStep::Reply(Err(StatusCode::Eof))
    ));
    assert!(matches!(
        step(ReadEvent::Measured { size: None }),
        ReadStep::Reply(Err(StatusCode::Failure))
    ));
    assert!(matches!(
        step(ReadEvent::Sought { window: 5, found: true }),
        ReadStep::Act(ReadAction::Fetch { window: 5 })
    ));
    assert!(matches!(
        step(ReadEvent::Sought { window: 5, found: false }),
        ReadStep::Reply(Err(StatusCode::Failure))
    ));
    match step(ReadEvent::Fetched { fetched: Ok(vec![1, 2]) }) {
        ReadStep::Reply(Ok(data)) => {
            assert_eq!(data.id, 4);
            assert_eq!(data.data, vec![1, 2]);
        }
        _ => panic!("the request has to be answered"),
    }
    let missing = SFTPError::from(std::io::Error::from(std::io::ErrorKind::NotFound));
    assert!(matches!(
        step(ReadEvent::Fetched { fetched: Err(missing) }),
        ReadStep::Reply(Err(StatusCode::NoSuchFile))
    ));
}

#[test]
fn a_read_takes_its_steps_in_order() {
    let cases = [(Some(8u64), true, 3), (Some(8), false, 2), (Some(2), true, 1), (None, true, 1)];
    for (size, found, expected) in cases {
        let mut event = ReadEvent::Located { open: true };
        let mut actions: Vec<ReadAction> = Vec::new();
        while let ReadStep::Act(action) = read_step(1, 2, 4, event) {
            actions.push(action);
            event = match action {
                ReadAction::Measure => ReadEvent::Measured { size },
                ReadAction::Seek { window, .. } => ReadEvent::Sought { window, found },
                ReadAction::Fetch { .. } => ReadEvent::Fetched { fetched: Ok(vec![]) },
            };
        }
        let all = [
            ReadAction::Measure,
            ReadAction::Seek { offset: 2, window: 4 },
            ReadAction::Fetch { window: 4 },
        ];
        assert_eq!(actions, all[..expected].to_vec());
    }
}

#[test]
fn steps_of_a_file_write() {
    match write_step(6, b"bytes", WriteEvent::Located { open: true }) {
        WriteStep::Act(WriteAction::WriteAll { data }) => assert_eq!(data, b"bytes"),
        _ => panic!("the bytes have to be written"),
    }
    assert!(matches!(
        write_step(6, b"bytes", WriteEvent::Located { open: false }),
        WriteStep::Reply(Err(StatusCode::NoSuchFile))
    ));
    assert!(matches!(
        write_step(6, b"bytes", WriteEvent::Written { all: true }),
        WriteStep::Act(WriteAction::Flush)
    ));
    assert!(matches!(
        write_step(6, b"bytes", WriteEvent::Written { all: false }),
        WriteStep::Reply(Err(StatusCode::Failure))
    ));
    assert!(matches!(
        write_step(6, b"bytes", WriteEvent::Flushed { flushed: false }),
        WriteStep::Reply(Err(StatusCode::Failure))
    ));
    match write_step(6, b"bytes", WriteEvent::Flushed { flushed: true }) {
        WriteStep::Reply(Ok(status)) => {
            assert_eq!(status.id, 6);
            assert_eq!(status.status_code, StatusCode::Okay);
        }
        _ => panic!("the request has to be answered"),
    }
}

#[test]
fn a_closed_handle_stays_unknown_until_it_is_opened() {
    let mut session: SftpSession<u32> = SftpSession::default();
    assert!(session.init(3).is_ok());
    assert!(session.open(1, "f".to_string(), Some(1)).is_ok());
    assert!(session.open(2, "g".to_string(), Some(2)).is_ok());
    assert!(session.close(3, "f").is_ok());
    assert!(session.open(4, "f".to_string(), None).is_err());
    assert!(session.close(5, "h").is_ok());
    assert!(session.init(4).is_err());
    assert!(matches!(session.locate("f"), Err(StatusCode::NoSuchFile)));
    assert!(matches!(session.write(6, "f", true, true), Err(StatusCode::NoSuchFile)));
    assert_eq!(session.locate("g").ok(), Some(&mut 2));
    assert!(session.open(7, "f".to_string(), Some(9)).is_ok());
    assert_eq!(session.locate("f").ok(), Some(&mut 9));
    assert_eq!(session.version, Some(3));
}
