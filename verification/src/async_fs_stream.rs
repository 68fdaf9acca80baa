//! A stream on a file descriptor that never blocks: when an attempt to read or write is
//! made again, and what a flush means.

use vstd::prelude::*;

verus! {

/// What an attempt to read or write gave.
pub enum Attempt<E> {
    /// It would have blocked.
    WouldBlock,
    /// So many bytes went through.
    Done(usize),
    /// It failed.
    Failed(E),
}

/// The outcome of reading or writing, after an attempt. `None` tells that the attempt is
/// made again once the descriptor is ready.
pub fn after_attempt<E>(attempt: Attempt<E>) -> (outcome: Option<Result<usize, E>>)
    ensures
        outcome == (match attempt {
            Attempt::WouldBlock => None::<Result<usize, E>>,
            Attempt::Done(len) => Some(Ok::<usize, E>(len)),
            Attempt::Failed(error) => Some(Err::<usize, E>(error)),
        }),
{
    match attempt {
        Attempt::WouldBlock => None,
        Attempt::Done(len) => Some(Ok(len)),
        Attempt::Failed(error) => Some(Err(error)),
    }
}

/// What a flush calls for.
#[derive(Debug, PartialEq, Eq, Structural, Clone, Copy)]
pub enum Flush {
    /// Nothing is held back.
    Nothing,
    /// The file is flushed.
    File,
}

/// A stream on a descriptor, of a file or of something else.
#[derive(Debug, PartialEq, Eq, Structural, Clone, Copy)]
pub struct AsyncFsStream {
    pub fd: i32,
    pub file: Option<i32>,
}

impl AsyncFsStream {
    /// A stream on the descriptor. Where it is one of a file, the stream holds the file.
    pub fn new(fd: i32, fd_is_file: bool) -> (stream: Self)
        ensures
            stream.fd == fd,
            stream.file == (if fd_is_file {
                Some(fd)
            } else {
                None
            }),
    {
        if fd_is_file {
            AsyncFsStream { fd: fd, file: Some(fd) }
        } else {
            AsyncFsStream { fd: fd, file: None }
        }
    }

    /// What a flush calls for: only a file is flushed.
    pub fn poll_flush(&self) -> (flush: Flush)
        ensures
            flush == (if self.file is Some {
                Flush::File
            } else {
                Flush::Nothing
            }),
    {
        match self.file {
            Some(_) => Flush::File,
            None => Flush::Nothing,
        }
    }
}

} // verus!
