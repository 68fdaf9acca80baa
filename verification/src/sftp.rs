//! The rules of an SFTP session: what its requests are answered, by what the files
//! behind them gave.

use crate::name_map::NameMap;
use russh_sftp::protocol::OpenFlags;
use std::collections::HashMap;
use vstd::prelude::*;

verus! {

/// The status codes of the protocol.
#[derive(Debug, PartialEq, Eq, Structural, Clone, Copy)]
pub enum StatusCode {
    Okay,
    Eof,
    NoSuchFile,
    PermissionDenied,
    Failure,
    BadMessage,
    NoConnection,
    ConnectionLost,
    OpUnsupported,
}

/// The status code with a number. Numbers that have none count as a failure.
pub open spec fn numbered_status(number: int) -> StatusCode {
    if number == 0 {
        StatusCode::Okay
    } else if number == 1 {
        StatusCode::Eof
    } else if number == 2 {
        StatusCode::NoSuchFile
    } else if number == 3 {
        StatusCode::PermissionDenied
    } else if number == 5 {
        StatusCode::BadMessage
    } else if number == 6 {
        StatusCode::NoConnection
    } else if number == 7 {
        StatusCode::ConnectionLost
    } else if number == 8 {
        StatusCode::OpUnsupported
    } else {
        StatusCode::Failure
    }
}

/// Calls `russh_sftp::protocol::StatusCode::from` on a number: it gives the code with
/// that number, and `Failure` where there is none.
#[verifier::external_body]
fn status_from_number(number: u32) -> (code: StatusCode)
    ensures
        code == numbered_status(number as int),
{
    match russh_sftp::protocol::StatusCode::from(number) {
        russh_sftp::protocol::StatusCode::Ok => StatusCode::Okay,
        russh_sftp::protocol::StatusCode::Eof => StatusCode::Eof,
        russh_sftp::protocol::StatusCode::NoSuchFile => StatusCode::NoSuchFile,
        russh_sftp::protocol::StatusCode::PermissionDenied => StatusCode::PermissionDenied,
        russh_sftp::protocol::StatusCode::Failure => StatusCode::Failure,
        russh_sftp::protocol::StatusCode::BadMessage => StatusCode::BadMessage,
        russh_sftp::protocol::StatusCode::NoConnection => StatusCode::NoConnection,
        russh_sftp::protocol::StatusCode::ConnectionLost => StatusCode::ConnectionLost,
        russh_sftp::protocol::StatusCode::OpUnsupported => StatusCode::OpUnsupported,
    }
}

/// An error of input or output. Nothing is known of a value of it.
#[verifier::external_type_specification]
#[verifier::external_body]
pub struct ExIoError(std::io::Error);

/// The place of an error's kind among the kinds that there are.
pub uninterp spec fn kind_number(error: std::io::Error) -> u8;

/// Calls `std::io::Error::kind` and gives the place of the kind among the kinds that
/// there are. It is a function of the error; which place each kind has is up to the
/// standard library and left open.
#[verifier::external_body]
fn error_kind_number(error: &std::io::Error) -> (kind: u8)
    ensures
        kind == kind_number(*error),
{
    error.kind() as u8
}

/// The status code for an error of the given kind: the kinds stand for the codes that
/// are errors, in order, and the kinds beyond them for a failure.
pub open spec fn kind_status(kind: u8) -> StatusCode {
    numbered_status(kind + 2)
}

/// The status code for an error of the given kind.
pub fn status_of_kind(kind: u8) -> (code: StatusCode)
    ensures
        code == kind_status(kind),
{
    status_from_number(kind as u32 + 2)
}

/// An error of a file, to be answered with a status code.
pub struct SFTPError {
    pub inner: std::io::Error,
}

impl From<std::io::Error> for SFTPError {
    fn from(value: std::io::Error) -> (error: Self) {
        SFTPError { inner: value }
    }
}

impl vstd::std_specs::convert::FromSpecImpl<std::io::Error> for SFTPError {
    open spec fn obeys_from_spec() -> bool {
        true
    }

    open spec fn from_spec(value: std::io::Error) -> SFTPError {
        SFTPError { inner: value }
    }
}

impl From<SFTPError> for StatusCode {
    fn from(error: SFTPError) -> (code: StatusCode)
        ensures
            code == kind_status(kind_number(error.inner)),
    {
        let kind: u8 = error_kind_number(&error.inner);
        status_of_kind(kind)
    }
}

impl vstd::std_specs::convert::FromSpecImpl<SFTPError> for StatusCode {
    open spec fn obeys_from_spec() -> bool {
        true
    }

    open spec fn from_spec(error: SFTPError) -> StatusCode {
        kind_status(kind_number(error.inner))
    }
}

/// The version of the protocol that the session speaks, and the extensions that it
/// offers, by name.
#[derive(Debug)]
pub struct Version {
    pub version: u32,
    pub extensions: HashMap<String, String>,
}

/// The version that the session itself speaks, without extensions.
pub open spec fn is_own_version(spoken: Version) -> bool {
    &&& spoken.version == 3
    &&& spoken.extensions@ == Map::<String, String>::empty()
}

/// Calls `russh_sftp::protocol::Version::new`: version 3 of the protocol, with no
/// extensions.
#[verifier::external_body]
fn protocol_version() -> (spoken: Version)
    ensures
        is_own_version(spoken),
{
    let spoken = russh_sftp::protocol::Version::new();
    Version { version: spoken.version, extensions: spoken.extensions }
}

/// An open file, by the name under which the client refers to it.
pub struct Handle {
    pub id: u32,
    pub handle: String,
}

/// Bytes of a file.
pub struct Data {
    pub id: u32,
    pub data: Vec<u8>,
}

/// The outcome of a request that gives nothing back.
pub struct Status {
    pub id: u32,
    pub status_code: StatusCode,
    pub error_message: String,
    pub language_tag: String,
}

/// The status of a request that was done.
pub open spec fn is_done(status: Status, id: u32) -> bool {
    &&& status.id == id
    &&& status.status_code == StatusCode::Okay
    &&& status.error_message@ == "Ok"@
    &&& status.language_tag@ == "en-US"@
}

/// The status of a request that was done.
fn done(id: u32) -> (status: Status)
    ensures
        is_done(status, id),
{
    Status {
        id: id,
        status_code: StatusCode::Okay,
        error_message: "Ok".to_owned(),
        language_tag: "en-US".to_owned(),
    }
}

/// The flags with which a client opens a file.
#[verifier::external_type_specification]
#[verifier::external_body]
pub struct ExOpenFlags(OpenFlags);

/// The flags as the bits of a number.
pub uninterp spec fn open_flag_bits(flags: OpenFlags) -> u32;

/// Calls `OpenFlags::bits`.
#[verifier::external_body]
fn flag_bits(flags: &OpenFlags) -> (bits: u32)
    ensures
        bits == open_flag_bits(*flags),
{
    flags.bits()
}

/// The bit of each flag.
pub struct FlagBits {
    pub read: u32,
    pub write: u32,
    pub append: u32,
    pub create: u32,
    pub truncate: u32,
    pub exclude: u32,
}

/// The bit of each flag, as the protocol numbers them.
pub open spec fn protocol_flags() -> FlagBits {
    FlagBits { read: 0x01, write: 0x02, append: 0x04, create: 0x08, truncate: 0x10, exclude: 0x20 }
}

/// Reads the constants of `OpenFlags`, each by `OpenFlags::bits`.
#[verifier::external_body]
fn each_flag() -> (flags: FlagBits)
    ensures
        flags == protocol_flags(),
{
    FlagBits {
        read: OpenFlags::READ.bits(),
        write: OpenFlags::WRITE.bits(),
        append: OpenFlags::APPEND.bits(),
        create: OpenFlags::CREATE.bits(),
        truncate: OpenFlags::TRUNCATE.bits(),
        exclude: OpenFlags::EXCLUDE.bits(),
    }
}

/// How a file is opened.
#[derive(Debug, PartialEq, Eq, Structural, Clone, Copy)]
pub struct OpenPlan {
    pub create: bool,
    pub create_new: bool,
    pub read: bool,
    pub write: bool,
    pub append: bool,
    pub truncate: bool,
    pub mode: u32,
}

/// The plan for some flags and permissions.
pub open spec fn open_plan(bits: u32, mode: u32) -> OpenPlan {
    OpenPlan {
        create: bits & protocol_flags().create != 0,
        create_new: bits & protocol_flags().exclude != 0,
        read: bits & protocol_flags().read != 0,
        write: bits & protocol_flags().write != 0,
        append: bits & protocol_flags().append != 0,
        truncate: bits & protocol_flags().truncate != 0,
        mode: mode,
    }
}

/// The plan for the bits of some flags.
pub fn plan_bits(bits: u32, mode: u32) -> (plan: OpenPlan)
    ensures
        plan == open_plan(bits, mode),
{
    let flags = each_flag();
    OpenPlan {
        create: bits & flags.create != 0,
        create_new: bits & flags.exclude != 0,
        read: bits & flags.read != 0,
        write: bits & flags.write != 0,
        append: bits & flags.append != 0,
        truncate: bits & flags.truncate != 0,
        mode: mode,
    }
}

/// How a request opens its file. The client has to give permissions.
pub fn plan_open(pflags: &OpenFlags, permissions: Option<u32>) -> (plan: OpenPlan)
    requires
        permissions is Some,
    ensures
        plan == open_plan(open_flag_bits(*pflags), permissions->0),
{
    plan_bits(flag_bits(pflags), permissions.unwrap())
}

/// The open files after a file was opened, or could not be.
pub open spec fn after_open<F>(fds: Map<Seq<char>, F>, filename: Seq<char>, opened: Option<F>) -> Map<
    Seq<char>,
    F,
> {
    match opened {
        Some(file) => fds.insert(filename, file),
        None => fds,
    }
}

/// Whether the outcome of a step on a file lets the request go on.
pub fn proceed(succeeded: bool) -> (going: Result<(), StatusCode>)
    ensures
        going == (if succeeded {
            Ok::<(), StatusCode>(())
        } else {
            Err(StatusCode::Failure)
        }),
{
    if succeeded {
        Ok(())
    } else {
        Err(StatusCode::Failure)
    }
}

/// How much of a file is read from `offset` on, where its size is known: no more than
/// asked for, and no further than its end. A read at its end or beyond has reached the
/// end of the file.
pub open spec fn read_span(size: Option<u64>, offset: u64, len: u32) -> Result<u32, StatusCode> {
    match size {
        None => Err(StatusCode::Failure),
        Some(total) => if offset >= total {
            Err(StatusCode::Eof)
        } else if len > total - offset {
            Ok((total - offset) as u32)
        } else {
            Ok(len)
        },
    }
}

/// How much of a file is read.
pub fn read_window(size: Option<u64>, offset: u64, len: u32) -> (window: Result<u32, StatusCode>)
    ensures
        window == read_span(size, offset, len),
        window matches Ok(n) ==> n <= len && offset + n <= size->0 && (n == len || offset + n
            == size->0),
{
    match size {
        None => Err(StatusCode::Failure),
        Some(total) => {
            if offset >= total {
                return Err(StatusCode::Eof);
            }
            if len as u64 > total - offset {
                Ok((total - offset) as u32)
            } else {
                Ok(len)
            }
        },
    }
}

/// The answer to a read, by what the file gave.
pub fn read_reply(id: u32, fetched: Result<Vec<u8>, SFTPError>) -> (reply: Result<Data, StatusCode>)
    ensures
        match fetched {
            Ok(data) => reply matches Ok(answer) && answer.id == id && answer.data@ == data@,
            Err(error) => reply == Err::<Data, StatusCode>(kind_status(kind_number(error.inner))),
        },
{
    match fetched {
        Ok(data) => Ok(Data { id: id, data: data }),
        Err(error) => {
            let code = StatusCode::from(error);
            Err(code)
        },
    }
}

/// What is done next to the file of a request to read.
#[derive(Debug, PartialEq, Eq, Structural, Clone, Copy)]
pub enum ReadAction {
    /// Its size is asked for.
    Measure,
    /// It is set to stand at the offset. The window is what will be fetched from there.
    Seek { offset: u64, window: u32 },
    /// At most so many bytes are fetched from where it stands.
    Fetch { window: u32 },
}

/// What was done last for a request to read, and what it gave.
pub enum ReadEvent {
    /// The handle was looked up.
    Located { open: bool },
    /// The size was asked for.
    Measured { size: Option<u64> },
    /// The file was to stand at the offset, ahead of a fetch of the window.
    Sought { window: u32, found: bool },
    /// Bytes were fetched.
    Fetched { fetched: Result<Vec<u8>, SFTPError> },
}

/// How a request to read goes on.
pub enum ReadStep {
    /// Something is done to the file.
    Act(ReadAction),
    /// The request is answered.
    Reply(Result<Data, StatusCode>),
}

/// What is done to the file after an event, if anything: its size is asked for where it is
/// open, the offset is sought where there is something to read, and bytes are fetched
/// where the offset was found.
pub open spec fn read_action(offset: u64, len: u32, event: ReadEvent) -> Option<ReadAction> {
    match event {
        ReadEvent::Located { open } => if open {
            Some(ReadAction::Measure)
        } else {
            None
        },
        ReadEvent::Measured { size } => match read_span(size, offset, len) {
            Ok(window) => Some(ReadAction::Seek { offset: offset, window: window }),
            Err(_) => None,
        },
        ReadEvent::Sought { window, found } => if found {
            Some(ReadAction::Fetch { window: window })
        } else {
            None
        },
        ReadEvent::Fetched { .. } => None,
    }
}

/// The next step of a request to read.
pub fn read_step(id: u32, offset: u64, len: u32, event: ReadEvent) -> (step: ReadStep)
    ensures
        match read_action(offset, len, event) {
            Some(action) => step == ReadStep::Act(action),
            None => step matches ReadStep::Reply(reply) && match event {
                ReadEvent::Located { .. } => reply == Err::<Data, StatusCode>(
                    StatusCode::NoSuchFile,
                ),
                ReadEvent::Measured { size } => reply == Err::<Data, StatusCode>(
                    read_span(size, offset, len)->Err_0,
                ),
                ReadEvent::Sought { .. } => reply == Err::<Data, StatusCode>(StatusCode::Failure),
                ReadEvent::Fetched { fetched: Ok(data) } => reply matches Ok(answer) && answer.id
                    == id && answer.data@ == data@,
                ReadEvent::Fetched { fetched: Err(error) } => reply == Err::<Data, StatusCode>(
                    kind_status(kind_number(error.inner)),
                ),
            },
        },
{
    match event {
        ReadEvent::Located { open } => {
            if open {
                ReadStep::Act(ReadAction::Measure)
            } else {
                ReadStep::Reply(Err(StatusCode::NoSuchFile))
            }
        },
        ReadEvent::Measured { size } => match read_window(size, offset, len) {
            Ok(window) => ReadStep::Act(ReadAction::Seek { offset: offset, window: window }),
            Err(code) => ReadStep::Reply(Err(code)),
        },
        ReadEvent::Sought { window, found } => match proceed(found) {
            Ok(_) => ReadStep::Act(ReadAction::Fetch { window: window }),
            Err(code) => ReadStep::Reply(Err(code)),
        },
        ReadEvent::Fetched { fetched } => ReadStep::Reply(read_reply(id, fetched)),
    }
}

/// What is done next to the file of a request to write.
pub enum WriteAction<'a> {
    /// All the bytes are written where the file stands.
    WriteAll { data: &'a [u8] },
    /// The file is flushed.
    Flush,
}

/// What was done last for a request to write, and what it gave.
#[derive(Debug, PartialEq, Eq, Structural, Clone, Copy)]
pub enum WriteEvent {
    /// The handle was looked up.
    Located { open: bool },
    /// The bytes were written, all of them or not.
    Written { all: bool },
    /// The file was flushed, or could not be.
    Flushed { flushed: bool },
}

/// How a request to write goes on.
pub enum WriteStep<'a> {
    /// Something is done to the file.
    Act(WriteAction<'a>),
    /// The request is answered.
    Reply(Result<Status, StatusCode>),
}

/// What is done to the file after an event, if anything: the bytes are written where it is
/// open, and it is flushed where all were written.
pub open spec fn write_action<'a>(data: &'a [u8], event: WriteEvent) -> Option<WriteAction<'a>> {
    match event {
        WriteEvent::Located { open } => if open {
            Some(WriteAction::WriteAll { data: data })
        } else {
            None
        },
        WriteEvent::Written { all } => if all {
            Some(WriteAction::Flush)
        } else {
            None
        },
        WriteEvent::Flushed { .. } => None,
    }
}

/// The next step of a request to write. The offset of the request has no part in it.
pub fn write_step<'a>(id: u32, data: &'a [u8], event: WriteEvent) -> (step: WriteStep<'a>)
    ensures
        match write_action(data, event) {
            Some(action) => step == WriteStep::Act(action),
            None => step matches WriteStep::Reply(reply) && match event {
                WriteEvent::Located { .. } => reply == Err::<Status, StatusCode>(
                    StatusCode::NoSuchFile,
                ),
                WriteEvent::Written { .. } => reply == Err::<Status, StatusCode>(
                    StatusCode::Failure,
                ),
                WriteEvent::Flushed { flushed } => if flushed {
                    reply matches Ok(status) && is_done(status, id)
                } else {
                    reply == Err::<Status, StatusCode>(StatusCode::Failure)
                },
            },
        },
{
    match event {
        WriteEvent::Located { open } => {
            if open {
                WriteStep::Act(WriteAction::WriteAll { data: data })
            } else {
                WriteStep::Reply(Err(StatusCode::NoSuchFile))
            }
        },
        WriteEvent::Written { all } => match proceed(all) {
            Ok(_) => WriteStep::Act(WriteAction::Flush),
            Err(code) => WriteStep::Reply(Err(code)),
        },
        WriteEvent::Flushed { flushed } => WriteStep::Reply(write_reply(id, true, flushed)),
    }
}

/// A session: the protocol version that the client named, and the files that are open,
/// each under the name with which it was opened.
pub struct SftpSession<F> {
    pub version: Option<u32>,
    pub fds: NameMap<F>,
}

impl<F> Default for SftpSession<F> {
    /// A session that was not greeted yet.
    fn default() -> (session: Self)
        ensures
            session.wf(),
            session.version is None,
            session.fds@ == Map::<Seq<char>, F>::empty(),
    {
        SftpSession { version: None, fds: NameMap::new() }
    }
}

impl<F> SftpSession<F> {
    /// No name has two files.
    pub open spec fn wf(&self) -> bool {
        self.fds.wf()
    }

    /// The answer to a request that the session does not know.
    pub fn unimplemented(&self) -> (code: StatusCode)
        ensures
            code == StatusCode::OpUnsupported,
    {
        StatusCode::OpUnsupported
    }

    /// Greets the client, once.
    pub fn init(&mut self, version: u32) -> (reply: Result<Version, StatusCode>)
        requires
            old(self).wf(),
        ensures
            final(self).wf(),
            final(self).fds@ == old(self).fds@,
            match old(self).version {
                Some(_) => reply == Err::<Version, StatusCode>(StatusCode::ConnectionLost)
                    && final(self).version == old(self).version,
                None => reply matches Ok(spoken) && is_own_version(spoken) && final(self).version
                    == Some(version),
            },
    {
        if self.version.is_some() {
            return Err(StatusCode::ConnectionLost);
        }
        self.version = Some(version);
        Ok(protocol_version())
    }

    /// Keeps the file that a request opened, in place of one with the same name, and
    /// answers the request. `None` stands for a file that could not be opened.
    pub fn open(&mut self, id: u32, filename: String, opened: Option<F>) -> (reply: Result<
        Handle,
        StatusCode,
    >)
        requires
            old(self).wf(),
        ensures
            final(self).wf(),
            final(self).version == old(self).version,
            final(self).fds@ == after_open(old(self).fds@, filename@, opened),
            match opened {
                Some(_) => reply matches Ok(handle) && handle.id == id && handle.handle@
                    == filename@,
                None => reply == Err::<Handle, StatusCode>(StatusCode::Failure),
            },
    {
        match opened {
            Some(file) => {
                self.fds.insert(filename.clone(), file);
                Ok(Handle { id: id, handle: filename })
            },
            None => Err(StatusCode::Failure),
        }
    }

    /// Forgets a file. That it was not open is no error.
    pub fn close(&mut self, id: u32, handle: &str) -> (reply: Result<Status, StatusCode>)
        requires
            old(self).wf(),
        ensures
            final(self).wf(),
            final(self).version == old(self).version,
            final(self).fds@ == old(self).fds@.remove(handle@),
            reply matches Ok(status) && is_done(status, id),
    {
        let _ = self.fds.remove(handle);
        Ok(done(id))
    }

    /// The open file of a request to read or write, to work on.
    pub fn locate(&mut self, handle: &str) -> (file: Result<&mut F, StatusCode>)
        requires
            old(self).wf(),
        ensures
            final(self).wf(),
            final(self).version == old(self).version,
            match file {
                Ok(f) => old(self).fds@.contains_key(handle@) && *f == old(self).fds@[handle@]
                    && final(self).fds@ == old(self).fds@.insert(handle@, *final(f)),
                Err(code) => !old(self).fds@.contains_key(handle@) && code
                    == StatusCode::NoSuchFile && final(self).fds@ == old(self).fds@,
            },
    {
        match self.fds.get_mut(handle) {
            Some(file) => Ok(file),
            None => Err(StatusCode::NoSuchFile),
        }
    }

    /// The answer to a request to read, by what the file gave: its size, whether the
    /// offset was found, and the bytes. An outcome counts only where `read_step` comes to
    /// it.
    pub fn read(
        &self,
        id: u32,
        handle: &str,
        offset: u64,
        len: u32,
        size: Option<u64>,
        found: bool,
        fetched: Result<Vec<u8>, SFTPError>,
    ) -> (reply: Result<Data, StatusCode>)
        ensures
            (if !self.fds@.contains_key(handle@) {
                reply == Err::<Data, StatusCode>(StatusCode::NoSuchFile)
            } else if read_span(size, offset, len) is Err {
                reply == Err::<Data, StatusCode>(read_span(size, offset, len)->Err_0)
            } else if !found {
                reply == Err::<Data, StatusCode>(StatusCode::Failure)
            } else {
                match fetched {
                    Ok(data) => reply matches Ok(answer) && answer.id == id && answer.data@
                        == data@,
                    Err(error) => reply == Err::<Data, StatusCode>(
                        kind_status(kind_number(error.inner)),
                    ),
                }
            }),
    {
        if !self.fds.contains(handle) {
            return Err(StatusCode::NoSuchFile);
        }
        match read_window(size, offset, len) {
            Ok(_) => {},
            Err(code) => {
                return Err(code);
            },
        }
        match proceed(found) {
            Ok(_) => read_reply(id, fetched),
            Err(code) => Err(code),
        }
    }

    /// The answer to a request to write, by whether the file took all the bytes and
    /// whether it was flushed. The bytes go where the file stands; the offset of the
    /// request has no part in it.
    pub fn write(&self, id: u32, handle: &str, written: bool, flushed: bool) -> (reply: Result<
        Status,
        StatusCode,
    >)
        ensures
            (if !self.fds@.contains_key(handle@) {
                reply == Err::<Status, StatusCode>(StatusCode::NoSuchFile)
            } else if !written || !flushed {
                reply == Err::<Status, StatusCode>(StatusCode::Failure)
            } else {
                reply matches Ok(status) && is_done(status, id)
            }),
    {
        if !self.fds.contains(handle) {
            return Err(StatusCode::NoSuchFile);
        }
        write_reply(id, written, flushed)
    }
}

/// The answer to a request to write to an open file, by whether the file took all the
/// bytes and whether it was flushed.
pub fn write_reply(id: u32, written: bool, flushed: bool) -> (reply: Result<Status, StatusCode>)
    ensures
        (if !written || !flushed {
            reply == Err::<Status, StatusCode>(StatusCode::Failure)
        } else {
            reply matches Ok(status) && is_done(status, id)
        }),
{
    match proceed(written) {
        Ok(_) => {},
        Err(code) => {
            return Err(code);
        },
    }
    match proceed(flushed) {
        Ok(_) => Ok(done(id)),
        Err(code) => Err(code),
    }
}

} // verus!
