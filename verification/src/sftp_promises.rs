//! What the operations of an SFTP session promise their callers, for every input.

use crate::sftp::{
    kind_number, open_flag_bits, plan_bits, plan_open, proceed, read_reply, read_step, read_window,
    status_of_kind, write_reply, write_step, Data, Handle, OpenPlan, ReadAction, ReadEvent,
    ReadStep, SFTPError, SftpSession, Status, StatusCode, Version, WriteEvent, WriteStep,
};
use russh_sftp::protocol::OpenFlags;
use vstd::prelude::*;

verus! {

/// Each kind of error has its code, and no code but a failure stands for two kinds. None is
/// a success or the end of a file.
pub proof fn kinds_have_their_codes(kind: u8, code: StatusCode)
    requires
        call_ensures(status_of_kind, (kind,), code),
    ensures
        code == StatusCode::NoSuchFile <==> kind == 0,
        code == StatusCode::PermissionDenied <==> kind == 1,
        code == StatusCode::BadMessage <==> kind == 3,
        code == StatusCode::NoConnection <==> kind == 4,
        code == StatusCode::ConnectionLost <==> kind == 5,
        code == StatusCode::OpUnsupported <==> kind == 6,
        code == StatusCode::Failure <==> kind == 2 || kind > 6,
        code != StatusCode::Okay,
        code != StatusCode::Eof,
{
}

/// An error of a file is answered with the code of its kind.
pub proof fn error_has_the_code_of_its_kind(
    inner: std::io::Error,
    error: SFTPError,
    code: StatusCode,
    known: StatusCode,
)
    requires
        call_ensures(<SFTPError as From<std::io::Error>>::from, (inner,), error),
        call_ensures(<StatusCode as From<SFTPError>>::from, (error,), code),
        call_ensures(status_of_kind, (kind_number(inner),), known),
    ensures
        error.inner == inner,
        code == known,
        code != StatusCode::Okay,
        code != StatusCode::Eof,
{
}

/// The digit of a number at a power of two.
pub open spec fn digit(bits: u32, power: u32) -> u32 {
    (bits / power) % 2
}

/// Each way in which a file is opened goes by its own flag, whatever the other flags are,
/// and the permissions are the ones given.
pub proof fn each_flag_counts_by_itself(bits: u32, mode: u32, plan: OpenPlan)
    requires
        call_ensures(plan_bits, (bits, mode), plan),
    ensures
        plan.read <==> digit(bits, 0x01) == 1,
        plan.write <==> digit(bits, 0x02) == 1,
        plan.append <==> digit(bits, 0x04) == 1,
        plan.create <==> digit(bits, 0x08) == 1,
        plan.truncate <==> digit(bits, 0x10) == 1,
        plan.create_new <==> digit(bits, 0x20) == 1,
        plan.mode == mode,
{
    assert(bits & 0x01 != 0 <==> (bits / 0x01) % 2 == 1) by (bit_vector);
    assert(bits & 0x02 != 0 <==> (bits / 0x02) % 2 == 1) by (bit_vector);
    assert(bits & 0x04 != 0 <==> (bits / 0x04) % 2 == 1) by (bit_vector);
    assert(bits & 0x08 != 0 <==> (bits / 0x08) % 2 == 1) by (bit_vector);
    assert(bits & 0x10 != 0 <==> (bits / 0x10) % 2 == 1) by (bit_vector);
    assert(bits & 0x20 != 0 <==> (bits / 0x20) % 2 == 1) by (bit_vector);
}

/// Two sets of flags that agree on one flag agree on the way of opening that goes by it.
pub proof fn other_flags_have_no_part(
    bits: u32,
    others: u32,
    mode: u32,
    other_mode: u32,
    plan: OpenPlan,
    other: OpenPlan,
)
    requires
        call_ensures(plan_bits, (bits, mode), plan),
        call_ensures(plan_bits, (others, other_mode), other),
    ensures
        digit(bits, 0x01) == digit(others, 0x01) ==> plan.read == other.read,
        digit(bits, 0x02) == digit(others, 0x02) ==> plan.write == other.write,
        digit(bits, 0x04) == digit(others, 0x04) ==> plan.append == other.append,
        digit(bits, 0x08) == digit(others, 0x08) ==> plan.create == other.create,
        digit(bits, 0x10) == digit(others, 0x10) ==> plan.truncate == other.truncate,
        digit(bits, 0x20) == digit(others, 0x20) ==> plan.create_new == other.create_new,
{
    each_flag_counts_by_itself(bits, mode, plan);
    each_flag_counts_by_itself(others, other_mode, other);
}

/// A request opens its file as its own flags and permissions say.
pub proof fn open_goes_by_the_flags_given(
    flags: OpenFlags,
    permissions: Option<u32>,
    plan: OpenPlan,
    known: OpenPlan,
)
    requires
        permissions is Some,
        call_ensures(plan_open, (&flags, permissions), plan),
        call_ensures(plan_bits, (open_flag_bits(flags), permissions->0), known),
    ensures
        plan == known,
        plan.mode == permissions->0,
        plan.append <==> digit(open_flag_bits(flags), 0x04) == 1,
{
    each_flag_counts_by_itself(open_flag_bits(flags), permissions->0, known);
}

/// A request goes on just where the step went well, and is a failure otherwise.
pub proof fn step_that_went_well_lets_go_on(succeeded: bool, going: Result<(), StatusCode>)
    requires
        call_ensures(proceed, (succeeded,), going),
    ensures
        going is Ok <==> succeeded,
        going is Err ==> going->Err_0 == StatusCode::Failure,
{
}

/// A read of a file of known size meets its end just where it starts at the end or beyond,
/// for all sizes, offsets and lengths. Elsewhere it gets as much as it asks for and the file
/// holds. It fails just where the size is not known.
pub proof fn read_ends_with_the_file(
    size: Option<u64>,
    offset: u64,
    len: u32,
    window: Result<u32, StatusCode>,
)
    requires
        call_ensures(read_window, (size, offset, len), window),
    ensures
        window == Err::<u32, StatusCode>(StatusCode::Eof) <==> size is Some && offset >= size->0,
        window == Err::<u32, StatusCode>(StatusCode::Failure) <==> size is None,
        window is Ok <==> size is Some && offset < size->0,
        window is Ok ==> window->Ok_0 <= len && offset + window->Ok_0 <= size->0,
        window is Ok ==> window->Ok_0 == len || offset + window->Ok_0 == size->0,
{
}

/// What was fetched is answered as it is, under the number of the request; an error with the
/// code of its kind.
pub proof fn fetched_bytes_are_answered(
    id: u32,
    fetched: Result<Vec<u8>, SFTPError>,
    reply: Result<Data, StatusCode>,
    known: StatusCode,
)
    requires
        call_ensures(read_reply, (id, fetched), reply),
        fetched is Err ==> call_ensures(
            status_of_kind,
            (kind_number(fetched->Err_0.inner),),
            known,
        ),
    ensures
        reply is Ok <==> fetched is Ok,
        fetched is Ok ==> reply->Ok_0.id == id && reply->Ok_0.data@ == fetched->Ok_0@,
        fetched is Err ==> reply->Err_0 == known,
{
}

/// A read is answered with a code that tells why it goes no further.
pub open spec fn read_is_refused(step: ReadStep, code: StatusCode) -> bool {
    step is Reply && step->Reply_0 is Err && step->Reply_0->Err_0 == code
}

/// The steps of a read: the size is asked for just where the file is open; the offset of the
/// request is sought just where it lies within the file; and as many bytes as were asked
/// for and the file holds are fetched just where it was found. Where a step is not taken,
/// the request is answered with the reason.
pub proof fn read_takes_each_step_for_cause(
    id: u32,
    offset: u64,
    len: u32,
    event: ReadEvent,
    step: ReadStep,
)
    requires
        call_ensures(read_step, (id, offset, len, event), step),
    ensures
        event matches ReadEvent::Located { open } ==> {
            &&& open ==> step == ReadStep::Act(ReadAction::Measure)
            &&& !open ==> read_is_refused(step, StatusCode::NoSuchFile)
        },
        event matches ReadEvent::Measured { size } ==> {
            &&& size is None ==> read_is_refused(step, StatusCode::Failure)
            &&& size is Some && offset >= size->0 ==> read_is_refused(step, StatusCode::Eof)
            &&& size is Some && offset < size->0 ==> {
                &&& step is Act
                &&& step->Act_0 is Seek
                &&& step->Act_0->Seek_offset == offset
                &&& step->Act_0->Seek_window <= len
                &&& offset + step->Act_0->Seek_window <= size->0
                &&& step->Act_0->Seek_window == len || offset + step->Act_0->Seek_window == size->0
            }
        },
        event matches ReadEvent::Sought { window, found } ==> {
            &&& found ==> step == ReadStep::Act(ReadAction::Fetch { window: window })
            &&& !found ==> read_is_refused(step, StatusCode::Failure)
        },
        event matches ReadEvent::Fetched { fetched } ==> {
            &&& step is Reply
            &&& step->Reply_0 is Ok <==> fetched is Ok
            &&& fetched is Ok ==> step->Reply_0->Ok_0.id == id && step->Reply_0->Ok_0.data@
                == fetched->Ok_0@
        },
{
}

/// A fetch that failed is answered with the code of its error's kind.
pub proof fn failed_fetch_is_answered_with_its_code(
    id: u32,
    offset: u64,
    len: u32,
    error: SFTPError,
    step: ReadStep,
    known: StatusCode,
)
    requires
        call_ensures(
            read_step,
            (id, offset, len, ReadEvent::Fetched { fetched: Err(error) }),
            step,
        ),
        call_ensures(status_of_kind, (kind_number(error.inner),), known),
    ensures
        step is Reply,
        step->Reply_0 is Err,
        step->Reply_0->Err_0 == known,
{
}

/// A read is answered with the first thing that stands in its way, in this order: the file
/// is not open, its size is not known, it ends before the offset, the offset is not found,
/// the fetch fails. Where nothing does, it is answered with what was fetched.
pub proof fn read_is_answered_with_the_first_obstacle<F>(
    session: SftpSession<F>,
    id: u32,
    handle: &str,
    offset: u64,
    len: u32,
    size: Option<u64>,
    found: bool,
    fetched: Result<Vec<u8>, SFTPError>,
    reply: Result<Data, StatusCode>,
    known: StatusCode,
)
    requires
        call_ensures(
            SftpSession::<F>::read,
            (&session, id, handle, offset, len, size, found, fetched),
            reply,
        ),
        fetched is Err ==> call_ensures(
            status_of_kind,
            (kind_number(fetched->Err_0.inner),),
            known,
        ),
    ensures
        reply is Ok <==> session.fds@.contains_key(handle@) && size is Some && offset < size->0
            && found && fetched is Ok,
        reply is Ok ==> reply->Ok_0.id == id && reply->Ok_0.data@ == fetched->Ok_0@,
        !session.fds@.contains_key(handle@) ==> reply->Err_0 == StatusCode::NoSuchFile,
        session.fds@.contains_key(handle@) && size is None ==> reply->Err_0 == StatusCode::Failure,
        session.fds@.contains_key(handle@) && size is Some && offset >= size->0 ==> reply->Err_0
            == StatusCode::Eof,
        session.fds@.contains_key(handle@) && size is Some && offset < size->0 && !found
            ==> reply->Err_0 == StatusCode::Failure,
        session.fds@.contains_key(handle@) && size is Some && offset < size->0 && found
            && fetched is Err ==> reply->Err_0 == known,
{
}

/// A status that tells of success.
pub open spec fn tells_success(status: Status, id: u32) -> bool {
    &&& status.id == id
    &&& status.status_code == StatusCode::Okay
    &&& status.error_message@ == "Ok"@
    &&& status.language_tag@ == "en-US"@
}

/// A write is answered with a code that tells why it goes no further.
pub open spec fn write_is_refused(step: WriteStep<'_>, code: StatusCode) -> bool {
    step is Reply && step->Reply_0 is Err && step->Reply_0->Err_0 == code
}

/// The steps of a write: all the bytes of the request are written just where the file is
/// open, and the file is flushed just where it took them all. Where a step is not taken, the
/// request is answered with the reason, and after the flush with how that went.
pub proof fn write_takes_each_step_for_cause(
    id: u32,
    data: &[u8],
    event: WriteEvent,
    step: WriteStep<'_>,
)
    requires
        call_ensures(write_step, (id, data, event), step),
    ensures
        event matches WriteEvent::Located { open } ==> {
            &&& open ==> step is Act && step->Act_0 is WriteAll && step->Act_0->data@ == data@
            &&& !open ==> write_is_refused(step, StatusCode::NoSuchFile)
        },
        event matches WriteEvent::Written { all } ==> {
            &&& all ==> step is Act && step->Act_0 is Flush
            &&& !all ==> write_is_refused(step, StatusCode::Failure)
        },
        event matches WriteEvent::Flushed { flushed } ==> {
            &&& flushed ==> step is Reply && step->Reply_0 is Ok && tells_success(
                step->Reply_0->Ok_0,
                id,
            )
            &&& !flushed ==> write_is_refused(step, StatusCode::Failure)
        },
{
}

/// A write is answered well just where the file is open, took all the bytes and was flushed;
/// otherwise as unknown where the file is not open, and as a failure where it is.
pub proof fn write_is_answered_by_what_the_file_did<F>(
    session: SftpSession<F>,
    id: u32,
    handle: &str,
    written: bool,
    flushed: bool,
    reply: Result<Status, StatusCode>,
    on_open: Result<Status, StatusCode>,
)
    requires
        call_ensures(SftpSession::<F>::write, (&session, id, handle, written, flushed), reply),
        call_ensures(write_reply, (id, written, flushed), on_open),
    ensures
        reply is Ok <==> session.fds@.contains_key(handle@) && written && flushed,
        reply is Ok ==> tells_success(reply->Ok_0, id),
        reply is Err ==> reply->Err_0 == (if session.fds@.contains_key(handle@) {
            StatusCode::Failure
        } else {
            StatusCode::NoSuchFile
        }),
        on_open is Ok <==> written && flushed,
        on_open is Ok ==> tells_success(on_open->Ok_0, id),
        on_open is Err ==> on_open->Err_0 == StatusCode::Failure,
{
}

/// A new session was not greeted and has no open files, and what a session does not know it
/// does not support.
pub proof fn new_session_is_empty<F>(
    session: SftpSession<F>,
    name: Seq<char>,
    asked: SftpSession<F>,
    code: StatusCode,
)
    requires
        call_ensures(<SftpSession<F> as Default>::default, (), session),
        call_ensures(SftpSession::<F>::unimplemented, (&asked,), code),
    ensures
        session.wf(),
        session.version is None,
        !session.fds@.contains_key(name),
        code == StatusCode::OpUnsupported,
{
}

/// The first greeting is answered with version 3 and no extensions, whatever version the
/// client names, which is kept; any later one is refused and changes nothing. Open files
/// stay as they are.
pub proof fn session_takes_one_greeting<F>(
    session: &mut SftpSession<F>,
    version: u32,
    reply: Result<Version, StatusCode>,
    extension: String,
)
    requires
        call_ensures(SftpSession::<F>::init, (session, version), reply),
    ensures
        final(session).wf(),
        final(session).fds@ == old(session).fds@,
        reply is Ok <==> old(session).version is None,
        reply is Ok ==> reply->Ok_0.version == 3 && !reply->Ok_0.extensions@.contains_key(
            extension,
        ) && final(session).version == Some(version),
        reply is Err ==> reply->Err_0 == StatusCode::ConnectionLost && final(session).version
            == old(session).version,
{
}

/// A file that was opened is kept under the name that it was opened with, which is its
/// handle; one that could not be opened is a failure and changes nothing. Other files stay
/// as they are.
pub proof fn opened_file_is_kept_under_its_name<F>(
    session: &mut SftpSession<F>,
    id: u32,
    filename: String,
    opened: Option<F>,
    reply: Result<Handle, StatusCode>,
    other: Seq<char>,
)
    requires
        call_ensures(SftpSession::<F>::open, (session, id, filename, opened), reply),
    ensures
        final(session).wf(),
        final(session).version == old(session).version,
        reply is Ok <==> opened is Some,
        opened is Some ==> {
            &&& reply->Ok_0.id == id
            &&& reply->Ok_0.handle@ == filename@
            &&& final(session).fds@.contains_key(filename@)
            &&& final(session).fds@[filename@] == opened->0
        },
        opened is None ==> reply->Err_0 == StatusCode::Failure && final(session).fds@
            == old(session).fds@,
        other != filename@ ==> (final(session).fds@.contains_key(other)
            <==> old(session).fds@.contains_key(other)),
        other != filename@ && old(session).fds@.contains_key(other) ==> final(session).fds@[other]
            == old(session).fds@[other],
{
}

/// To close a handle always goes well and leaves no file under it, whether there was one or
/// not. Other files stay as they are.
pub proof fn closed_file_is_forgotten<F>(
    session: &mut SftpSession<F>,
    id: u32,
    handle: &str,
    reply: Result<Status, StatusCode>,
    other: Seq<char>,
)
    requires
        call_ensures(SftpSession::<F>::close, (session, id, handle), reply),
    ensures
        final(session).wf(),
        final(session).version == old(session).version,
        reply is Ok && tells_success(reply->Ok_0, id),
        !final(session).fds@.contains_key(handle@),
        other != handle@ ==> (final(session).fds@.contains_key(other)
            <==> old(session).fds@.contains_key(other)),
        other != handle@ && old(session).fds@.contains_key(other) ==> final(session).fds@[other]
            == old(session).fds@[other],
{
}

/// A handle leads to its own file, and what is done to it is done to no other; a handle of no
/// file leads nowhere and changes nothing.
pub proof fn handle_leads_to_its_file<F>(
    session: &mut SftpSession<F>,
    handle: &str,
    file: Result<&mut F, StatusCode>,
    other: Seq<char>,
)
    requires
        call_ensures(SftpSession::<F>::locate, (session, handle), file),
    ensures
        final(session).wf(),
        final(session).version == old(session).version,
        file is Ok <==> old(session).fds@.contains_key(handle@),
        file is Ok ==> *(file->Ok_0) == old(session).fds@[handle@],
        file is Ok ==> final(session).fds@.contains_key(handle@),
        file is Ok ==> final(session).fds@[handle@] == *final(file->Ok_0),
        file is Err ==> file->Err_0 == StatusCode::NoSuchFile && final(session).fds@
            == old(session).fds@,
        other != handle@ ==> (final(session).fds@.contains_key(other)
            <==> old(session).fds@.contains_key(other)),
        other != handle@ && old(session).fds@.contains_key(other) ==> final(session).fds@[other]
            == old(session).fds@[other],
{
}

} // verus!
