//! What holds of SFTP sessions across several steps and requests.

use crate::sftp::{
    after_open, kind_status, read_action, read_span, write_action, ReadAction, ReadEvent, SFTPError,
    StatusCode, WriteAction, WriteEvent,
};
use vstd::prelude::*;

verus! {

/// An error of a file is never taken for success nor for the end of the file.
pub proof fn errors_stay_errors(kind: u8)
    ensures
        kind_status(kind) != StatusCode::Okay,
        kind_status(kind) != StatusCode::Eof,
{
}

/// A file that was opened is the one that its handle stands for, until it is closed
/// or another is opened under its name; the other files stay as they are.
pub proof fn handle_stands_for_the_file<F>(
    fds: Map<Seq<char>, F>,
    filename: Seq<char>,
    file: F,
    other: Seq<char>,
)
    requires
        other != filename,
    ensures
        after_open(fds, filename, Some(file)).contains_key(filename),
        after_open(fds, filename, Some(file))[filename] == file,
        !after_open(fds, filename, Some(file)).remove(filename).contains_key(filename),
        after_open(fds, filename, Some(file)).contains_key(other) == fds.contains_key(other),
        fds.contains_key(other) ==> after_open(fds, filename, Some(file))[other] == fds[other],
        fds.remove(filename).contains_key(other) == fds.contains_key(other),
        fds.contains_key(other) ==> fds.remove(filename)[other] == fds[other],
{
}

/// To open a file and close it again undoes the opening, unless the name was in use.
pub proof fn close_undoes_open<F>(fds: Map<Seq<char>, F>, filename: Seq<char>, opened: Option<F>)
    requires
        !fds.contains_key(filename),
    ensures
        after_open(fds, filename, opened).remove(filename) == fds,
{
    assert(after_open(fds, filename, opened).remove(filename) =~= fds);
}

/// How many bytes are read in all by reads of `len` bytes, each from where the one
/// before ended, until the end of the file is met.
pub open spec fn read_in_all(size: u64, offset: u64, len: u32) -> nat
    recommends
        len > 0,
    decreases size - offset,
{
    match read_span(Some(size), offset, len) {
        Ok(n) => if n > 0 {
            (n + read_in_all(size, (offset + n) as u64, len)) as nat
        } else {
            0
        },
        Err(_) => 0,
    }
}

/// Reads that follow one another go through the file to its end, with nothing left out
/// and nothing read twice.
pub proof fn reads_reach_the_end(size: u64, offset: u64, len: u32)
    requires
        len > 0,
        offset <= size,
    ensures
        read_in_all(size, offset, len) == size - offset,
    decreases size - offset,
{
    if offset < size {
        let n = read_span(Some(size), offset, len)->Ok_0;
        assert(0 < n <= size - offset);
        reads_reach_the_end(size, (offset + n) as u64, len);
    }
}

/// What the steps of a request to read give, one by one.
pub struct ReadOutcomes {
    pub open: bool,
    pub size: Option<u64>,
    pub found: bool,
    pub fetched: Result<Vec<u8>, SFTPError>,
}

/// What an action gives.
pub open spec fn outcome_of(action: ReadAction, outcomes: ReadOutcomes) -> ReadEvent {
    match action {
        ReadAction::Measure => ReadEvent::Measured { size: outcomes.size },
        ReadAction::Seek { window, .. } => ReadEvent::Sought {
            window: window,
            found: outcomes.found,
        },
        ReadAction::Fetch { .. } => ReadEvent::Fetched { fetched: outcomes.fetched },
    }
}

/// How many actions may follow an event.
pub open spec fn steps_left(event: ReadEvent) -> nat {
    match event {
        ReadEvent::Located { .. } => 3,
        ReadEvent::Measured { .. } => 2,
        ReadEvent::Sought { .. } => 1,
        ReadEvent::Fetched { .. } => 0,
    }
}

/// All that is done to the file from an event on, until the request is answered.
pub open spec fn actions_from(
    event: ReadEvent,
    offset: u64,
    len: u32,
    outcomes: ReadOutcomes,
) -> Seq<ReadAction>
    decreases steps_left(event),
{
    match read_action(offset, len, event) {
        Some(action) => seq![action] + actions_from(
            outcome_of(action, outcomes),
            offset,
            len,
            outcomes,
        ),
        None => Seq::empty(),
    }
}

/// All that is done to the file of a request to read.
pub open spec fn read_actions(offset: u64, len: u32, outcomes: ReadOutcomes) -> Seq<ReadAction> {
    actions_from(ReadEvent::Located { open: outcomes.open }, offset, len, outcomes)
}

/// A request to read asks for the size of a file that is open, then seeks the offset that
/// it names if there is something to read from there, then fetches what there is to read
/// if the offset was found; and it does nothing else.
pub proof fn read_goes_step_by_step(offset: u64, len: u32, outcomes: ReadOutcomes)
    ensures
        read_actions(offset, len, outcomes) == (if !outcomes.open {
            Seq::empty()
        } else {
            match read_span(outcomes.size, offset, len) {
                Err(_) => seq![ReadAction::Measure],
                Ok(window) => if !outcomes.found {
                    seq![ReadAction::Measure, ReadAction::Seek { offset: offset, window: window }]
                } else {
                    seq![
                        ReadAction::Measure,
                        ReadAction::Seek { offset: offset, window: window },
                        ReadAction::Fetch { window: window },
                    ]
                },
            }
        }),
{
    reveal_with_fuel(actions_from, 4);
    let actions = read_actions(offset, len, outcomes);
    if outcomes.open {
        match read_span(outcomes.size, offset, len) {
            Err(_) => {
                assert(actions =~= seq![ReadAction::Measure]);
            },
            Ok(window) => {
                let seek = ReadAction::Seek { offset: offset, window: window };
                if outcomes.found {
                    assert(actions =~= seq![
                        ReadAction::Measure,
                        seek,
                        ReadAction::Fetch { window: window },
                    ]);
                } else {
                    assert(actions =~= seq![ReadAction::Measure, seek]);
                }
            },
        }
    }
}

/// The event on which a request to read is answered, from an event on.
pub open spec fn answered_on(
    event: ReadEvent,
    offset: u64,
    len: u32,
    outcomes: ReadOutcomes,
) -> ReadEvent
    decreases steps_left(event),
{
    match read_action(offset, len, event) {
        Some(action) => answered_on(outcome_of(action, outcomes), offset, len, outcomes),
        None => event,
    }
}

/// A request to read is answered on the first step that fails, or on what was fetched.
pub proof fn read_is_answered_on_the_first_failure(offset: u64, len: u32, outcomes: ReadOutcomes)
    ensures
        answered_on(ReadEvent::Located { open: outcomes.open }, offset, len, outcomes) == (
        if !outcomes.open {
            ReadEvent::Located { open: false }
        } else {
            match read_span(outcomes.size, offset, len) {
                Err(_) => ReadEvent::Measured { size: outcomes.size },
                Ok(window) => if !outcomes.found {
                    ReadEvent::Sought { window: window, found: false }
                } else {
                    ReadEvent::Fetched { fetched: outcomes.fetched }
                },
            }
        }),
{
    reveal_with_fuel(answered_on, 4);
}

/// A read at the end of a file or beyond it leaves the file where it stands: a write that
/// follows goes where it would have gone without the read.
pub proof fn read_beyond_the_end_moves_nothing(offset: u64, len: u32, outcomes: ReadOutcomes)
    requires
        outcomes.size matches Some(total) && offset >= total,
    ensures
        forall|i: int|
            0 <= i < read_actions(offset, len, outcomes).len() ==> (#[trigger] read_actions(
                offset,
                len,
                outcomes,
            )[i]) is Measure,
{
    read_goes_step_by_step(offset, len, outcomes);
}

/// All that is done to the file of a request to write from an event on, until the request
/// is answered.
pub open spec fn writes_from<'a>(
    event: WriteEvent,
    data: &'a [u8],
    all: bool,
    flushed: bool,
) -> Seq<WriteAction<'a>>
    decreases
            (match event {
                WriteEvent::Located { .. } => 2nat,
                WriteEvent::Written { .. } => 1nat,
                WriteEvent::Flushed { .. } => 0nat,
            }),
{
    match write_action(data, event) {
        Some(action) => {
            let next = match action {
                WriteAction::WriteAll { .. } => WriteEvent::Written { all: all },
                WriteAction::Flush => WriteEvent::Flushed { flushed: flushed },
            };
            seq![action] + writes_from(next, data, all, flushed)
        },
        None => Seq::empty(),
    }
}

/// A request to write hands all its bytes, once, to a file that is open, then flushes the
/// file if it took them all; and it does nothing else.
pub proof fn write_goes_step_by_step(open: bool, data: &[u8], all: bool, flushed: bool)
    ensures
        writes_from(WriteEvent::Located { open: open }, data, all, flushed) == (if !open {
            Seq::empty()
        } else if !all {
            seq![WriteAction::WriteAll { data: data }]
        } else {
            seq![WriteAction::WriteAll { data: data }, WriteAction::Flush]
        }),
{
    reveal_with_fuel(writes_from, 3);
    let actions = writes_from(WriteEvent::Located { open: open }, data, all, flushed);
    if open && !all {
        assert(actions =~= seq![WriteAction::WriteAll { data: data }]);
    } else if open {
        assert(actions =~= seq![WriteAction::WriteAll { data: data }, WriteAction::Flush]);
    }
}

/// A session as a value.
#[verifier::ext_equal]
pub struct SessionState<F> {
    pub version: Option<u32>,
    pub fds: Map<Seq<char>, F>,
}

/// A request to a session, with what the file behind it gave.
pub enum SessionRequest<F> {
    /// A greeting.
    Init { version: u32 },
    /// A file is opened, or could not be.
    Open { filename: Seq<char>, opened: Option<F> },
    /// A file is forgotten.
    Close { handle: Seq<char> },
    /// A file is read or written, which leaves it as `file`.
    Use { handle: Seq<char>, file: F },
}

impl<F> SessionRequest<F> {
    /// The session after the request.
    pub open spec fn applied(self, session: SessionState<F>) -> SessionState<F> {
        match self {
            SessionRequest::Init { version } => if session.version is None {
                SessionState { version: Some(version), ..session }
            } else {
                session
            },
            SessionRequest::Open { filename, opened } => SessionState {
                fds: after_open(session.fds, filename, opened),
                ..session
            },
            SessionRequest::Close { handle } => SessionState {
                fds: session.fds.remove(handle),
                ..session
            },
            SessionRequest::Use { handle, file } => if session.fds.contains_key(handle) {
                SessionState { fds: session.fds.insert(handle, file), ..session }
            } else {
                session
            },
        }
    }

    /// Whether the request opens a file under the name.
    pub open spec fn opens(self, name: Seq<char>) -> bool {
        self matches SessionRequest::Open { filename, opened } && filename == name && opened is Some
    }

    /// Whether the request forgets the file with the name.
    pub open spec fn closes(self, name: Seq<char>) -> bool {
        self matches SessionRequest::Close { handle } && handle == name
    }

    /// Whether the request reads or writes the file with the name.
    pub open spec fn uses(self, name: Seq<char>) -> bool {
        self matches SessionRequest::Use { handle, .. } && handle == name
    }
}

/// A session after some requests, one after the other.
pub open spec fn after_requests<F>(
    session: SessionState<F>,
    requests: Seq<SessionRequest<F>>,
) -> SessionState<F>
    decreases requests.len(),
{
    if requests.len() == 0 {
        session
    } else {
        requests.last().applied(after_requests(session, requests.drop_last()))
    }
}

/// A handle that was closed, or never opened, stays unknown through any requests, until a
/// file is opened under its name.
pub proof fn closed_handle_stays_unknown<F>(
    session: SessionState<F>,
    requests: Seq<SessionRequest<F>>,
    handle: Seq<char>,
)
    requires
        !session.fds.contains_key(handle),
        forall|i: int| 0 <= i < requests.len() ==> !(#[trigger] requests[i]).opens(handle),
    ensures
        !after_requests(session, requests).fds.contains_key(handle),
    decreases requests.len(),
{
    if requests.len() > 0 {
        let earlier = requests.drop_last();
        assert forall|i: int| 0 <= i < earlier.len() implies !(#[trigger] earlier[i]).opens(
            handle,
        ) by {
            assert(earlier[i] == requests[i]);
        }
        closed_handle_stays_unknown(session, earlier, handle);
        assert(!requests[requests.len() - 1].opens(handle));
    }
}

/// A handle of an open file stays known through any requests until it is closed, and it
/// stands for the same file, as it was left, until the file is used or another is opened
/// under its name.
pub proof fn open_handle_stays_known<F>(
    session: SessionState<F>,
    requests: Seq<SessionRequest<F>>,
    handle: Seq<char>,
)
    requires
        session.fds.contains_key(handle),
        forall|i: int| 0 <= i < requests.len() ==> !(#[trigger] requests[i]).closes(handle),
    ensures
        after_requests(session, requests).fds.contains_key(handle),
        (forall|i: int|
            0 <= i < requests.len() ==> !(#[trigger] requests[i]).opens(handle)
                && !requests[i].uses(handle)) ==> after_requests(session, requests).fds[handle]
            == session.fds[handle],
    decreases requests.len(),
{
    if requests.len() > 0 {
        let earlier = requests.drop_last();
        assert forall|i: int| 0 <= i < earlier.len() implies !(#[trigger] earlier[i]).closes(
            handle,
        ) by {
            assert(earlier[i] == requests[i]);
        }
        open_handle_stays_known(session, earlier, handle);
        assert(!requests[requests.len() - 1].closes(handle));
        if forall|i: int|
            0 <= i < requests.len() ==> !(#[trigger] requests[i]).opens(handle)
                && !requests[i].uses(handle) {
            assert forall|i: int| 0 <= i < earlier.len() implies !(#[trigger] earlier[i]).opens(
                handle,
            ) && !earlier[i].uses(handle) by {
                assert(earlier[i] == requests[i]);
            }
            assert(!requests[requests.len() - 1].opens(handle));
        }
    }
}

/// The version that a client greeted with stays through any requests.
pub proof fn session_is_greeted_once<F>(
    session: SessionState<F>,
    requests: Seq<SessionRequest<F>>,
)
    requires
        session.version is Some,
    ensures
        after_requests(session, requests).version == session.version,
    decreases requests.len(),
{
    if requests.len() > 0 {
        session_is_greeted_once(session, requests.drop_last());
    }
}

} // verus!
