//! What holds of commands across several requests and events.

use crate::command::{
    describe_outcome, described, keyed_by_id, output_of, run_changes, run_verdict, settled,
    status_of, stop_outcome, stopped, token_of, with_output, with_sent, with_status, ChildEvent,
    DescribeReplyView, DescribeView, ReplyView, RunCommandRequest, RunVerdict, StopReplyView,
    TaskView,
};
use crate::interrupt::linked;
use tokio::sync::mpsc::UnboundedReceiver;
use vstd::prelude::*;

verus! {

/// The four statuses are different texts.
pub proof fn statuses_differ()
    ensures
        "Running"@ != "Failed"@,
        "Running"@ != "Success"@,
        "Running"@ != "Interrupt"@,
        "Failed"@ != "Success"@,
        "Failed"@ != "Interrupt"@,
        "Success"@ != "Interrupt"@,
{
    reveal_strlit("Running");
    reveal_strlit("Failed");
    reveal_strlit("Success");
    reveal_strlit("Interrupt");
    assert("Running"@.len() == 7 && "Failed"@.len() == 6 && "Success"@.len() == 7
        && "Interrupt"@.len() == 9);
    assert("Running"@[0] == 'R' && "Success"@[0] == 'S');
}

/// A request that was taken is recognised when it comes again: it then changes
/// nothing and is no error.
pub proof fn run_again_is_a_repeat(
    before: Map<Seq<char>, TaskView>,
    after: Map<Seq<char>, TaskView>,
    later: Map<Seq<char>, TaskView>,
    request: RunCommandRequest,
)
    requires
        run_changes(before, after, request),
        !(run_verdict(token_of(before, request.command_id@), request.client_token@) is Mismatch),
        run_changes(after, later, request),
    ensures
        run_verdict(token_of(after, request.command_id@), request.client_token@)
            == RunVerdict::Repeat,
        later == after,
{
}

/// An identifier that was taken cannot be taken with another token, and the attempt
/// changes nothing.
pub proof fn run_with_other_token_is_refused(
    before: Map<Seq<char>, TaskView>,
    after: Map<Seq<char>, TaskView>,
    later: Map<Seq<char>, TaskView>,
    first: RunCommandRequest,
    second: RunCommandRequest,
)
    requires
        run_changes(before, after, first),
        !(run_verdict(token_of(before, first.command_id@), first.client_token@) is Mismatch),
        second.command_id@ == first.command_id@,
        second.client_token@ != first.client_token@,
        run_changes(after, later, second),
    ensures
        run_verdict(token_of(after, second.command_id@), second.client_token@)
            == RunVerdict::Mismatch,
        later == after,
{
}

/// A command that was just started is described as running, without output, and is
/// not cleaned up.
pub proof fn started_command_is_described_as_running(
    before: Map<Seq<char>, TaskView>,
    after: Map<Seq<char>, TaskView>,
    request: RunCommandRequest,
    wants_output: bool,
)
    requires
        run_changes(before, after, request),
        run_verdict(token_of(before, request.command_id@), request.client_token@)
            == RunVerdict::Start,
    ensures
        described(after, request.command_id@, wants_output) == Some(
            DescribeReplyView {
                response: DescribeView {
                    code: "Success"@,
                    message: None,
                    status: Some("Running"@),
                    output: None,
                },
                cleanup: false,
            },
        ),
{
}

/// A running command that is stopped is described as interrupted from then on, with
/// the output that it has where that is asked for.
pub proof fn stopped_command_is_described_as_interrupted(
    tasks: Map<Seq<char>, TaskView>,
    id: Seq<char>,
    wants_output: bool,
)
    requires
        status_of(tasks, id) == Some("Running"@),
    ensures
        described(stopped(tasks, id), id, wants_output) == Some(
            DescribeReplyView {
                response: DescribeView {
                    code: "Success"@,
                    message: None,
                    status: Some("Interrupt"@),
                    output: if wants_output {
                        Some(tasks[id].output)
                    } else {
                        None
                    },
                },
                cleanup: true,
            },
        ),
{
    statuses_differ();
}

/// To stop a command twice changes no more than to stop it once, and the second time
/// the client is told that the command has exited.
pub proof fn stop_again_changes_nothing(tasks: Map<Seq<char>, TaskView>, id: Seq<char>)
    ensures
        stopped(stopped(tasks, id), id) == stopped(tasks, id),
        tasks.contains_key(id) ==> stop_outcome(
            stopped(tasks, id).contains_key(id),
            status_of(stopped(tasks, id), id),
        ) == Some(
            StopReplyView {
                response: ReplyView {
                    code: "Success"@,
                    message: Some("the specified command has exited"@),
                },
                cleanup: true,
                interrupt: None,
            },
        ),
{
    statuses_differ();
}

/// To stop a running command sends one interrupt through the channel that it has, and
/// to stop it again sends none: over both, exactly one goes out.
pub proof fn two_stops_send_one_interrupt(tasks: Map<Seq<char>, TaskView>, id: Seq<char>)
    requires
        status_of(tasks, id) == Some("Running"@),
    ensures
        stopped(tasks, id)[id].sent == tasks[id].sent + 1,
        stopped(stopped(tasks, id), id)[id].sent == tasks[id].sent + 1,
        stopped(stopped(tasks, id), id)[id].sender == tasks[id].sender,
{
    statuses_differ();
}

/// To stop a command that has exited, or that is unknown, sends no interrupt, and to
/// stop any command sends none to another.
pub proof fn only_running_commands_are_interrupted(
    tasks: Map<Seq<char>, TaskView>,
    id: Seq<char>,
    other: Seq<char>,
)
    requires
        tasks.contains_key(other),
        other != id || tasks[other].status != "Running"@,
    ensures
        stopped(tasks, id).contains_key(other),
        stopped(tasks, id)[other].sent == tasks[other].sent,
{
}

/// The interrupt that follows a stop does not take the mark of the stop away.
pub proof fn interrupt_keeps_the_mark(tasks: Map<Seq<char>, TaskView>, id: Seq<char>)
    ensures
        settled(stopped(tasks, id), id, ChildEvent::Interrupted) == stopped(tasks, id),
{
    statuses_differ();
}

/// Whatever ends the process of a command, its task does not count as running
/// afterwards.
pub proof fn settled_command_does_not_run(
    tasks: Map<Seq<char>, TaskView>,
    id: Seq<char>,
    event: ChildEvent,
)
    ensures
        status_of(settled(tasks, id, event), id) != Some("Running"@),
{
    statuses_differ();
}

/// A process that ends by itself, well or not, leaves its command with success; one
/// that could not be started, waited for, or that ran too long, with failure.
pub proof fn settled_command_has_its_status(
    tasks: Map<Seq<char>, TaskView>,
    id: Seq<char>,
    event: ChildEvent,
)
    requires
        tasks.contains_key(id),
    ensures
        event is Exited ==> status_of(settled(tasks, id, event), id) == Some("Success"@),
        event is SpawnFailed || event is TimedOut || event is WaitFailed ==> status_of(
            settled(tasks, id, event),
            id,
        ) == Some("Failed"@),
        event is Interrupted && tasks[id].status == "Running"@ ==> status_of(
            settled(tasks, id, event),
            id,
        ) == Some("Failed"@),
{
}

/// What was collected of a command's output is what a client that asks for it gets,
/// once the command does not run any more, whether its end was recorded before or
/// after the output.
pub proof fn collected_output_is_described(
    tasks: Map<Seq<char>, TaskView>,
    id: Seq<char>,
    output: Seq<u8>,
    event: ChildEvent,
)
    requires
        tasks.contains_key(id),
    ensures
        described(settled(with_output(tasks, id, output), id, event), id, true) matches Some(reply)
            && reply.response.output == Some(output) && reply.cleanup,
        described(with_output(settled(tasks, id, event), id, output), id, true) matches Some(reply)
            && reply.response.output == Some(output) && reply.cleanup,
        settled(with_output(tasks, id, output), id, event) == with_output(
            settled(tasks, id, event),
            id,
            output,
        ),
{
    statuses_differ();
    assert(settled(with_output(tasks, id, output), id, event) =~= with_output(
        settled(tasks, id, event),
        id,
        output,
    ));
}

/// No output is given out while a command runs, nor where it is not asked for.
pub proof fn output_is_withheld(
    tasks: Map<Seq<char>, TaskView>,
    id: Seq<char>,
    wants_output: bool,
)
    requires
        !wants_output || status_of(tasks, id) == Some("Running"@),
    ensures
        described(tasks, id, wants_output) matches Some(reply) && reply.response.output is None,
{
}

/// A command that was never run, or whose task was forgotten, is unknown: it is not
/// described, not stopped, and can be run anew.
pub proof fn forgotten_command_is_unknown(
    tasks: Map<Seq<char>, TaskView>,
    id: Seq<char>,
    wants_output: bool,
    client_token: Seq<char>,
)
    ensures
        described(tasks.remove(id), id, wants_output) == Some(
            DescribeReplyView {
                response: DescribeView {
                    code: "Client.InvalidParam"@,
                    message: Some("the specified command doesn't exist"@),
                    status: None,
                    output: None,
                },
                cleanup: false,
            },
        ),
        stop_outcome(tasks.remove(id).contains_key(id), status_of(tasks.remove(id), id)) == Some(
            StopReplyView {
                response: ReplyView {
                    code: "Client.InvalidParam"@,
                    message: Some("the specified command doesn't exist"@),
                },
                cleanup: false,
                interrupt: None,
            },
        ),
        stopped(tasks.remove(id), id) == tasks.remove(id),
        run_verdict(token_of(tasks.remove(id), id), client_token) == RunVerdict::Start,
{
}

/// A task is cleaned up after its command was stopped, or was described once it did not
/// run any more; and at no other request.
pub proof fn finished_and_stopped_commands_are_cleaned_up(
    tasks: Map<Seq<char>, TaskView>,
    id: Seq<char>,
    wants_output: bool,
)
    ensures
        described(tasks, id, wants_output) matches Some(reply) && (reply.cleanup <==> (
        tasks.contains_key(id) && tasks[id].status != "Running"@)),
        stop_outcome(tasks.contains_key(id), status_of(tasks, id)) matches Some(reply) && (
        reply.cleanup <==> tasks.contains_key(id)),
{
}

/// A request is rejected only where its task was there at first and gone at the next
/// lookup. Otherwise it is answered, whatever changed in between.
pub proof fn only_vanished_tasks_are_rejected(
    wants_output: bool,
    existed: bool,
    status: Option<Seq<char>>,
    output: Option<Seq<u8>>,
)
    ensures
        describe_outcome(wants_output, existed, status, output) is None <==> existed
            && status is None,
        stop_outcome(existed, status) is None <==> existed && status is None,
{
}

/// Something that happens to the tasks.
pub enum TaskEvent {
    /// A request to run a command.
    Run { request: RunCommandRequest },
    /// A request to stop one.
    Stop { id: Seq<char> },
    /// The end of a process.
    Settle { id: Seq<char>, event: ChildEvent },
    /// The output of a process was collected.
    Output { id: Seq<char>, output: Seq<u8> },
    /// A task is forgotten.
    Delete { id: Seq<char> },
}

impl TaskEvent {
    /// The command that the event is about.
    pub open spec fn subject(self) -> Seq<char> {
        match self {
            TaskEvent::Run { request } => request.command_id@,
            TaskEvent::Stop { id } => id,
            TaskEvent::Settle { id, .. } => id,
            TaskEvent::Output { id, .. } => id,
            TaskEvent::Delete { id } => id,
        }
    }

    /// What the event does to the tasks.
    pub open spec fn changes(
        self,
        before: Map<Seq<char>, TaskView>,
        after: Map<Seq<char>, TaskView>,
    ) -> bool {
        match self {
            TaskEvent::Run { request } => run_changes(before, after, request),
            TaskEvent::Stop { id } => after == stopped(before, id),
            TaskEvent::Settle { id, event } => after == settled(before, id, event),
            TaskEvent::Output { id, output } => after == with_output(before, id, output),
            TaskEvent::Delete { id } => after == before.remove(id),
        }
    }
}

/// The tasks went through `states` as `events` happened, one after the other.
pub open spec fn history(
    states: Seq<Map<Seq<char>, TaskView>>,
    events: Seq<TaskEvent>,
) -> bool {
    &&& states.len() == events.len() + 1
    &&& forall|i: int|
        #![trigger events[i]]
        0 <= i < events.len() ==> events[i].changes(states[i], states[i + 1])
}

/// An event about one command leaves the tasks of all others as they are.
pub proof fn other_commands_are_untouched(
    before: Map<Seq<char>, TaskView>,
    after: Map<Seq<char>, TaskView>,
    event: TaskEvent,
    other: Seq<char>,
)
    requires
        event.changes(before, after),
        other != event.subject(),
    ensures
        after.contains_key(other) == before.contains_key(other),
        before.contains_key(other) ==> after[other] == before[other],
{
}

/// Every event keeps each task under its own command identifier.
pub proof fn tasks_stay_keyed_by_id(
    before: Map<Seq<char>, TaskView>,
    after: Map<Seq<char>, TaskView>,
    event: TaskEvent,
)
    requires
        keyed_by_id(before),
        event.changes(before, after),
    ensures
        keyed_by_id(after),
{
    assert forall|id: Seq<char>| #[trigger] after.contains_key(id) implies after[id].command_id
        == id by {
        if id != event.subject() {
            other_commands_are_untouched(before, after, event, id);
            assert(before.contains_key(id));
        }
    }
}

/// The history without its last event.
proof fn lemma_earlier(states: Seq<Map<Seq<char>, TaskView>>, events: Seq<TaskEvent>)
    requires
        history(states, events),
        events.len() > 0,
    ensures
        history(states.drop_last(), events.drop_last()),
        events.last().changes(states.drop_last().last(), states.last()),
        states.drop_last()[0] == states[0],
{
    let earlier = events.drop_last();
    let past = states.drop_last();
    assert forall|i: int|
        #![trigger earlier[i]]
        0 <= i < earlier.len() implies earlier[i].changes(past[i], past[i + 1]) by {
        assert(earlier[i] == events[i]);
    }
    assert(events[events.len() - 1].changes(past.last(), states.last()));
}

/// The channel that a command was started with is the one through which it is
/// interrupted, as long as its task is not forgotten.
pub proof fn command_keeps_its_channel(
    states: Seq<Map<Seq<char>, TaskView>>,
    events: Seq<TaskEvent>,
    id: Seq<char>,
    receiver: UnboundedReceiver<()>,
)
    requires
        history(states, events),
        states[0].contains_key(id),
        linked(states[0][id].sender, receiver),
        forall|i: int|
            0 <= i < events.len() ==> !(#[trigger] events[i] matches TaskEvent::Delete { id: gone }
                && gone == id),
    ensures
        states.last().contains_key(id),
        linked(states.last()[id].sender, receiver),
    decreases events.len(),
{
    if events.len() > 0 {
        let earlier = events.drop_last();
        let past = states.drop_last();
        lemma_earlier(states, events);
        assert forall|i: int| 0 <= i < earlier.len() implies !(
        #[trigger] earlier[i] matches TaskEvent::Delete { id: gone } && gone == id) by {
            assert(earlier[i] == events[i]);
        }
        command_keeps_its_channel(past, earlier, id, receiver);
        let event = events[events.len() - 1];
        if event.subject() != id {
            other_commands_are_untouched(past.last(), states.last(), event, id);
        }
    }
}

/// A command keeps its client token as long as its task is not forgotten.
pub proof fn command_keeps_its_token(
    states: Seq<Map<Seq<char>, TaskView>>,
    events: Seq<TaskEvent>,
    id: Seq<char>,
)
    requires
        history(states, events),
        states[0].contains_key(id),
        forall|i: int|
            0 <= i < events.len() ==> !(#[trigger] events[i] matches TaskEvent::Delete { id: gone }
                && gone == id),
    ensures
        token_of(states.last(), id) == token_of(states[0], id),
    decreases events.len(),
{
    if events.len() > 0 {
        let earlier = events.drop_last();
        let past = states.drop_last();
        lemma_earlier(states, events);
        assert forall|i: int| 0 <= i < earlier.len() implies !(
        #[trigger] earlier[i] matches TaskEvent::Delete { id: gone } && gone == id) by {
            assert(earlier[i] == events[i]);
        }
        command_keeps_its_token(past, earlier, id);
        let event = events[events.len() - 1];
        if event.subject() != id {
            other_commands_are_untouched(past.last(), states.last(), event, id);
        }
    }
}

/// An identifier is started once: after a request to run it was taken, and whatever
/// happens as long as its task is not forgotten, a later request for the identifier is a
/// repeat if it has the same token and is refused if it has another, and changes nothing
/// either way.
pub proof fn identifier_is_started_once(
    states: Seq<Map<Seq<char>, TaskView>>,
    events: Seq<TaskEvent>,
    first: RunCommandRequest,
    second: RunCommandRequest,
    i: int,
    j: int,
)
    requires
        history(states, events),
        0 <= i < j < events.len(),
        events[i] == (TaskEvent::Run { request: first }),
        events[j] == (TaskEvent::Run { request: second }),
        first.command_id@ == second.command_id@,
        !(run_verdict(token_of(states[i], first.command_id@), first.client_token@) is Mismatch),
        forall|k: int|
            i < k < j ==> !(#[trigger] events[k] matches TaskEvent::Delete { id: gone } && gone
                == first.command_id@),
    ensures
        run_verdict(token_of(states[j], second.command_id@), second.client_token@) == (
        if second.client_token@ == first.client_token@ {
            RunVerdict::Repeat
        } else {
            RunVerdict::Mismatch
        }),
        states[j + 1] == states[j],
{
    let id = first.command_id@;
    let between = events.subrange(i + 1, j);
    let meanwhile = states.subrange(i + 1, j + 1);
    assert forall|k: int|
        #![trigger between[k]]
        0 <= k < between.len() implies between[k].changes(meanwhile[k], meanwhile[k + 1]) by {
        assert(between[k] == events[i + 1 + k]);
    }
    assert forall|k: int| 0 <= k < between.len() implies !(
    #[trigger] between[k] matches TaskEvent::Delete { id: gone } && gone == id) by {
        assert(between[k] == events[i + 1 + k]);
    }
    assert(events[i].changes(states[i], states[i + 1]));
    assert(token_of(states[i + 1], id) == Some(first.client_token@));
    command_keeps_its_token(meanwhile, between, id);
    assert(meanwhile.last() == states[j]);
    assert(events[j].changes(states[j], states[j + 1]));
}

/// However often a command is stopped, and whatever else happens, no more than one
/// interrupt is sent to it: none while it runs, and one if it was stopped.
pub proof fn command_is_interrupted_at_most_once(
    states: Seq<Map<Seq<char>, TaskView>>,
    events: Seq<TaskEvent>,
    id: Seq<char>,
)
    requires
        history(states, events),
        states[0] == Map::<Seq<char>, TaskView>::empty(),
        states.last().contains_key(id),
    ensures
        states.last()[id].sent <= 1,
        states.last()[id].status == "Running"@ ==> states.last()[id].sent == 0,
        states.last()[id].status == "Interrupt"@ ==> states.last()[id].sent == 1,
    decreases events.len(),
{
    if events.len() > 0 {
        let past = states.drop_last();
        lemma_earlier(states, events);
        if past.last().contains_key(id) {
            command_is_interrupted_at_most_once(past, events.drop_last(), id);
        }
        statuses_differ();
        if events.last().subject() != id {
            other_commands_are_untouched(past.last(), states.last(), events.last(), id);
        }
    }
}

/// A command that does not run any more never runs again, keeps its client token and
/// its channel, and is sent no further interrupt, as long as its task is not forgotten.
pub proof fn finished_command_stays_finished(
    states: Seq<Map<Seq<char>, TaskView>>,
    events: Seq<TaskEvent>,
    id: Seq<char>,
)
    requires
        history(states, events),
        states[0].contains_key(id),
        states[0][id].status != "Running"@,
        forall|i: int|
            0 <= i < events.len() ==> !(#[trigger] events[i] matches TaskEvent::Delete { id: gone }
                && gone == id),
    ensures
        states.last().contains_key(id),
        states.last()[id].status != "Running"@,
        states.last()[id].client_token == states[0][id].client_token,
        states.last()[id].sender == states[0][id].sender,
        states.last()[id].sent == states[0][id].sent,
    decreases events.len(),
{
    if events.len() > 0 {
        let earlier = events.drop_last();
        let past = states.drop_last();
        lemma_earlier(states, events);
        assert forall|i: int| 0 <= i < earlier.len() implies !(
        #[trigger] earlier[i] matches TaskEvent::Delete { id: gone } && gone == id) by {
            assert(earlier[i] == events[i]);
        }
        finished_command_stays_finished(past, earlier, id);
        let before = past.last();
        let after = states.last();
        let event = events[events.len() - 1];
        statuses_differ();
        if event.subject() != id {
            other_commands_are_untouched(before, after, event, id);
        }
    }
}

/// An event that does not forget a command's task leaves its output as it is, unless
/// new output was collected of it.
pub proof fn output_stays_until_collected_again(
    before: Map<Seq<char>, TaskView>,
    after: Map<Seq<char>, TaskView>,
    event: TaskEvent,
    id: Seq<char>,
)
    requires
        before.contains_key(id),
        event.changes(before, after),
        !(event is Delete && event.subject() == id),
    ensures
        output_of(after, id) == (match event {
            TaskEvent::Output { id: subject, output } if subject == id => Some(output),
            _ => output_of(before, id),
        }),
{
    if event.subject() != id {
        other_commands_are_untouched(before, after, event, id);
    }
}

/// A call that changes a container of tasks.
pub enum StoreCall {
    Insrt { task: TaskView },
    Update { id: Seq<char>, status: Seq<char> },
    UpdateOutput { id: Seq<char>, output: Seq<u8> },
    Delete { id: Seq<char> },
    SendInterrupt { id: Seq<char> },
}

impl StoreCall {
    /// The tasks after the call.
    pub open spec fn applied(self, tasks: Map<Seq<char>, TaskView>) -> Map<Seq<char>, TaskView> {
        match self {
            StoreCall::Insrt { task } => tasks.insert(task.command_id, task),
            StoreCall::Update { id, status } => with_status(tasks, id, status),
            StoreCall::UpdateOutput { id, output } => with_output(tasks, id, output),
            StoreCall::Delete { id } => tasks.remove(id),
            StoreCall::SendInterrupt { id } => with_sent(tasks, id),
        }
    }

    /// Whether the call keeps a task for `id`.
    pub open spec fn inserts(self, id: Seq<char>) -> bool {
        self matches StoreCall::Insrt { task } && task.command_id == id
    }

    /// Whether the call forgets the task of `id`.
    pub open spec fn deletes(self, id: Seq<char>) -> bool {
        self matches StoreCall::Delete { id: gone } && gone == id
    }

    /// The status that the call names for `id`, if any.
    pub open spec fn names_status(self, id: Seq<char>) -> Option<Seq<char>> {
        match self {
            StoreCall::Insrt { task } => if task.command_id == id {
                Some(task.status)
            } else {
                None
            },
            StoreCall::Update { id: subject, status } => if subject == id {
                Some(status)
            } else {
                None
            },
            _ => None,
        }
    }

    /// The output that the call names for `id`, if any.
    pub open spec fn names_output(self, id: Seq<char>) -> Option<Seq<u8>> {
        match self {
            StoreCall::Insrt { task } => if task.command_id == id {
                Some(task.output)
            } else {
                None
            },
            StoreCall::UpdateOutput { id: subject, output } => if subject == id {
                Some(output)
            } else {
                None
            },
            _ => None,
        }
    }
}

/// What a new container holds after some calls, one after the other.
pub open spec fn after_calls(calls: Seq<StoreCall>) -> Map<Seq<char>, TaskView>
    decreases calls.len(),
{
    if calls.len() == 0 {
        Map::empty()
    } else {
        calls.last().applied(after_calls(calls.drop_last()))
    }
}

/// Some call inserted `id`, and none after it deleted it.
pub open spec fn inserted_and_kept(calls: Seq<StoreCall>, id: Seq<char>) -> bool {
    exists|i: int|
        0 <= i < calls.len() && (#[trigger] calls[i]).inserts(id) && (forall|j: int|
            i < j < calls.len() ==> !(#[trigger] calls[j]).deletes(id))
}

/// After any calls, a container has a status for a command just if the command was
/// inserted and not deleted since.
pub proof fn status_lasts_from_insert_to_delete(calls: Seq<StoreCall>, id: Seq<char>)
    ensures
        status_of(after_calls(calls), id) is Some <==> inserted_and_kept(calls, id),
    decreases calls.len(),
{
    if calls.len() > 0 {
        let earlier = calls.drop_last();
        let last = calls.len() - 1;
        status_lasts_from_insert_to_delete(earlier, id);
        if calls[last].inserts(id) {
            assert(inserted_and_kept(calls, id));
        } else if calls[last].deletes(id) {
            assert(!inserted_and_kept(calls, id));
        } else {
            if inserted_and_kept(earlier, id) {
                let i = choose|i: int|
                    0 <= i < earlier.len() && (#[trigger] earlier[i]).inserts(id) && (forall|j: int|
                        i < j < earlier.len() ==> !(#[trigger] earlier[j]).deletes(id));
                assert(calls[i].inserts(id));
                assert forall|j: int| i < j < calls.len() implies !(#[trigger] calls[j]).deletes(
                    id,
                ) by {
                    if j < last {
                        assert(earlier[j] == calls[j]);
                    }
                }
            }
            if inserted_and_kept(calls, id) {
                let i = choose|i: int|
                    0 <= i < calls.len() && (#[trigger] calls[i]).inserts(id) && (forall|j: int|
                        i < j < calls.len() ==> !(#[trigger] calls[j]).deletes(id));
                assert(earlier[i].inserts(id));
                assert forall|j: int| i < j < earlier.len() implies !(
                #[trigger] earlier[j]).deletes(id) by {
                    assert(earlier[j] == calls[j]);
                }
            }
        }
    }
}

/// After any calls, the status of a command is the one that was last named for it, by an
/// insertion or by an update while it was there, if it was not deleted since. New
/// output, an interrupt, and calls about other commands have no effect on it.
pub proof fn status_is_the_one_last_named(calls: Seq<StoreCall>, id: Seq<char>, named: int)
    requires
        0 <= named < calls.len(),
        calls[named].names_status(id) is Some,
        calls[named].inserts(id) || inserted_and_kept(calls.take(named), id),
        forall|j: int|
            named < j < calls.len() ==> !(#[trigger] calls[j]).deletes(id)
                && calls[j].names_status(id) is None,
    ensures
        status_of(after_calls(calls), id) == calls[named].names_status(id),
    decreases calls.len(),
{
    let earlier = calls.drop_last();
    let last = calls.len() - 1;
    if named == last {
        assert(calls.take(named) =~= earlier);
        status_lasts_from_insert_to_delete(earlier, id);
    } else {
        assert(earlier.take(named) =~= calls.take(named));
        assert forall|j: int| named < j < earlier.len() implies !(#[trigger] earlier[j]).deletes(id)
            && earlier[j].names_status(id) is None by {
            assert(earlier[j] == calls[j]);
        }
        status_is_the_one_last_named(earlier, id, named);
        assert(!calls[last].deletes(id) && calls[last].names_status(id) is None);
    }
}

/// After any calls, the output of a command is the one that was last named for it, by an
/// insertion or by an update while it was there, if it was not deleted since. New
/// statuses, an interrupt, and calls about other commands have no effect on it.
pub proof fn output_is_the_one_last_named(calls: Seq<StoreCall>, id: Seq<char>, named: int)
    requires
        0 <= named < calls.len(),
        calls[named].names_output(id) is Some,
        calls[named].inserts(id) || inserted_and_kept(calls.take(named), id),
        forall|j: int|
            named < j < calls.len() ==> !(#[trigger] calls[j]).deletes(id)
                && calls[j].names_output(id) is None,
    ensures
        output_of(after_calls(calls), id) == calls[named].names_output(id),
    decreases calls.len(),
{
    let earlier = calls.drop_last();
    let last = calls.len() - 1;
    if named == last {
        assert(calls.take(named) =~= earlier);
        status_lasts_from_insert_to_delete(earlier, id);
    } else {
        assert(earlier.take(named) =~= calls.take(named));
        assert forall|j: int| named < j < earlier.len() implies !(#[trigger] earlier[j]).deletes(id)
            && earlier[j].names_output(id) is None by {
            assert(earlier[j] == calls[j]);
        }
        output_is_the_one_last_named(earlier, id, named);
        assert(!calls[last].deletes(id) && calls[last].names_output(id) is None);
    }
}

} // verus!
