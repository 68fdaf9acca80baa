//! What the operations on commands promise their callers, for every input: each law
//! speaks of a call by its arguments and its result.

use crate::command::{
    admission, after_interrupt, describe_command, describe_reply, described, launch_plan, new_task,
    react, run_command, run_response, settle, status_of, stop_command, stop_reply, stopped,
    texts, utf8_lossy, ChildEvent, CommandError, DescribeCommandRequest, DescribeReply, LaunchPlan,
    Reaction, Rejected, RunCommandRequest, RunCommandResponse, RunFailure, SafeTaskContainer,
    StopCommandRequest, StopReply, Task, TaskView,
};
use crate::command_laws::statuses_differ;
use crate::interrupt::{linked, InterruptSender};
use tokio::sync::mpsc::{UnboundedReceiver, UnboundedSender};
use vstd::prelude::*;

verus! {

/// A sender goes through the half that it was made from, and nothing was sent yet.
pub proof fn new_sender_has_sent_nothing(half: UnboundedSender<()>, sender: InterruptSender)
    requires
        call_ensures(InterruptSender::new, (half,), sender),
    ensures
        sender.half() == half,
        sender.sent() == 0,
{
}

/// A task stands for what its fields hold.
pub proof fn task_is_its_fields(task: Task)
    ensures
        task@.command_id == task.command_id@,
        task@.status == task.status@,
        task@.output == task.output@,
        task@.client_token == task.client_token@,
        task@.sender == task.sender.half(),
        task@.sent == task.sender.sent(),
{
}

/// A container stands for the tasks that it keeps, each under its name.
pub proof fn container_is_its_tasks(container: SafeTaskContainer, id: Seq<char>)
    ensures
        container@.contains_key(id) <==> container.tasks@.contains_key(id),
        container.tasks@.contains_key(id) ==> container@[id] == container.tasks@[id]@,
{
}

/// A well-formed container keeps every task under the task's own identifier.
pub proof fn tasks_are_kept_by_identifier(container: SafeTaskContainer, id: Seq<char>)
    requires
        container.wf(),
        container@.contains_key(id),
    ensures
        container@[id].command_id == id,
{
}

/// A new container knows no command.
pub proof fn new_container_knows_nothing(container: SafeTaskContainer, id: Seq<char>)
    requires
        call_ensures(SafeTaskContainer::new, (), container),
    ensures
        container.wf(),
        !container@.contains_key(id),
{
}

/// The lookups give what the task of a command holds, and nothing where there is none.
pub proof fn lookups_give_the_task(
    tasks: SafeTaskContainer,
    id: &str,
    found: bool,
    token: Option<String>,
    status: Option<String>,
    output: Option<Vec<u8>>,
)
    requires
        call_ensures(SafeTaskContainer::exist, (&tasks, id), found),
        call_ensures(SafeTaskContainer::get_client_token, (&tasks, id), token),
        call_ensures(SafeTaskContainer::get_status, (&tasks, id), status),
        call_ensures(SafeTaskContainer::get_output, (&tasks, id), output),
    ensures
        found <==> tasks@.contains_key(id@),
        !found ==> token is None && status is None && output is None,
        found ==> token is Some && token->0@ == tasks@[id@].client_token,
        found ==> status is Some && status->0@ == tasks@[id@].status,
        found ==> output is Some && output->0@ == tasks@[id@].output,
{
}

/// To delete a command forgets its task and touches no other.
pub proof fn delete_forgets_one_command(tasks: &mut SafeTaskContainer, id: &str, other: Seq<char>)
    requires
        call_ensures(SafeTaskContainer::delete, (tasks, id), ()),
    ensures
        final(tasks).wf(),
        !final(tasks)@.contains_key(id@),
        other != id@ ==> (final(tasks)@.contains_key(other) <==> old(tasks)@.contains_key(other)),
        other != id@ && old(tasks)@.contains_key(other) ==> final(tasks)@[other]
            == old(tasks)@[other],
{
}

/// To insert a task keeps it as it is under its identifier, and touches no other.
pub proof fn insert_keeps_the_task(tasks: &mut SafeTaskContainer, task: Task, other: Seq<char>)
    requires
        call_ensures(SafeTaskContainer::insrt, (tasks, task), ()),
    ensures
        final(tasks).wf(),
        final(tasks)@.contains_key(task.command_id@),
        final(tasks)@[task.command_id@] == task@,
        other != task.command_id@ ==> (final(tasks)@.contains_key(other)
            <==> old(tasks)@.contains_key(other)),
        other != task.command_id@ && old(tasks)@.contains_key(other) ==> final(tasks)@[other]
            == old(tasks)@[other],
{
}

/// To update a status sets the status of the one task and nothing else, and does nothing
/// where there is no such task.
pub proof fn update_sets_one_status(
    tasks: &mut SafeTaskContainer,
    id: &str,
    status: &str,
    other: Seq<char>,
)
    requires
        call_ensures(SafeTaskContainer::update, (tasks, id, status), ()),
    ensures
        final(tasks).wf(),
        final(tasks)@.contains_key(other) <==> old(tasks)@.contains_key(other),
        old(tasks)@.contains_key(other) && other != id@ ==> final(tasks)@[other]
            == old(tasks)@[other],
        old(tasks)@.contains_key(id@) ==> final(tasks)@[id@] == (TaskView {
            status: status@,
            ..old(tasks)@[id@]
        }),
{
}

/// To update an output sets the output of the one task and nothing else, and does nothing
/// where there is no such task.
pub proof fn update_sets_one_output(
    tasks: &mut SafeTaskContainer,
    id: &str,
    output: Vec<u8>,
    other: Seq<char>,
)
    requires
        call_ensures(SafeTaskContainer::update_output, (tasks, id, output), ()),
    ensures
        final(tasks).wf(),
        final(tasks)@.contains_key(other) <==> old(tasks)@.contains_key(other),
        old(tasks)@.contains_key(other) && other != id@ ==> final(tasks)@[other]
            == old(tasks)@[other],
        old(tasks)@.contains_key(id@) ==> final(tasks)@[id@] == (TaskView {
            output: output@,
            ..old(tasks)@[id@]
        }),
{
}

/// To send an interrupt sends one to the one task and none to another, changes nothing
/// else, and does nothing where there is no such task.
pub proof fn interrupt_goes_to_one_task(
    tasks: &mut SafeTaskContainer,
    id: &str,
    taken: Option<bool>,
    other: Seq<char>,
)
    requires
        call_ensures(SafeTaskContainer::send_interrupt, (tasks, id), taken),
    ensures
        final(tasks).wf(),
        taken is Some <==> old(tasks)@.contains_key(id@),
        final(tasks)@.contains_key(other) <==> old(tasks)@.contains_key(other),
        old(tasks)@.contains_key(other) && other != id@ ==> final(tasks)@[other]
            == old(tasks)@[other],
        old(tasks)@.contains_key(id@) ==> final(tasks)@[id@] == (TaskView {
            sent: old(tasks)@[id@].sent + 1,
            ..old(tasks)@[id@]
        }),
{
}

/// A status that is set is the one that is looked up next, for a command that is there;
/// what was set before has no part in it.
pub proof fn set_status_is_read_back(
    tasks: &mut SafeTaskContainer,
    id: &str,
    status: &str,
    read: Option<String>,
)
    requires
        call_ensures(SafeTaskContainer::exist, (&*old(tasks), id), true),
        call_ensures(SafeTaskContainer::update, (tasks, id, status), ()),
        call_ensures(SafeTaskContainer::get_status, (&*final(tasks), id), read),
    ensures
        read is Some,
        read->0@ == status@,
{
}

/// An output that is set is the one that is looked up next, for a command that is there.
pub proof fn set_output_is_read_back(
    tasks: &mut SafeTaskContainer,
    id: &str,
    output: Vec<u8>,
    read: Option<Vec<u8>>,
)
    requires
        call_ensures(SafeTaskContainer::exist, (&*old(tasks), id), true),
        call_ensures(SafeTaskContainer::update_output, (tasks, id, output), ()),
        call_ensures(SafeTaskContainer::get_output, (&*final(tasks), id), read),
    ensures
        read is Some,
        read->0@ == output@,
{
}

/// The text of an error is its message, with a prefix in a log.
pub proof fn error_tells_its_message(error: CommandError, message: &str, text: String)
    requires
        call_ensures(CommandError::description, (&error,), message),
        call_ensures(CommandError::to_text, (&error,), text),
    ensures
        message@ == error.message@,
        text@.len() == 14 + error.message@.len(),
        text@.take(14) == "command error:"@,
        text@.skip(14) == error.message@,
{
    reveal_strlit("command error:");
    assert(text@.take(14) =~= "command error:"@);
    assert(text@.skip(14) =~= error.message@);
}

/// A request is started just where its identifier is free, is let pass just where it has
/// the token that the identifier has, and is an error just where it has another.
pub proof fn admission_goes_by_the_token(
    request: RunCommandRequest,
    token: Option<String>,
    start: Result<bool, CommandError>,
)
    requires
        call_ensures(admission, (&request, token), start),
    ensures
        start == Ok::<bool, CommandError>(true) <==> token is None,
        start == Ok::<bool, CommandError>(false) <==> token is Some && token->0@
            == request.client_token@,
        start is Err <==> token is Some && token->0@ != request.client_token@,
        start is Err ==> start->Err_0.code@ == "Client.InvalidParam"@ && start->Err_0.message@
            == "client token not match with command ID"@,
{
}

/// A task that is made for a request has its identifier and its token, runs, has no output,
/// and can be interrupted through the channel that comes with it, on which nothing was
/// sent.
pub proof fn new_task_is_for_its_request(
    request: RunCommandRequest,
    made: (Task, UnboundedReceiver<()>),
)
    requires
        call_ensures(new_task, (&request,), made),
    ensures
        made.0.command_id@ == request.command_id@,
        made.0.status@ == "Running"@,
        made.0.output@.len() == 0,
        made.0.client_token@ == request.client_token@,
        made.0.sender.sent() == 0,
        linked(made.0.sender.half(), made.1),
{
}

/// A request to run an unknown command starts it: its task is kept, runs, has no output
/// and the token of the request, and is interrupted through the channel that the caller
/// gets. No other task is touched.
pub proof fn run_starts_an_unknown_command(
    request: RunCommandRequest,
    tasks: &mut SafeTaskContainer,
    started: Result<Option<UnboundedReceiver<()>>, CommandError>,
    other: Seq<char>,
)
    requires
        call_ensures(run_command, (&request, tasks), started),
        !old(tasks)@.contains_key(request.command_id@),
    ensures
        final(tasks).wf(),
        started is Ok && started->Ok_0 is Some,
        linked(final(tasks)@[request.command_id@].sender, started->Ok_0->0),
        final(tasks)@.contains_key(request.command_id@),
        final(tasks)@[request.command_id@].command_id == request.command_id@,
        final(tasks)@[request.command_id@].status == "Running"@,
        final(tasks)@[request.command_id@].output.len() == 0,
        final(tasks)@[request.command_id@].client_token == request.client_token@,
        final(tasks)@[request.command_id@].sent == 0,
        other != request.command_id@ ==> (final(tasks)@.contains_key(other)
            <==> old(tasks)@.contains_key(other)),
        other != request.command_id@ && old(tasks)@.contains_key(other) ==> final(tasks)@[other]
            == old(tasks)@[other],
{
}

/// A request to run a known command changes no task, whatever the command's status. It is
/// let pass without a new channel where it has the command's token, and is an error where
/// it has another.
pub proof fn run_leaves_a_known_command_alone(
    request: RunCommandRequest,
    tasks: &mut SafeTaskContainer,
    started: Result<Option<UnboundedReceiver<()>>, CommandError>,
)
    requires
        call_ensures(run_command, (&request, tasks), started),
        old(tasks)@.contains_key(request.command_id@),
    ensures
        final(tasks).wf(),
        final(tasks)@ == old(tasks)@,
        old(tasks)@[request.command_id@].client_token == request.client_token@ ==> started is Ok
            && started->Ok_0 is None,
        old(tasks)@[request.command_id@].client_token != request.client_token@ ==> started is Err
            && started->Err_0.code@ == "Client.InvalidParam"@ && started->Err_0.message@
            == "client token not match with command ID"@,
{
}

/// A request that went well is answered so, without a message; one that was at fault is
/// answered with the code and message of its error; and only a failure of the system is
/// turned away.
pub proof fn run_is_answered_by_its_outcome(
    outcome: Result<(), RunFailure>,
    answer: Result<RunCommandResponse, Rejected>,
)
    requires
        call_ensures(run_response, (outcome,), answer),
    ensures
        outcome is Ok ==> answer is Ok && answer->Ok_0.code@ == "Success"@
            && answer->Ok_0.message is None,
        outcome matches Err(RunFailure::Command(error)) ==> answer is Ok && answer->Ok_0.code@
            == error.code@ && answer->Ok_0.message is Some && answer->Ok_0.message->0@
            == error.message@,
        answer is Err <==> outcome matches Err(RunFailure::System),
{
}

/// A command is handed to the shell as it stands, runs for as long as its request says, and
/// has a process group of its own unless it is to be killed with the daemon.
pub proof fn launch_follows_the_request(request: RunCommandRequest, plan: LaunchPlan)
    requires
        call_ensures(launch_plan, (&request,), plan),
    ensures
        plan.program@ == "/bin/sh"@,
        plan.args@.len() == 2,
        plan.args@[0]@ == "-c"@,
        plan.args@[1]@ == utf8_lossy(request.command@),
        vstd::utf8::valid_utf8(request.command@) ==> vstd::utf8::encode_utf8(plan.args@[1]@)
            == request.command@,
        plan.own_group <==> !request.kill_mode,
        plan.timeout_secs as int == request.timeout as int,
{
}

/// A process is killed just where it ran too long or was interrupted. All ends but an
/// interrupt set a status, of which the last is "Success" just where the process ended by
/// itself and "Failed" otherwise; an interrupt sets none but has the status looked at.
pub proof fn reaction_fits_the_event(event: ChildEvent, reaction: Reaction)
    requires
        call_ensures(react, (&event,), reaction),
    ensures
        reaction.kill <==> event is TimedOut || event is Interrupted,
        reaction.recheck <==> event is Interrupted,
        reaction.updates@.len() == 0 <==> event is Interrupted,
        reaction.updates@.len() == 2 <==> event matches ChildEvent::Exited { success: false },
        reaction.updates@.len() <= 2,
        reaction.updates@.len() == 2 ==> reaction.updates@[0]@ == "Failed"@,
        event is Exited ==> reaction.updates@.last()@ == "Success"@,
        event is SpawnFailed || event is TimedOut || event is WaitFailed
            ==> reaction.updates@.last()@ == "Failed"@,
{
    let told = texts(reaction.updates@);
    assert(told.len() == reaction.updates@.len());
    if told.len() > 0 {
        assert(told.last() == reaction.updates@.last()@);
    }
}

/// An interrupted task that counts as running has failed; any other keeps its status.
pub proof fn interrupt_fails_running_tasks_only(status: Option<String>, update: Option<String>)
    requires
        call_ensures(after_interrupt, (status,), update),
    ensures
        update is Some <==> status is Some && status->0@ == "Running"@,
        update is Some ==> update->0@ == "Failed"@,
{
}

/// The end of a process gives the task its status: "Success" where the process ended by
/// itself, "Failed" where it could not be started or waited for or ran too long. An
/// interrupt makes a task that counts as running "Failed" and leaves any other status.
/// Nothing else of the task changes.
pub proof fn end_of_a_process_sets_the_status(
    tasks: &mut SafeTaskContainer,
    id: &str,
    event: ChildEvent,
)
    requires
        call_ensures(settle, (tasks, id, &event), ()),
        old(tasks)@.contains_key(id@),
    ensures
        final(tasks).wf(),
        final(tasks)@.contains_key(id@),
        event is Exited ==> final(tasks)@[id@].status == "Success"@,
        event is SpawnFailed || event is TimedOut || event is WaitFailed
            ==> final(tasks)@[id@].status == "Failed"@,
        event is Interrupted && old(tasks)@[id@].status == "Running"@
            ==> final(tasks)@[id@].status == "Failed"@,
        event is Interrupted && old(tasks)@[id@].status != "Running"@
            ==> final(tasks)@[id@].status == old(tasks)@[id@].status,
        final(tasks)@[id@] == (TaskView {
            status: final(tasks)@[id@].status,
            ..old(tasks)@[id@]
        }),
{
}

/// The end of a process touches no task but its own, and makes none.
pub proof fn end_of_a_process_touches_no_other(
    tasks: &mut SafeTaskContainer,
    id: &str,
    event: ChildEvent,
    other: Seq<char>,
)
    requires
        call_ensures(settle, (tasks, id, &event), ()),
    ensures
        final(tasks)@.contains_key(other) <==> old(tasks)@.contains_key(other),
        other != id@ && old(tasks)@.contains_key(other) ==> final(tasks)@[other]
            == old(tasks)@[other],
{
}

/// Whatever the lookups gave: a command that was not there is told to be unknown; one that
/// was there and is gone is turned away; and any other is answered with the status that was
/// looked up. The output that was looked up is given just where it is asked for and the
/// command does not run, and such a command is cleaned up, asked for or not.
pub proof fn description_tells_what_was_looked_up(
    request: DescribeCommandRequest,
    existed: bool,
    status: Option<String>,
    output: Option<Vec<u8>>,
    reply: Result<DescribeReply, Rejected>,
)
    requires
        call_ensures(describe_reply, (&request, existed, status, output), reply),
    ensures
        reply is Err <==> existed && status is None,
        !existed ==> {
            let response = reply->Ok_0.response;
            &&& response.code@ == "Client.InvalidParam"@
            &&& response.message is Some
            &&& response.message->0@ == "the specified command doesn't exist"@
            &&& response.status is None
            &&& response.output is None
            &&& !reply->Ok_0.cleanup
        },
        existed && status is Some ==> {
            let response = reply->Ok_0.response;
            &&& response.code@ == "Success"@
            &&& response.message is None
            &&& response.status is Some
            &&& response.status->0@ == status->0@
            &&& (response.output is Some <==> request.output && output is Some && status->0@
                != "Running"@)
            &&& (response.output is Some ==> response.output->0@ == output->0@)
            &&& (reply->Ok_0.cleanup <==> status->0@ != "Running"@)
        },
{
}

/// A command that is kept is described with the status that its task has, and, where that
/// is asked for and the command does not run, with the output that its task has. One that
/// is not kept is told to be unknown.
pub proof fn description_tells_the_task(
    request: DescribeCommandRequest,
    tasks: SafeTaskContainer,
    reply: Result<DescribeReply, Rejected>,
)
    requires
        call_ensures(describe_command, (&request, &tasks), reply),
    ensures
        reply is Ok,
        tasks@.contains_key(request.command_id@) ==> {
            let task = tasks@[request.command_id@];
            let response = reply->Ok_0.response;
            &&& response.code@ == "Success"@
            &&& response.message is None
            &&& response.status is Some
            &&& response.status->0@ == task.status
            &&& (response.output is Some <==> request.output && task.status != "Running"@)
            &&& (response.output is Some ==> response.output->0@ == task.output)
            &&& (reply->Ok_0.cleanup <==> task.status != "Running"@)
        },
        !tasks@.contains_key(request.command_id@) ==> {
            let response = reply->Ok_0.response;
            &&& response.code@ == "Client.InvalidParam"@
            &&& response.message is Some
            &&& response.message->0@ == "the specified command doesn't exist"@
            &&& response.status is None
            &&& response.output is None
            &&& !reply->Ok_0.cleanup
        },
{
}

/// What `described` says of a command that is kept is the status of its task.
pub proof fn described_status_is_the_tasks_status(
    tasks: Map<Seq<char>, TaskView>,
    id: Seq<char>,
    wants_output: bool,
)
    requires
        tasks.contains_key(id),
    ensures
        described(tasks, id, wants_output) is Some,
        described(tasks, id, wants_output)->0.response.code == "Success"@,
        described(tasks, id, wants_output)->0.response.message is None,
        described(tasks, id, wants_output)->0.response.status == Some(tasks[id].status),
{
}

/// A command that ran too long, or could not be started or waited for, is described as
/// failed; one whose process ended by itself as successful; whatever its output.
pub proof fn ended_command_is_described_by_its_end(
    tasks: &mut SafeTaskContainer,
    id: &str,
    event: ChildEvent,
    request: DescribeCommandRequest,
    reply: Result<DescribeReply, Rejected>,
)
    requires
        call_ensures(SafeTaskContainer::exist, (&*old(tasks), id), true),
        call_ensures(settle, (tasks, id, &event), ()),
        request.command_id@ == id@,
        call_ensures(describe_command, (&request, &*final(tasks)), reply),
        !(event is Interrupted),
    ensures
        reply is Ok,
        reply->Ok_0.response.status is Some,
        reply->Ok_0.response.status->0@ == (if event is Exited {
            "Success"@
        } else {
            "Failed"@
        }),
        reply->Ok_0.cleanup,
{
    statuses_differ();
}

/// Whatever the lookups gave: a command that was not there is told to be unknown; one that
/// was there and is gone is turned away; one that runs is marked as interrupted and
/// answered without a message; and any other is only told to have exited. All that are
/// there are cleaned up.
pub proof fn stop_goes_by_what_was_looked_up(
    existed: bool,
    status: Option<String>,
    reply: Result<StopReply, Rejected>,
)
    requires
        call_ensures(stop_reply, (existed, status), reply),
    ensures
        reply is Err <==> existed && status is None,
        !existed ==> {
            let response = reply->Ok_0.response;
            &&& response.code@ == "Client.InvalidParam"@
            &&& response.message is Some
            &&& response.message->0@ == "the specified command doesn't exist"@
            &&& !reply->Ok_0.cleanup
            &&& reply->Ok_0.interrupt is None
        },
        existed && status is Some ==> {
            let response = reply->Ok_0.response;
            &&& response.code@ == "Success"@
            &&& (response.message is None <==> status->0@ == "Running"@)
            &&& (response.message is Some ==> response.message->0@
                == "the specified command has exited"@)
            &&& reply->Ok_0.cleanup
            &&& (reply->Ok_0.interrupt is Some <==> status->0@ == "Running"@)
            &&& (reply->Ok_0.interrupt is Some ==> reply->Ok_0.interrupt->0@ == "Interrupt"@)
        },
{
}

/// To stop a command that does not run changes no task, whatever the command's status and
/// output: the client is told that it has exited, or that it is unknown.
pub proof fn stop_leaves_an_exited_command_alone(
    request: StopCommandRequest,
    tasks: &mut SafeTaskContainer,
    reply: Result<StopReply, Rejected>,
)
    requires
        call_ensures(stop_command, (&request, tasks), reply),
        old(tasks)@.contains_key(request.command_id@) ==> old(tasks)@[request.command_id@].status
            != "Running"@,
    ensures
        final(tasks).wf(),
        final(tasks)@ == old(tasks)@,
        reply is Ok,
        reply->Ok_0.interrupt is None,
        reply->Ok_0.response.message is Some,
        old(tasks)@.contains_key(request.command_id@) ==> {
            &&& reply->Ok_0.response.code@ == "Success"@
            &&& reply->Ok_0.response.message->0@ == "the specified command has exited"@
            &&& reply->Ok_0.cleanup
        },
        !old(tasks)@.contains_key(request.command_id@) ==> {
            &&& reply->Ok_0.response.code@ == "Client.InvalidParam"@
            &&& reply->Ok_0.response.message->0@ == "the specified command doesn't exist"@
            &&& !reply->Ok_0.cleanup
        },
{
}

/// To stop a command that runs marks it as interrupted and sends one interrupt to it, keeps
/// all else of its task, and touches no other.
pub proof fn stop_interrupts_a_running_command(
    request: StopCommandRequest,
    tasks: &mut SafeTaskContainer,
    reply: Result<StopReply, Rejected>,
    other: Seq<char>,
)
    requires
        call_ensures(stop_command, (&request, tasks), reply),
        old(tasks)@.contains_key(request.command_id@),
        old(tasks)@[request.command_id@].status == "Running"@,
    ensures
        final(tasks).wf(),
        reply is Ok,
        reply->Ok_0.response.code@ == "Success"@,
        reply->Ok_0.response.message is None,
        reply->Ok_0.cleanup,
        reply->Ok_0.interrupt is Some && reply->Ok_0.interrupt->0@ == "Interrupt"@,
        final(tasks)@.contains_key(other) <==> old(tasks)@.contains_key(other),
        other != request.command_id@ && old(tasks)@.contains_key(other) ==> final(tasks)@[other]
            == old(tasks)@[other],
        final(tasks)@[request.command_id@] == (TaskView {
            status: "Interrupt"@,
            sent: old(tasks)@[request.command_id@].sent + 1,
            ..old(tasks)@[request.command_id@]
        }),
{
}

/// What `stopped` says of a command that does not run is that no task changes.
pub proof fn stopped_changes_running_commands_only(
    tasks: Map<Seq<char>, TaskView>,
    id: Seq<char>,
)
    requires
        tasks.contains_key(id) ==> tasks[id].status != "Running"@,
    ensures
        status_of(tasks, id) != Some("Running"@),
        stopped(tasks, id) == tasks,
{
}

/// A command that has exited is described after a stop just as before it.
pub proof fn stop_keeps_the_description_of_an_exited_command(
    first: DescribeCommandRequest,
    before: Result<DescribeReply, Rejected>,
    stop: StopCommandRequest,
    tasks: &mut SafeTaskContainer,
    reply: Result<StopReply, Rejected>,
    after: Result<DescribeReply, Rejected>,
)
    requires
        call_ensures(describe_command, (&first, &*old(tasks)), before),
        call_ensures(stop_command, (&stop, tasks), reply),
        call_ensures(describe_command, (&first, &*final(tasks)), after),
        reply->Ok_0.interrupt is None,
    ensures
        before is Ok && after is Ok,
        after->Ok_0@ == before->Ok_0@,
        after->Ok_0.response.status is Some <==> before->Ok_0.response.status is Some,
        after->Ok_0.response.status is Some ==> after->Ok_0.response.status->0@
            == before->Ok_0.response.status->0@,
{
}

/// A command that was started is described as running until its end is recorded or it is
/// stopped, whatever it has printed so far.
pub proof fn started_command_is_told_to_run(
    run: RunCommandRequest,
    tasks: &mut SafeTaskContainer,
    started: Result<Option<UnboundedReceiver<()>>, CommandError>,
    request: DescribeCommandRequest,
    reply: Result<DescribeReply, Rejected>,
)
    requires
        call_ensures(run_command, (&run, tasks), started),
        started is Ok && started->Ok_0 is Some,
        request.command_id@ == run.command_id@,
        call_ensures(describe_command, (&request, &*final(tasks)), reply),
    ensures
        reply is Ok,
        reply->Ok_0.response.status is Some,
        reply->Ok_0.response.status->0@ == "Running"@,
        reply->Ok_0.response.output is None,
        !reply->Ok_0.cleanup,
{
}

} // verus!
