//! Commands that run in the background: what a request to run, describe or stop
//! one is answered, and what becomes of its task while its process lives and ends.

use crate::interrupt::{interrupt_channel, linked, InterruptSender};
use crate::name_map::NameMap;
use tokio::sync::mpsc::{UnboundedReceiver, UnboundedSender};
use vstd::prelude::*;

verus! {

/// How long a finished or stopped task is kept after it was asked for, in seconds.
pub const CLEANUP_DELAY_SECS: u64 = 1800;

/// The longest request body that is read, in bytes.
pub const BODY_LIMIT: u64 = 16384;

/// The text that `String::from_utf8_lossy` makes of some bytes.
pub uninterp spec fn utf8_lossy(bytes: Seq<u8>) -> Seq<char>;

/// Calls `String::from_utf8_lossy`. The text is a function of the bytes, and valid
/// UTF-8 is decoded to the text that it encodes.
#[verifier::external_body]
fn from_utf8_lossy(bytes: &Vec<u8>) -> (text: String)
    ensures
        text@ == utf8_lossy(bytes@),
        vstd::utf8::valid_utf8(bytes@) ==> vstd::utf8::encode_utf8(text@) == bytes@,
{
    String::from_utf8_lossy(bytes).into_owned()
}

/// A request to run a command.
pub struct RunCommandRequest {
    pub command_id: String,
    pub command: Vec<u8>,
    pub timeout: u32,
    pub kill_mode: bool,
    pub client_token: String,
}

/// The answer to a request to run a command.
pub struct RunCommandResponse {
    pub code: String,
    pub message: Option<String>,
}

/// A request to stop a command.
pub struct StopCommandRequest {
    pub command_id: String,
}

/// The answer to a request to stop a command.
pub struct StopCommandResponse {
    pub code: String,
    pub message: Option<String>,
}

/// A request to describe a command.
pub struct DescribeCommandRequest {
    pub command_id: String,
    pub output: bool,
}

/// The answer to a request to describe a command.
pub struct DescribeCommandResponse {
    pub code: String,
    pub message: Option<String>,
    pub status: Option<String>,
    pub output: Option<Vec<u8>>,
}

/// A command that was started, with the channel that interrupts it.
pub struct Task {
    pub command_id: String,
    pub status: String,
    pub output: Vec<u8>,
    pub client_token: String,
    pub sender: InterruptSender,
}

/// A task as a value, with the half of its channel through which it is interrupted and
/// the number of interrupts that were sent to it.
#[verifier::ext_equal]
pub struct TaskView {
    pub command_id: Seq<char>,
    pub status: Seq<char>,
    pub output: Seq<u8>,
    pub client_token: Seq<char>,
    pub sender: UnboundedSender<()>,
    pub sent: nat,
}

impl View for Task {
    type V = TaskView;

    open spec fn view(&self) -> TaskView {
        TaskView {
            command_id: self.command_id@,
            status: self.status@,
            output: self.output@,
            client_token: self.client_token@,
            sender: self.sender.half(),
            sent: self.sender.sent(),
        }
    }
}

/// The tasks by command identifier.
pub struct SafeTaskContainer {
    pub tasks: NameMap<Task>,
}

impl View for SafeTaskContainer {
    type V = Map<Seq<char>, TaskView>;

    open spec fn view(&self) -> Map<Seq<char>, TaskView> {
        self.tasks@.map_values(|task: Task| task@)
    }
}

/// Every task is kept under its own command identifier.
pub open spec fn keyed_by_id(tasks: Map<Seq<char>, TaskView>) -> bool {
    forall|id: Seq<char>| #[trigger]
        tasks.contains_key(id) ==> tasks[id].command_id == id
}

/// The tasks after the status of `id` was set, where there is such a task.
pub open spec fn with_status(
    tasks: Map<Seq<char>, TaskView>,
    id: Seq<char>,
    status: Seq<char>,
) -> Map<Seq<char>, TaskView> {
    if tasks.contains_key(id) {
        tasks.insert(id, TaskView { status: status, ..tasks[id] })
    } else {
        tasks
    }
}

/// The tasks after the output of `id` was set, where there is such a task.
pub open spec fn with_output(
    tasks: Map<Seq<char>, TaskView>,
    id: Seq<char>,
    output: Seq<u8>,
) -> Map<Seq<char>, TaskView> {
    if tasks.contains_key(id) {
        tasks.insert(id, TaskView { output: output, ..tasks[id] })
    } else {
        tasks
    }
}

/// The tasks after one more interrupt was sent to `id`, where there is such a task.
pub open spec fn with_sent(tasks: Map<Seq<char>, TaskView>, id: Seq<char>) -> Map<
    Seq<char>,
    TaskView,
> {
    if tasks.contains_key(id) {
        tasks.insert(id, TaskView { sent: tasks[id].sent + 1, ..tasks[id] })
    } else {
        tasks
    }
}

/// An optional string as a value.
pub open spec fn opt_text(text: Option<String>) -> Option<Seq<char>> {
    match text {
        Some(t) => Some(t@),
        None => None,
    }
}

/// An optional byte vector as a value.
pub open spec fn opt_bytes(bytes: Option<Vec<u8>>) -> Option<Seq<u8>> {
    match bytes {
        Some(b) => Some(b@),
        None => None,
    }
}

/// The status that a lookup of `id` gives.
pub open spec fn status_of(tasks: Map<Seq<char>, TaskView>, id: Seq<char>) -> Option<Seq<char>> {
    if tasks.contains_key(id) {
        Some(tasks[id].status)
    } else {
        None
    }
}

/// The output that a lookup of `id` gives.
pub open spec fn output_of(tasks: Map<Seq<char>, TaskView>, id: Seq<char>) -> Option<Seq<u8>> {
    if tasks.contains_key(id) {
        Some(tasks[id].output)
    } else {
        None
    }
}

/// The client token that a lookup of `id` gives.
pub open spec fn token_of(tasks: Map<Seq<char>, TaskView>, id: Seq<char>) -> Option<Seq<char>> {
    if tasks.contains_key(id) {
        Some(tasks[id].client_token)
    } else {
        None
    }
}

impl SafeTaskContainer {
    /// The names are distinct, and each is the command identifier of its task.
    pub open spec fn wf(&self) -> bool {
        self.tasks.wf() && keyed_by_id(self@)
    }

    /// A container without tasks.
    pub fn new() -> (container: Self)
        ensures
            container.wf(),
            container@ == Map::<Seq<char>, TaskView>::empty(),
    {
        let container = SafeTaskContainer { tasks: NameMap::new() };
        assert(container@ =~= Map::<Seq<char>, TaskView>::empty());
        container
    }

    /// Whether there is a task for the command.
    pub fn exist(&self, command_id: &str) -> (found: bool)
        ensures
            found == self@.contains_key(command_id@),
    {
        self.tasks.contains(command_id)
    }

    /// The client token of the command's task.
    pub fn get_client_token(&self, command_id: &str) -> (token: Option<String>)
        requires
            self.wf(),
        ensures
            opt_text(token) == token_of(self@, command_id@),
    {
        match self.tasks.get(command_id) {
            Some(task) => Some(task.client_token.clone()),
            None => None,
        }
    }

    /// Forgets the command's task.
    pub fn delete(&mut self, command_id: &str)
        requires
            old(self).wf(),
        ensures
            final(self).wf(),
            final(self)@ == old(self)@.remove(command_id@),
    {
        let _ = self.tasks.remove(command_id);
        assert(self@ =~= old(self)@.remove(command_id@));
    }

    /// Keeps a task, in place of the one with the same command identifier.
    pub fn insrt(&mut self, task: Task)
        requires
            old(self).wf(),
        ensures
            final(self).wf(),
            final(self)@ == old(self)@.insert(task.command_id@, task@),
    {
        self.tasks.insert(task.command_id.clone(), task);
        assert(self@ =~= old(self)@.insert(task.command_id@, task@));
    }

    /// Sets the status of the command's task, where there is one.
    pub fn update(&mut self, command_id: &str, status: &str)
        requires
            old(self).wf(),
        ensures
            final(self).wf(),
            final(self)@ == with_status(old(self)@, command_id@, status@),
    {
        match self.tasks.get_mut(command_id) {
            Some(task) => {
                task.status = status.to_owned();
            },
            None => {},
        }
        assert(self@ =~= with_status(old(self)@, command_id@, status@));
    }

    /// Sets the output of the command's task, where there is one.
    pub fn update_output(&mut self, command_id: &str, output: Vec<u8>)
        requires
            old(self).wf(),
        ensures
            final(self).wf(),
            final(self)@ == with_output(old(self)@, command_id@, output@),
    {
        match self.tasks.get_mut(command_id) {
            Some(task) => {
                task.output = output;
            },
            None => {},
        }
        assert(self@ =~= with_output(old(self)@, command_id@, output@));
    }

    /// The status of the command's task.
    pub fn get_status(&self, command_id: &str) -> (status: Option<String>)
        requires
            self.wf(),
        ensures
            opt_text(status) == status_of(self@, command_id@),
    {
        match self.tasks.get(command_id) {
            Some(task) => Some(task.status.clone()),
            None => None,
        }
    }

    /// The output of the command's task.
    pub fn get_output(&self, command_id: &str) -> (output: Option<Vec<u8>>)
        requires
            self.wf(),
        ensures
            opt_bytes(output) == output_of(self@, command_id@),
    {
        match self.tasks.get(command_id) {
            Some(task) => {
                let output = task.output.clone();
                assert(output@ =~= task.output@);
                Some(output)
            },
            None => None,
        }
    }

    /// Sends one interrupt to the command's task, where there is one, and tells whether
    /// its channel took it. Whether it does rests on the receiving side.
    pub fn send_interrupt(&mut self, command_id: &str) -> (taken: Option<bool>)
        requires
            old(self).wf(),
        ensures
            final(self).wf(),
            final(self)@ == with_sent(old(self)@, command_id@),
            taken is Some <==> old(self)@.contains_key(command_id@),
    {
        let taken = match self.tasks.get_mut(command_id) {
            Some(task) => Some(task.sender.send_unit()),
            None => None,
        };
        assert(self@ =~= with_sent(old(self)@, command_id@));
        taken
    }
}

/// A request that is turned away without an answer of its own.
pub struct Rejected;

/// Why a command was not run, as its client is told.
#[derive(Debug)]
pub struct CommandError {
    pub code: String,
    pub message: String,
}

impl CommandError {
    /// The message alone.
    pub fn description(&self) -> (text: &str)
        ensures
            text@ == self.message@,
    {
        self.message.as_str()
    }

    /// The error as it is shown in a log.
    pub fn to_text(&self) -> (text: String)
        ensures
            text@ == "command error:"@ + self.message@,
    {
        let mut text: String = "command error:".to_owned();
        text.append(self.message.as_str());
        text
    }
}

/// An answer of a code and a message, as a value.
#[verifier::ext_equal]
pub struct ReplyView {
    pub code: Seq<char>,
    pub message: Option<Seq<char>>,
}

impl View for RunCommandResponse {
    type V = ReplyView;

    open spec fn view(&self) -> ReplyView {
        ReplyView { code: self.code@, message: opt_text(self.message) }
    }
}

impl View for StopCommandResponse {
    type V = ReplyView;

    open spec fn view(&self) -> ReplyView {
        ReplyView { code: self.code@, message: opt_text(self.message) }
    }
}

/// The answer to a request to describe a command, as a value.
#[verifier::ext_equal]
pub struct DescribeView {
    pub code: Seq<char>,
    pub message: Option<Seq<char>>,
    pub status: Option<Seq<char>>,
    pub output: Option<Seq<u8>>,
}

impl View for DescribeCommandResponse {
    type V = DescribeView;

    open spec fn view(&self) -> DescribeView {
        DescribeView {
            code: self.code@,
            message: opt_text(self.message),
            status: opt_text(self.status),
            output: opt_bytes(self.output),
        }
    }
}

/// What a request to run a command comes to.
pub enum RunVerdict {
    /// There is no such command yet: it is started.
    Start,
    /// The same client asked before: nothing more is done.
    Repeat,
    /// The identifier belongs to another client's command.
    Mismatch,
}

/// The verdict on a request, by the client token that its identifier has.
pub open spec fn run_verdict(token: Option<Seq<char>>, client_token: Seq<char>) -> RunVerdict {
    match token {
        None => RunVerdict::Start,
        Some(known) => if known == client_token {
            RunVerdict::Repeat
        } else {
            RunVerdict::Mismatch
        },
    }
}

/// The error of a request whose token is not the one of its command.
pub open spec fn is_token_mismatch(error: CommandError) -> bool {
    &&& error.code@ == "Client.InvalidParam"@
    &&& error.message@ == "client token not match with command ID"@
}

/// A task that was just made for a request: it runs, has no output yet, and no interrupt
/// was sent to it.
pub open spec fn is_fresh_task(task: TaskView, request: RunCommandRequest) -> bool {
    &&& task.command_id == request.command_id@
    &&& task.status == "Running"@
    &&& task.output == Seq::<u8>::empty()
    &&& task.client_token == request.client_token@
    &&& task.sent == 0
}

/// Whether a request to run a command starts it, given the client token that its
/// identifier has. A repeated request does not; one with another token is an error.
pub fn admission(request: &RunCommandRequest, token: Option<String>) -> (start: Result<
    bool,
    CommandError,
>)
    ensures
        match run_verdict(opt_text(token), request.client_token@) {
            RunVerdict::Start => start == Ok::<bool, CommandError>(true),
            RunVerdict::Repeat => start == Ok::<bool, CommandError>(false),
            RunVerdict::Mismatch => start matches Err(error) && is_token_mismatch(error),
        },
{
    match token {
        Some(client_token) => {
            if client_token == request.client_token {
                Ok(false)
            } else {
                Err(
                    CommandError {
                        code: "Client.InvalidParam".to_owned(),
                        message: "client token not match with command ID".to_owned(),
                    },
                )
            }
        },
        None => Ok(true),
    }
}

/// A task for a request, and the half of its channel on which an interrupt comes.
pub fn new_task(request: &RunCommandRequest) -> (made: (Task, UnboundedReceiver<()>))
    ensures
        is_fresh_task(made.0@, *request),
        linked(made.0@.sender, made.1),
{
    let (sender, receiver) = interrupt_channel();
    let task = Task {
        command_id: request.command_id.clone(),
        status: "Running".to_owned(),
        output: Vec::new(),
        client_token: request.client_token.clone(),
        sender: InterruptSender::new(sender),
    };
    (task, receiver)
}

/// What a request to run a command did to the tasks.
pub open spec fn run_changes(
    before: Map<Seq<char>, TaskView>,
    after: Map<Seq<char>, TaskView>,
    request: RunCommandRequest,
) -> bool {
    let id = request.command_id@;
    match run_verdict(token_of(before, id), request.client_token@) {
        RunVerdict::Start => {
            &&& after.contains_key(id)
            &&& is_fresh_task(after[id], request)
            &&& after == before.insert(id, after[id])
        },
        _ => after == before,
    }
}

/// Takes a request to run a command: a task is kept for a new identifier, and the
/// caller gets the channel on which the task is interrupted and starts the process.
/// `None` tells that the same client had the command run before.
pub fn run_command(request: &RunCommandRequest, tasks: &mut SafeTaskContainer) -> (started: Result<
    Option<UnboundedReceiver<()>>,
    CommandError,
>)
    requires
        old(tasks).wf(),
    ensures
        final(tasks).wf(),
        run_changes(old(tasks)@, final(tasks)@, *request),
        match run_verdict(token_of(old(tasks)@, request.command_id@), request.client_token@) {
            RunVerdict::Start => started matches Ok(Some(receiver)) && linked(
                final(tasks)@[request.command_id@].sender,
                receiver,
            ),
            RunVerdict::Repeat => started matches Ok(None),
            RunVerdict::Mismatch => started matches Err(error) && is_token_mismatch(error),
        },
{
    let token = tasks.get_client_token(request.command_id.as_str());
    match admission(request, token) {
        Ok(true) => {
            let (task, receiver) = new_task(request);
            tasks.insrt(task);
            Ok(Some(receiver))
        },
        Ok(false) => Ok(None),
        Err(error) => Err(error),
    }
}

/// Why a request to run a command failed.
pub enum RunFailure {
    /// The request itself is at fault.
    Command(CommandError),
    /// The system could not give what the process needs.
    System,
}

/// The answer to a request to run a command. A failure of the system has none.
pub fn run_response(outcome: Result<(), RunFailure>) -> (answer: Result<
    RunCommandResponse,
    Rejected,
>)
    ensures
        match outcome {
            Ok(_) => answer matches Ok(response) && response@ == (ReplyView {
                code: "Success"@,
                message: None,
            }),
            Err(RunFailure::Command(error)) => answer matches Ok(response) && response@ == (
            ReplyView { code: error.code@, message: Some(error.message@) }),
            Err(RunFailure::System) => answer is Err,
        },
{
    match outcome {
        Ok(_) => Ok(RunCommandResponse { code: "Success".to_owned(), message: None }),
        Err(RunFailure::Command(error)) => Ok(
            RunCommandResponse { code: error.code, message: Some(error.message) },
        ),
        Err(RunFailure::System) => Err(Rejected),
    }
}

/// How the process of a command is started.
pub struct LaunchPlan {
    pub program: String,
    pub args: Vec<String>,
    /// Whether the process leads a process group of its own, so that it does not
    /// die with the group of the daemon.
    pub own_group: bool,
    /// How long it may run, in seconds.
    pub timeout_secs: u64,
}

/// The plan for a request: the command goes to the shell as text.
pub fn launch_plan(request: &RunCommandRequest) -> (plan: LaunchPlan)
    ensures
        plan.program@ == "/bin/sh"@,
        plan.args@.len() == 2,
        plan.args@[0]@ == "-c"@,
        plan.args@[1]@ == utf8_lossy(request.command@),
        vstd::utf8::valid_utf8(request.command@) ==> vstd::utf8::encode_utf8(plan.args@[1]@)
            == request.command@,
        plan.own_group == !request.kill_mode,
        plan.timeout_secs == request.timeout,
{
    let text = from_utf8_lossy(&request.command);
    let mut args: Vec<String> = Vec::new();
    args.push("-c".to_owned());
    args.push(text);
    LaunchPlan {
        program: "/bin/sh".to_owned(),
        args: args,
        own_group: !request.kill_mode,
        timeout_secs: request.timeout as u64,
    }
}

/// What ends the wait for the process of a command.
pub enum ChildEvent {
    /// The process could not be started.
    SpawnFailed,
    /// It ran for longer than it may.
    TimedOut,
    /// Its end could not be waited for.
    WaitFailed,
    /// It ended by itself, well or not.
    Exited { success: bool },
    /// An interrupt came.
    Interrupted,
}

/// What is done about the end of a process.
pub struct Reaction {
    /// The process is killed first.
    pub kill: bool,
    /// The statuses that the task gets, one after the other.
    pub updates: Vec<String>,
    /// The status is then looked up and `after_interrupt` decides.
    pub recheck: bool,
}

/// Strings as values.
pub open spec fn texts(strings: Seq<String>) -> Seq<Seq<char>> {
    strings.map_values(|s: String| s@)
}

/// The statuses that a task gets for an event, one after the other. A process that
/// ended badly is first marked as failed and then, as any other that ended by
/// itself, as successful.
pub open spec fn event_updates(event: ChildEvent) -> Seq<Seq<char>> {
    match event {
        ChildEvent::SpawnFailed => seq!["Failed"@],
        ChildEvent::TimedOut => seq!["Failed"@],
        ChildEvent::WaitFailed => seq!["Failed"@],
        ChildEvent::Exited { success } => if success {
            seq!["Success"@]
        } else {
            seq!["Failed"@, "Success"@]
        },
        ChildEvent::Interrupted => Seq::empty(),
    }
}

/// The reaction to an event.
pub fn react(event: &ChildEvent) -> (reaction: Reaction)
    ensures
        reaction.kill == (event is TimedOut || event is Interrupted),
        texts(reaction.updates@) == event_updates(*event),
        reaction.recheck == (event is Interrupted),
{
    let mut updates: Vec<String> = Vec::new();
    let mut kill: bool = false;
    let mut recheck: bool = false;
    match event {
        ChildEvent::SpawnFailed => {
            updates.push("Failed".to_owned());
        },
        ChildEvent::TimedOut => {
            kill = true;
            updates.push("Failed".to_owned());
        },
        ChildEvent::WaitFailed => {
            updates.push("Failed".to_owned());
        },
        ChildEvent::Exited { success } => {
            if !*success {
                updates.push("Failed".to_owned());
            }
            updates.push("Success".to_owned());
        },
        ChildEvent::Interrupted => {
            kill = true;
            recheck = true;
        },
    }
    assert(texts(updates@) =~= event_updates(*event));
    Reaction { kill: kill, updates: updates, recheck: recheck }
}

/// The status that an interrupted task gets, given the one it has: a task that
/// still counts as running has failed, any other keeps its status.
pub fn after_interrupt(status: Option<String>) -> (update: Option<String>)
    ensures
        opt_text(update) == (if opt_text(status) == Some("Running"@) {
            Some("Failed"@)
        } else {
            None
        }),
{
    match status {
        Some(current) => {
            if current == "Running".to_owned() {
                Some("Failed".to_owned())
            } else {
                None
            }
        },
        None => None,
    }
}

/// The tasks after some statuses were set, one after the other.
pub open spec fn with_statuses(
    tasks: Map<Seq<char>, TaskView>,
    id: Seq<char>,
    statuses: Seq<Seq<char>>,
) -> Map<Seq<char>, TaskView>
    decreases statuses.len(),
{
    if statuses.len() == 0 {
        tasks
    } else {
        with_status(with_statuses(tasks, id, statuses.drop_last()), id, statuses.last())
    }
}

/// The tasks after the process of `id` met its end.
pub open spec fn settled(
    tasks: Map<Seq<char>, TaskView>,
    id: Seq<char>,
    event: ChildEvent,
) -> Map<Seq<char>, TaskView> {
    match event {
        ChildEvent::Interrupted => if status_of(tasks, id) == Some("Running"@) {
            with_status(tasks, id, "Failed"@)
        } else {
            tasks
        },
        ChildEvent::Exited { .. } => with_status(tasks, id, "Success"@),
        _ => with_status(tasks, id, "Failed"@),
    }
}

/// The last of the statuses is the one that counts.
proof fn lemma_event_updates(
    tasks: Map<Seq<char>, TaskView>,
    id: Seq<char>,
    event: ChildEvent,
)
    requires
        !(event is Interrupted),
    ensures
        with_statuses(tasks, id, event_updates(event)) == settled(tasks, id, event),
{
    reveal_with_fuel(with_statuses, 3);
    let updates = event_updates(event);
    if updates.len() == 1 {
        assert(updates.drop_last() =~= Seq::empty());
    } else {
        assert(updates.drop_last().drop_last() =~= Seq::empty());
        assert(updates.drop_last().last() == "Failed"@);
    }
    assert(with_statuses(tasks, id, updates) =~= settled(tasks, id, event));
}

/// Records the end of a command's process in its task.
pub fn settle(tasks: &mut SafeTaskContainer, command_id: &str, event: &ChildEvent)
    requires
        old(tasks).wf(),
    ensures
        final(tasks).wf(),
        final(tasks)@ == settled(old(tasks)@, command_id@, *event),
{
    let reaction = react(event);
    let ghost before = tasks@;
    let ghost updates = texts(reaction.updates@);
    let mut i: usize = 0;
    assert(updates.take(0) =~= Seq::empty());
    while i < reaction.updates.len()
        invariant
            i <= reaction.updates@.len(),
            updates == texts(reaction.updates@),
            tasks.wf(),
            tasks@ == with_statuses(before, command_id@, updates.take(i as int)),
        decreases reaction.updates@.len() - i,
    {
        tasks.update(command_id, reaction.updates[i].as_str());
        assert(updates.take(i + 1).drop_last() =~= updates.take(i as int));
        i = i + 1;
    }
    assert(updates.take(i as int) =~= updates);
    proof {
        if !(event is Interrupted) {
            lemma_event_updates(before, command_id@, *event);
        }
    }
    if reaction.recheck {
        let status = tasks.get_status(command_id);
        match after_interrupt(status) {
            Some(update) => tasks.update(command_id, update.as_str()),
            None => {},
        }
    }
}

/// An answer about a command, and whether its task is to be forgotten after
/// `CLEANUP_DELAY_SECS`.
pub struct DescribeReply {
    pub response: DescribeCommandResponse,
    pub cleanup: bool,
}

/// What a request to describe a command comes to.
#[verifier::ext_equal]
pub struct DescribeReplyView {
    pub response: DescribeView,
    pub cleanup: bool,
}

impl View for DescribeReply {
    type V = DescribeReplyView;

    open spec fn view(&self) -> DescribeReplyView {
        DescribeReplyView { response: self.response@, cleanup: self.cleanup }
    }
}

/// The answer to a request to describe a command, by what the lookups gave: whether
/// there was a task, its status, and its output. `None` stands for a request that is
/// rejected because the task was gone between the lookups.
pub open spec fn describe_outcome(
    wants_output: bool,
    existed: bool,
    status: Option<Seq<char>>,
    output: Option<Seq<u8>>,
) -> Option<DescribeReplyView> {
    if !existed {
        Some(
            DescribeReplyView {
                response: DescribeView {
                    code: "Client.InvalidParam"@,
                    message: Some("the specified command doesn't exist"@),
                    status: None,
                    output: None,
                },
                cleanup: false,
            },
        )
    } else {
        match status {
            None => None,
            Some(current) => Some(
                DescribeReplyView {
                    response: DescribeView {
                        code: "Success"@,
                        message: None,
                        status: Some(current),
                        output: if wants_output && current != "Running"@ {
                            output
                        } else {
                            None
                        },
                    },
                    cleanup: current != "Running"@,
                },
            ),
        }
    }
}

/// Answers a request to describe a command from what the lookups gave. The task
/// may have changed or gone from one lookup to the next.
pub fn describe_reply(
    request: &DescribeCommandRequest,
    existed: bool,
    status: Option<String>,
    output: Option<Vec<u8>>,
) -> (reply: Result<DescribeReply, Rejected>)
    ensures
        match describe_outcome(request.output, existed, opt_text(status), opt_bytes(output)) {
            Some(outcome) => reply matches Ok(r) && r@ == outcome,
            None => reply is Err,
        },
{
    if !existed {
        return Ok(
            DescribeReply {
                response: DescribeCommandResponse {
                    code: "Client.InvalidParam".to_owned(),
                    message: Some("the specified command doesn't exist".to_owned()),
                    status: None,
                    output: None,
                },
                cleanup: false,
            },
        );
    }
    match status {
        Some(current) => {
            if current == "Running".to_owned() {
                Ok(
                    DescribeReply {
                        response: DescribeCommandResponse {
                            code: "Success".to_owned(),
                            message: None,
                            status: Some("Running".to_owned()),
                            output: None,
                        },
                        cleanup: false,
                    },
                )
            } else {
                let shown = if request.output {
                    output
                } else {
                    None
                };
                Ok(
                    DescribeReply {
                        response: DescribeCommandResponse {
                            code: "Success".to_owned(),
                            message: None,
                            status: Some(current),
                            output: shown,
                        },
                        cleanup: true,
                    },
                )
            }
        },
        None => Err(Rejected),
    }
}

/// The answer to a request to describe a command while nothing else changes the
/// tasks.
pub open spec fn described(
    tasks: Map<Seq<char>, TaskView>,
    id: Seq<char>,
    wants_output: bool,
) -> Option<DescribeReplyView> {
    describe_outcome(wants_output, tasks.contains_key(id), status_of(tasks, id), output_of(tasks, id))
}

/// Describes a command while nothing else changes the tasks.
pub fn describe_command(request: &DescribeCommandRequest, tasks: &SafeTaskContainer) -> (reply:
    Result<DescribeReply, Rejected>)
    requires
        tasks.wf(),
    ensures
        reply matches Ok(r) && Some(r@) == described(tasks@, request.command_id@, request.output),
{
    let id = request.command_id.as_str();
    let existed = tasks.exist(id);
    let status = tasks.get_status(id);
    let output = tasks.get_output(id);
    describe_reply(request, existed, status, output)
}

/// An answer to a request to stop a command, and what is done besides.
pub struct StopReply {
    pub response: StopCommandResponse,
    /// The task is to be forgotten after `CLEANUP_DELAY_SECS`.
    pub cleanup: bool,
    /// The task is marked with this status and interrupted.
    pub interrupt: Option<String>,
}

/// What a request to stop a command comes to.
#[verifier::ext_equal]
pub struct StopReplyView {
    pub response: ReplyView,
    pub cleanup: bool,
    pub interrupt: Option<Seq<char>>,
}

impl View for StopReply {
    type V = StopReplyView;

    open spec fn view(&self) -> StopReplyView {
        StopReplyView {
            response: self.response@,
            cleanup: self.cleanup,
            interrupt: opt_text(self.interrupt),
        }
    }
}

/// The answer to a request to stop a command, by what the lookups gave: whether
/// there was a task, and its status. `None` stands for a request that is rejected
/// because the task was gone between the lookups.
pub open spec fn stop_outcome(existed: bool, status: Option<Seq<char>>) -> Option<StopReplyView> {
    if !existed {
        Some(
            StopReplyView {
                response: ReplyView {
                    code: "Client.InvalidParam"@,
                    message: Some("the specified command doesn't exist"@),
                },
                cleanup: false,
                interrupt: None,
            },
        )
    } else {
        match status {
            None => None,
            Some(current) => Some(
                StopReplyView {
                    response: ReplyView {
                        code: "Success"@,
                        message: if current == "Running"@ {
                            None
                        } else {
                            Some("the specified command has exited"@)
                        },
                    },
                    cleanup: true,
                    interrupt: if current == "Running"@ {
                        Some("Interrupt"@)
                    } else {
                        None
                    },
                },
            ),
        }
    }
}

/// Answers a request to stop a command from what the lookups gave. The task may
/// have changed or gone from one lookup to the next.
pub fn stop_reply(existed: bool, status: Option<String>) -> (reply: Result<StopReply, Rejected>)
    ensures
        match stop_outcome(existed, opt_text(status)) {
            Some(outcome) => reply matches Ok(r) && r@ == outcome,
            None => reply is Err,
        },
{
    if !existed {
        return Ok(
            StopReply {
                response: StopCommandResponse {
                    code: "Client.InvalidParam".to_owned(),
                    message: Some("the specified command doesn't exist".to_owned()),
                },
                cleanup: false,
                interrupt: None,
            },
        );
    }
    match status {
        Some(current) => {
            if current == "Running".to_owned() {
                Ok(
                    StopReply {
                        response: StopCommandResponse { code: "Success".to_owned(), message: None },
                        cleanup: true,
                        interrupt: Some("Interrupt".to_owned()),
                    },
                )
            } else {
                Ok(
                    StopReply {
                        response: StopCommandResponse {
                            code: "Success".to_owned(),
                            message: Some("the specified command has exited".to_owned()),
                        },
                        cleanup: true,
                        interrupt: None,
                    },
                )
            }
        },
        None => Err(Rejected),
    }
}

/// The tasks after a request to stop a command: one that runs is marked, and one
/// interrupt is sent to it.
pub open spec fn stopped(tasks: Map<Seq<char>, TaskView>, id: Seq<char>) -> Map<
    Seq<char>,
    TaskView,
> {
    if status_of(tasks, id) == Some("Running"@) {
        with_sent(with_status(tasks, id, "Interrupt"@), id)
    } else {
        tasks
    }
}

/// Stops a command while nothing else changes the tasks: a running one is marked as
/// interrupted and one interrupt is sent to it.
pub fn stop_command(request: &StopCommandRequest, tasks: &mut SafeTaskContainer) -> (reply: Result<
    StopReply,
    Rejected,
>)
    requires
        old(tasks).wf(),
    ensures
        final(tasks).wf(),
        final(tasks)@ == stopped(old(tasks)@, request.command_id@),
        reply matches Ok(r) && Some(r@) == stop_outcome(
            old(tasks)@.contains_key(request.command_id@),
            status_of(old(tasks)@, request.command_id@),
        ),
{
    let id = request.command_id.as_str();
    let existed = tasks.exist(id);
    let status = tasks.get_status(id);
    let reply = stop_reply(existed, status);
    if let Ok(stop) = &reply {
        if let Some(mark) = &stop.interrupt {
            tasks.update(id, mark.as_str());
            let _ = tasks.send_interrupt(id);
        }
    }
    reply
}

} // verus!
