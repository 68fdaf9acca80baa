use opsd::command::{
    admission, after_interrupt, describe_command, describe_reply, launch_plan, new_task, react,
    run_command, run_response, settle, stop_command, stop_reply, ChildEvent, CommandError,
    DescribeCommandRequest, RunCommandRequest, RunFailure, SafeTaskContainer, StopCommandRequest,
    Task, BODY_LIMIT, CLEANUP_DELAY_SECS,
};
use opsd::interrupt::InterruptSender;

fn run_request(id: &str, token: &str) -> RunCommandRequest {
    RunCommandRequest {
        command_id: id.to_string(),
        command: b"echo hello".to_vec(),
        timeout: 60,
        kill_mode: false,
        client_token: token.to_string(),
    }
}

fn describe_request(id: &str, output: bool) -> DescribeCommandRequest {
    DescribeCommandRequest { command_id: id.to_string(), output }
}

fn stop_request(id: &str) -> StopCommandRequest {
    StopCommandRequest { command_id: id.to_string() }
}

fn with_running(id: &str) -> SafeTaskContainer {
    let mut tasks = SafeTaskContainer::new();
    assert!(matches!(run_command(&run_request(id, "token"), &mut tasks), Ok(Some(_))));
    tasks
}

fn status(tasks: &SafeTaskContainer, id: &str) -> Option<String> {
    tasks.get_status(id)
}

#[test]
fn a_new_container_is_empty() {
    let tasks = SafeTaskContainer::new();
    assert!(!tasks.exist("a"));
    assert_eq!(tasks.get_status("a"), None);
    assert_eq!(tasks.get_output("a"), None);
    assert_eq!(tasks.get_client_token("a"), None);
}

#[test]
fn container_keeps_what_it_is_told() {
    let mut tasks = SafeTaskContainer::new();
    let (task, _receiver) = new_task(&run_request("a", "ta"));
    tasks.insrt(task);
    let (task, _receiver) = new_task(&run_request("b", "tb"));
    tasks.insrt(task);
    assert!(tasks.exist("a"));
    assert_eq!(tasks.get_client_token("b").as_deref(), Some("tb"));
    tasks.update("a", "Success");
    tasks.update_output("a", vec![1, 2, 3]);
    assert_eq!(tasks.get_status("a").as_deref(), Some("Success"));
    assert_eq!(tasks.get_output("a"), Some(vec![1, 2, 3]));
    assert_eq!(tasks.get_status("b").as_deref(), Some("Running"));
    assert_eq!(tasks.get_output("b"), Some(vec![]));
    tasks.delete("a");
    assert!(!tasks.exist("a"));
    assert!(tasks.exist("b"));
    tasks.update("a", "Success");
    tasks.update_output("a", vec![9]);
    assert!(!tasks.exist("a"));
}

#[test]
fn inserting_replaces_the_task_with_the_same_id() {
    let mut tasks = with_running("a");
    tasks.update("a", "Failed");
    let (task, _receiver) = new_task(&run_request("a", "other"));
    tasks.insrt(task);
    assert_eq!(tasks.get_status("a").as_deref(), Some("Running"));
    assert_eq!(tasks.get_client_token("a").as_deref(), Some("other"));
    tasks.delete("a");
    assert!(!tasks.exist("a"));
}

#[test]
fn a_repeated_run_is_accepted_and_does_nothing() {
    let mut tasks = with_running("a");
    tasks.update_output("a", vec![7]);
    assert!(matches!(run_command(&run_request("a", "token"), &mut tasks), Ok(None)));
    assert_eq!(tasks.get_output("a"), Some(vec![7]));
}

#[test]
fn a_run_with_another_token_is_an_error() {
    let mut tasks = with_running("a");
    match run_command(&run_request("a", "stranger"), &mut tasks) {
        Err(error) => {
            assert_eq!(error.code, "Client.InvalidParam");
            assert_eq!(error.message, "client token not match with command ID");
            assert_eq!(error.description(), "client token not match with command ID");
            assert_eq!(
                error.to_text(),
                "command error:client token not match with command ID"
            );
        }
        Ok(_) => panic!("the request has to be refused"),
    }
    assert_eq!(tasks.get_client_token("a").as_deref(), Some("token"));
}

#[test]
fn admission_goes_by_the_token() {
    let request = run_request("a", "token");
    assert!(matches!(admission(&request, None), Ok(true)));
    assert!(matches!(admission(&request, Some("token".to_string())), Ok(false)));
    assert!(admission(&request, Some("".to_string())).is_err());
}

#[test]
fn run_responses() {
    let response = run_response(Ok(())).ok().unwrap();
    assert_eq!(response.code, "Success");
    assert_eq!(response.message, None);
    let error = CommandError { code: "C".to_string(), message: "m".to_string() };
    let response = run_response(Err(RunFailure::Command(error))).ok().unwrap();
    assert_eq!(response.code, "C");
    assert_eq!(response.message.as_deref(), Some("m"));
    assert!(run_response(Err(RunFailure::System)).is_err());
}

#[test]
fn the_launch_plan_hands_the_command_to_the_shell() {
    let plan = launch_plan(&run_request("a", "t"));
    assert_eq!(plan.program, "/bin/sh");
    assert_eq!(plan.args, vec!["-c".to_string(), "echo hello".to_string()]);
    assert!(plan.own_group);
    assert_eq!(plan.timeout_secs, 60);
    let mut request = run_request("a", "t");
    request.kill_mode = true;
    request.timeout = u32::MAX;
    request.command = vec![b'a', 0xff, b'b'];
    let plan = launch_plan(&request);
    assert!(!plan.own_group);
    assert_eq!(plan.timeout_secs, 4294967295);
    assert_eq!(plan.args[1], "a\u{fffd}b");
}

#[test]
fn a_started_command_is_described_as_running() {
    let mut tasks = with_running("a");
    tasks.update_output("a", vec![1]);
    for output in [false, true] {
        let reply = describe_command(&describe_request("a", output), &tasks).ok().unwrap();
        assert_eq!(reply.response.code, "Success");
        assert_eq!(reply.response.message, None);
        assert_eq!(reply.response.status.as_deref(), Some("Running"));
        assert_eq!(reply.response.output, None);
        assert!(!reply.cleanup);
    }
}

#[test]
fn a_finished_command_is_described_with_its_output() {
    let mut tasks = with_running("a");
    tasks.update_output("a", b"out".to_vec());
    settle(&mut tasks, "a", &ChildEvent::Exited { success: true });
    let reply = describe_command(&describe_request("a", true), &tasks).ok().unwrap();
    assert_eq!(reply.response.code, "Success");
    assert_eq!(reply.response.status.as_deref(), Some("Success"));
    assert_eq!(reply.response.output, Some(b"out".to_vec()));
    assert!(reply.cleanup);
    let reply = describe_command(&describe_request("a", false), &tasks).ok().unwrap();
    assert_eq!(reply.response.output, None);
    assert!(reply.cleanup);
}

#[test]
fn an_unknown_command_is_not_described() {
    let tasks = with_running("a");
    let reply = describe_command(&describe_request("b", true), &tasks).ok().unwrap();
    assert_eq!(reply.response.code, "Client.InvalidParam");
    assert_eq!(
        reply.response.message.as_deref(),
        Some("the specified command doesn't exist")
    );
    assert_eq!(reply.response.status, None);
    assert_eq!(reply.response.output, None);
    assert!(!reply.cleanup);
}

#[test]
fn a_task_that_goes_between_the_lookups() {
    let request = describe_request("a", true);
    assert!(describe_reply(&request, true, None, None).is_err());
    let reply = describe_reply(&request, true, Some("Failed".to_string()), None).ok().unwrap();
    assert_eq!(reply.response.status.as_deref(), Some("Failed"));
    assert_eq!(reply.response.output, None);
    assert!(stop_reply(true, None).is_err());
}

#[test]
fn stopping_a_running_command_interrupts_it() {
    let mut tasks = SafeTaskContainer::new();
    let mut receiver = run_command(&run_request("a", "t"), &mut tasks).ok().unwrap().unwrap();
    assert!(receiver.try_recv().is_err());
    let reply = stop_command(&stop_request("a"), &mut tasks).ok().unwrap();
    assert_eq!(reply.response.code, "Success");
    assert_eq!(reply.response.message, None);
    assert!(reply.cleanup);
    assert_eq!(reply.interrupt.as_deref(), Some("Interrupt"));
    assert_eq!(receiver.try_recv(), Ok(()));
    assert!(receiver.try_recv().is_err());
    assert_eq!(status(&tasks, "a").as_deref(), Some("Interrupt"));
    settle(&mut tasks, "a", &ChildEvent::Interrupted);
    assert_eq!(status(&tasks, "a").as_deref(), Some("Interrupt"));
    let reply = describe_command(&describe_request("a", true), &tasks).ok().unwrap();
    assert_eq!(reply.response.status.as_deref(), Some("Interrupt"));
}

#[test]
fn stopping_again_tells_that_the_command_has_exited() {
    let mut tasks = SafeTaskContainer::new();
    let mut receiver = run_command(&run_request("a", "t"), &mut tasks).ok().unwrap().unwrap();
    assert!(stop_command(&stop_request("a"), &mut tasks).is_ok());
    assert_eq!(receiver.try_recv(), Ok(()));
    let reply = stop_command(&stop_request("a"), &mut tasks).ok().unwrap();
    assert_eq!(reply.response.code, "Success");
    assert_eq!(reply.response.message.as_deref(), Some("the specified command has exited"));
    assert!(reply.cleanup);
    assert_eq!(reply.interrupt, None);
    assert!(receiver.try_recv().is_err());
    assert_eq!(status(&tasks, "a").as_deref(), Some("Interrupt"));
}

#[test]
fn stopping_an_unknown_command() {
    let mut tasks = with_running("a");
    let reply = stop_command(&stop_request("b"), &mut tasks).ok().unwrap();
    assert_eq!(reply.response.code, "Client.InvalidParam");
    assert_eq!(
        reply.response.message.as_deref(),
        Some("the specified command doesn't exist")
    );
    assert!(!reply.cleanup);
    assert_eq!(reply.interrupt, None);
    assert_eq!(status(&tasks, "a").as_deref(), Some("Running"));
}

#[test]
fn interrupts_reach_the_receiver_while_it_stands() {
    let mut tasks = SafeTaskContainer::new();
    let mut receiver = run_command(&run_request("a", "t"), &mut tasks).ok().unwrap().unwrap();
    assert_eq!(tasks.send_interrupt("b"), None);
    assert_eq!(tasks.send_interrupt("a"), Some(true));
    assert_eq!(receiver.try_recv(), Ok(()));
    drop(receiver);
    assert_eq!(tasks.send_interrupt("a"), Some(false));
}

#[test]
fn a_task_is_interrupted_through_the_sender_it_was_given() {
    let (half, mut receiver) = tokio::sync::mpsc::unbounded_channel();
    let mut tasks = with_running("b");
    tasks.insrt(Task {
        command_id: "a".to_string(),
        status: "Running".to_string(),
        output: vec![],
        client_token: "A".to_string(),
        sender: InterruptSender::new(half),
    });
    assert!(receiver.try_recv().is_err());
    assert!(stop_command(&stop_request("b"), &mut tasks).is_ok());
    assert!(receiver.try_recv().is_err());
    let reply = stop_command(&stop_request("a"), &mut tasks).ok().unwrap();
    assert_eq!(reply.response.code, "Success");
    assert_eq!(reply.response.message, None);
    assert_eq!(status(&tasks, "a").as_deref(), Some("Interrupt"));
    assert_eq!(tasks.get_output("a"), Some(vec![]));
    assert_eq!(tasks.get_client_token("a").as_deref(), Some("A"));
    assert_eq!(receiver.try_recv(), Ok(()));
    assert!(receiver.try_recv().is_err());
}

#[test]
fn a_command_that_has_exited_is_sent_no_interrupt() {
    let mut tasks = SafeTaskContainer::new();
    let mut receiver = run_command(&run_request("a", "t"), &mut tasks).ok().unwrap().unwrap();
    settle(&mut tasks, "a", &ChildEvent::Exited { success: true });
    let reply = stop_command(&stop_request("a"), &mut tasks).ok().unwrap();
    assert_eq!(reply.response.message.as_deref(), Some("the specified command has exited"));
    assert!(receiver.try_recv().is_err());
    assert_eq!(status(&tasks, "a").as_deref(), Some("Success"));
}

#[test]
fn the_channel_stays_whatever_else_happens() {
    let mut tasks = SafeTaskContainer::new();
    let mut receiver = run_command(&run_request("a", "t"), &mut tasks).ok().unwrap().unwrap();
    let mut other = run_command(&run_request("b", "t"), &mut tasks).ok().unwrap().unwrap();
    tasks.update_output("a", vec![1]);
    assert!(matches!(run_command(&run_request("a", "t"), &mut tasks), Ok(None)));
    tasks.delete("b");
    assert!(stop_command(&stop_request("a"), &mut tasks).is_ok());
    assert_eq!(receiver.try_recv(), Ok(()));
    assert!(other.try_recv().is_err());
}

#[test]
fn the_status_is_the_one_last_named() {
    let mut tasks = SafeTaskContainer::new();
    tasks.update("a", "Success");
    assert_eq!(tasks.get_status("a"), None);
    let (task, _receiver) = new_task(&run_request("a", "t"));
    tasks.insrt(task);
    tasks.update("a", "Failed");
    tasks.update("b", "Success");
    tasks.update_output("a", vec![1]);
    assert_eq!(tasks.send_interrupt("a"), Some(true));
    assert_eq!(tasks.get_status("a").as_deref(), Some("Failed"));
    tasks.delete("a");
    tasks.update("a", "Success");
    assert_eq!(tasks.get_status("a"), None);
    let (task, _receiver) = new_task(&run_request("a", "t"));
    tasks.insrt(task);
    assert_eq!(tasks.get_status("a").as_deref(), Some("Running"));
}

#[test]
fn the_end_of_a_process_is_recorded() {
    let ends = [
        (ChildEvent::SpawnFailed, "Failed"),
        (ChildEvent::TimedOut, "Failed"),
        (ChildEvent::WaitFailed, "Failed"),
        (ChildEvent::Exited { success: true }, "Success"),
        (ChildEvent::Exited { success: false }, "Success"),
        (ChildEvent::Interrupted, "Failed"),
    ];
    for (event, expected) in ends {
        let mut tasks = with_running("a");
        settle(&mut tasks, "a", &event);
        assert_eq!(status(&tasks, "a").as_deref(), Some(expected));
        settle(&mut tasks, "b", &event);
        assert!(!tasks.exist("b"));
    }
}

#[test]
fn reactions_to_events() {
    let failed = react(&ChildEvent::SpawnFailed);
    assert!(!failed.kill && !failed.recheck);
    assert_eq!(failed.updates, vec!["Failed".to_string()]);
    let late = react(&ChildEvent::TimedOut);
    assert!(late.kill && !late.recheck);
    assert_eq!(late.updates, vec!["Failed".to_string()]);
    let lost = react(&ChildEvent::WaitFailed);
    assert!(!lost.kill && !lost.recheck);
    assert_eq!(lost.updates, vec!["Failed".to_string()]);
    let well = react(&ChildEvent::Exited { success: true });
    assert!(!well.kill && !well.recheck);
    assert_eq!(well.updates, vec!["Success".to_string()]);
    let badly = react(&ChildEvent::Exited { success: false });
    assert_eq!(badly.updates, vec!["Failed".to_string(), "Success".to_string()]);
    let interrupted = react(&ChildEvent::Interrupted);
    assert!(interrupted.kill && interrupted.recheck);
    assert!(interrupted.updates.is_empty());
}

#[test]
fn an_interrupt_fails_only_a_running_task() {
    assert_eq!(after_interrupt(Some("Running".to_string())).as_deref(), Some("Failed"));
    assert_eq!(after_interrupt(Some("Interrupt".to_string())), None);
    assert_eq!(after_interrupt(Some("Success".to_string())), None);
    assert_eq!(after_interrupt(None), None);
}

#[test]
fn a_finished_command_never_runs_again_until_it_is_forgotten() {
    let mut tasks = with_running("a");
    settle(&mut tasks, "a", &ChildEvent::TimedOut);
    assert!(matches!(run_command(&run_request("a", "token"), &mut tasks), Ok(None)));
    assert!(run_command(&run_request("a", "else"), &mut tasks).is_err());
    assert!(stop_command(&stop_request("a"), &mut tasks).is_ok());
    tasks.update_output("a", vec![4]);
    settle(&mut tasks, "a", &ChildEvent::Interrupted);
    assert_eq!(status(&tasks, "a").as_deref(), Some("Failed"));
    assert_eq!(tasks.get_output("a"), Some(vec![4]));
    tasks.delete("a");
    assert!(matches!(run_command(&run_request("a", "else"), &mut tasks), Ok(Some(_))));
    assert_eq!(status(&tasks, "a").as_deref(), Some("Running"));
}

#[test]
fn events_leave_other_commands_alone() {
    let mut tasks = with_running("a");
    assert!(matches!(run_command(&run_request("b", "tb"), &mut tasks), Ok(Some(_))));
    tasks.update_output("a", vec![1]);
    assert!(stop_command(&stop_request("b"), &mut tasks).is_ok());
    settle(&mut tasks, "b", &ChildEvent::Exited { success: true });
    tasks.delete("b");
    assert_eq!(status(&tasks, "a").as_deref(), Some("Running"));
    assert_eq!(tasks.get_output("a"), Some(vec![1]));
    assert_eq!(tasks.get_client_token("a").as_deref(), Some("token"));
}

#[test]
fn output_and_end_come_in_any_order() {
    let mut first = with_running("a");
    first.update_output("a", vec![5, 6]);
    settle(&mut first, "a", &ChildEvent::Exited { success: true });
    let mut second = with_running("a");
    settle(&mut second, "a", &ChildEvent::Exited { success: true });
    second.update_output("a", vec![5, 6]);
    for tasks in [first, second] {
        let reply = describe_command(&describe_request("a", true), &tasks).ok().unwrap();
        assert_eq!(reply.response.status.as_deref(), Some("Success"));
        assert_eq!(reply.response.output, Some(vec![5, 6]));
    }
}

#[test]
fn limits() {
    assert_eq!(CLEANUP_DELAY_SECS, 1800);
    assert_eq!(BODY_LIMIT, 1024 * 16);
}

#[test]
fn an_identifier_is_started_once_until_it_is_forgotten() {
    let mut tasks = SafeTaskContainer::new();
    assert!(matches!(run_command(&run_request("a", "t"), &mut tasks), Ok(Some(_))));
    assert!(matches!(run_command(&run_request("b", "u"), &mut tasks), Ok(Some(_))));
    assert!(stop_command(&stop_request("a"), &mut tasks).is_ok());
    tasks.update_output("a", vec![1]);
    tasks.delete("b");
    settle(&mut tasks, "a", &ChildEvent::Interrupted);
    assert!(matches!(run_command(&run_request("a", "t"), &mut tasks), Ok(None)));
    assert!(run_command(&run_request("a", "u"), &mut tasks).is_err());
    assert!(matches!(run_command(&run_request("a", "t"), &mut tasks), Ok(None)));
    assert_eq!(tasks.get_client_token("a").as_deref(), Some("t"));
    assert_eq!(status(&tasks, "a").as_deref(), Some("Interrupt"));
    tasks.delete("a");
    assert!(matches!(run_command(&run_request("a", "u"), &mut tasks), Ok(Some(_))));
}

#[test]
fn the_output_is_the_one_last_named() {
    let mut tasks = SafeTaskContainer::new();
    tasks.update_output("a", vec![9]);
    assert_eq!(tasks.get_output("a"), None);
    let (task, _receiver) = new_task(&run_request("a", "t"));
    tasks.insrt(task);
    tasks.update_output("a", vec![1]);
    tasks.update_output("a", vec![2, 3]);
    tasks.update_output("b", vec![4]);
    tasks.update("a", "Failed");
    assert_eq!(tasks.send_interrupt("a"), Some(true));
    assert_eq!(tasks.get_output("a"), Some(vec![2, 3]));
}
