use gdbr::channel::{Channel, ReceiveFailure};
use gdbr::gdb::{Gdb, InputStep};
use gdbr::session::{ExitPoll, Pending, Phase, ShutdownAction, ShutdownReport};
use gdbr::wire::frame_command;

/// Carries a shutdown through as the program around the session does, with
/// `polled` as the answer to every look at the child, and returns the
/// actions that were asked for.
fn run_shutdown(gdb: &mut Gdb, polled: ExitPoll) -> Vec<ShutdownAction> {
    let mut actions = Vec::new();
    let mut action = gdb.shutdown(ShutdownReport::Requested);
    while action != ShutdownAction::Done {
        actions.push(action);
        assert!(actions.len() <= 5);
        let report = match action {
            ShutdownAction::Sleep(_) => ShutdownReport::Slept,
            ShutdownAction::PollExit => ShutdownReport::Polled(polled),
            ShutdownAction::Kill => ShutdownReport::Killed,
            ShutdownAction::Reap => ShutdownReport::Reaped,
            ShutdownAction::Done => unreachable!(),
        };
        action = gdb.shutdown(report);
    }
    actions
}

/// Plays the input pump until it waits or stops, and returns what it wrote.
fn pump_input(gdb: &mut Gdb) -> (String, InputStep) {
    let mut written = String::new();
    loop {
        match gdb.next_input() {
            InputStep::Write(text) => {
                written.push_str(&text);
                assert!(gdb.input_written(true));
            }
            last => return (written, last),
        }
    }
}

#[test]
fn commands_are_written_in_submission_order() {
    let mut gdb = Gdb::new(4242);
    assert!(gdb.send_command("break main".to_string()).is_ok());
    assert!(gdb.send_command("run".to_string()).is_ok());
    assert!(gdb.send_command("next".to_string()).is_ok());
    assert_eq!(gdb.next_input(), InputStep::Write("break main\n".to_string()));
    assert!(gdb.input_written(true));
    assert_eq!(gdb.next_input(), InputStep::Write("run\n".to_string()));
    assert!(gdb.input_written(true));
    assert_eq!(gdb.next_input(), InputStep::Write("next\n".to_string()));
    assert!(gdb.input_written(true));
    assert_eq!(gdb.next_input(), InputStep::Idle);
}

#[test]
fn commands_are_neither_merged_nor_split_on_the_wire() {
    let mut gdb = Gdb::new(1);
    for command in ["a", "", "b c", "d"] {
        assert!(gdb.send_command(command.to_string()).is_ok());
    }
    let (written, last) = pump_input(&mut gdb);
    assert_eq!(written, "a\n\nb c\nd\n");
    assert_eq!(last, InputStep::Idle);
}

#[test]
fn frame_command_appends_one_line_break() {
    assert_eq!(frame_command("info registers"), "info registers\n");
    assert_eq!(frame_command(""), "\n");
    assert_eq!(frame_command("p \"é\""), "p \"é\"\n");
}

#[test]
fn output_lines_are_taken_in_order_and_once() {
    let mut gdb = Gdb::new(4242);
    assert!(gdb.output_read(b"first\nsec"));
    assert!(gdb.output_read(b"ond\r\nthird\n"));
    assert_eq!(gdb.try_receive_output(), Some("first".to_string()));
    assert_eq!(gdb.try_receive_output(), Some("second".to_string()));
    assert_eq!(gdb.try_receive_output(), Some("third".to_string()));
    assert_eq!(gdb.try_receive_output(), None);
    assert_eq!(gdb.receive_output(), Err(ReceiveFailure::Empty));
}

#[test]
fn none_means_empty_for_now_and_more_lines_may_follow() {
    let mut gdb = Gdb::new(7);
    assert_eq!(gdb.try_receive_output(), None);
    assert!(gdb.output_read(b"late\n"));
    assert_eq!(gdb.try_receive_output(), Some("late".to_string()));
    assert_eq!(gdb.try_receive_output(), None);
}

#[test]
fn chunking_of_the_output_makes_no_difference() {
    let stream = "alpha\nbeta gamma\n\ndelta\n".as_bytes();
    let mut whole = Gdb::new(1);
    assert!(whole.output_read(stream));
    let mut expected = Vec::new();
    while let Some(line) = whole.try_receive_output() {
        expected.push(line);
    }
    assert_eq!(expected, vec!["alpha", "beta gamma", "", "delta"]);
    for cut in 0..=stream.len() {
        let mut pieces = Gdb::new(1);
        assert!(pieces.output_read(&stream[..cut]));
        assert!(pieces.output_read(&stream[cut..]));
        let mut lines = Vec::new();
        while let Some(line) = pieces.try_receive_output() {
            lines.push(line);
        }
        assert_eq!(lines, expected);
    }
    let mut bytewise = Gdb::new(1);
    for byte in stream {
        assert!(bytewise.output_read(&[*byte]));
    }
    let mut lines = Vec::new();
    while let Some(line) = bytewise.try_receive_output() {
        lines.push(line);
    }
    assert_eq!(lines, expected);
}

#[test]
fn last_line_without_line_break_is_delivered_at_the_end() {
    let mut gdb = Gdb::new(9);
    assert!(gdb.output_read(b"one\ntwo"));
    assert_eq!(gdb.try_receive_output(), Some("one".to_string()));
    assert_eq!(gdb.try_receive_output(), None);
    gdb.output_ended();
    assert_eq!(gdb.receive_output(), Ok("two".to_string()));
    assert_eq!(gdb.receive_output(), Err(ReceiveFailure::Disconnected));
    assert_eq!(gdb.try_receive_output(), None);
}

#[test]
fn carriage_return_is_dropped_only_before_a_line_feed() {
    let mut gdb = Gdb::new(9);
    assert!(gdb.output_read(b"a\r\nb\rc\nd\r"));
    gdb.output_ended();
    assert_eq!(gdb.try_receive_output(), Some("a".to_string()));
    assert_eq!(gdb.try_receive_output(), Some("b\rc".to_string()));
    assert_eq!(gdb.try_receive_output(), Some("d\r".to_string()));
    assert_eq!(gdb.try_receive_output(), None);
}

#[test]
fn output_in_utf8_is_decoded() {
    let mut gdb = Gdb::new(9);
    assert!(gdb.output_read("größe = 3 €\n".as_bytes()));
    assert_eq!(gdb.try_receive_output(), Some("größe = 3 €".to_string()));
}

#[test]
fn a_line_that_is_not_utf8_ends_the_output_pump() {
    let mut gdb = Gdb::new(9);
    assert!(gdb.output_read(b"good\n"));
    assert!(!gdb.output_read(&[0xff, 0xfe, b'\n', b'x', b'\n']));
    assert!(!gdb.output_read(b"never\n"));
    assert_eq!(gdb.receive_output(), Ok("good".to_string()));
    assert_eq!(gdb.receive_output(), Err(ReceiveFailure::Disconnected));
}

#[test]
fn a_read_failure_ends_the_output_pump_and_loses_the_partial_line() {
    let mut gdb = Gdb::new(9);
    assert!(gdb.output_read(b"whole\npart"));
    gdb.output_failed();
    gdb.output_ended();
    assert_eq!(gdb.receive_output(), Ok("whole".to_string()));
    assert_eq!(gdb.receive_output(), Err(ReceiveFailure::Disconnected));
}

#[test]
fn round_trip_through_an_echoing_child() {
    let mut gdb = Gdb::new(31337);
    assert!(gdb.send_command("ping".to_string()).is_ok());
    let (stdin, last) = pump_input(&mut gdb);
    assert_eq!(last, InputStep::Idle);
    let mut stdout = String::new();
    for line in stdin.lines() {
        stdout.push_str("ECHO: ");
        stdout.push_str(line);
        stdout.push('\n');
    }
    assert!(gdb.output_read(stdout.as_bytes()));
    assert_eq!(gdb.try_receive_output(), Some("ECHO: ping".to_string()));
    assert_eq!(gdb.try_receive_output(), None);
}

#[test]
fn child_that_exits_after_one_line() {
    let mut gdb = Gdb::new(31337);
    assert!(gdb.is_running(ExitPoll::Running));
    assert!(gdb.output_read(b"goodbye\n"));
    gdb.output_ended();
    assert!(!gdb.is_running(ExitPoll::Exited));
    assert!(!gdb.is_running(ExitPoll::Running));
    assert_eq!(gdb.try_receive_output(), Some("goodbye".to_string()));
    assert_eq!(gdb.try_receive_output(), None);
    assert!(gdb.send_command("anyone there".to_string()).is_ok());
    assert_eq!(
        gdb.next_input(),
        InputStep::Write("anyone there\n".to_string())
    );
    assert!(!gdb.input_written(false));
    let refused = gdb.send_command("hello".to_string());
    assert_eq!(refused.unwrap_err().undelivered, "hello");
    assert_eq!(gdb.next_input(), InputStep::Stop);
}

#[test]
fn a_failed_poll_counts_as_running() {
    let mut gdb = Gdb::new(5);
    assert!(gdb.is_running(ExitPoll::Failed));
    assert!(gdb.is_running(ExitPoll::Running));
}

#[test]
fn shutdown_of_a_child_that_quits_politely() {
    let mut gdb = Gdb::new(4242);
    assert!(gdb.send_command("continue".to_string()).is_ok());
    let actions = run_shutdown(&mut gdb, ExitPoll::Exited);
    assert_eq!(
        actions,
        vec![
            ShutdownAction::Sleep(100),
            ShutdownAction::PollExit,
            ShutdownAction::Reap
        ]
    );
    assert_eq!(gdb.phase(), Phase::Terminated);
    assert!(!gdb.is_running(ExitPoll::Running));
}

#[test]
fn shutdown_queues_the_request_to_quit_behind_earlier_commands() {
    let mut gdb = Gdb::new(4242);
    assert!(gdb.send_command("continue".to_string()).is_ok());
    assert_eq!(gdb.shutdown(ShutdownReport::Requested), ShutdownAction::Sleep(100));
    assert_eq!(gdb.phase(), Phase::ShuttingDown(Pending::Grace));
    let (written, last) = pump_input(&mut gdb);
    assert_eq!(written, "continue\nquit\n");
    assert_eq!(last, InputStep::Idle);
}

#[test]
fn shutdown_kills_a_child_that_ignores_the_request_to_quit() {
    let mut gdb = Gdb::new(4242);
    let actions = run_shutdown(&mut gdb, ExitPoll::Running);
    assert_eq!(
        actions,
        vec![
            ShutdownAction::Sleep(100),
            ShutdownAction::PollExit,
            ShutdownAction::Kill,
            ShutdownAction::Reap
        ]
    );
    assert_eq!(gdb.phase(), Phase::Terminated);
    assert!(!gdb.is_running(ExitPoll::Running));
}

#[test]
fn shutdown_kills_when_the_poll_fails() {
    let mut gdb = Gdb::new(4242);
    let actions = run_shutdown(&mut gdb, ExitPoll::Failed);
    assert_eq!(actions.len(), 4);
    assert_eq!(actions[2], ShutdownAction::Kill);
}

#[test]
fn shutdown_does_not_kill_a_child_seen_to_have_exited_before() {
    let mut gdb = Gdb::new(4242);
    assert!(!gdb.is_running(ExitPoll::Exited));
    let actions = run_shutdown(&mut gdb, ExitPoll::Running);
    assert_eq!(
        actions,
        vec![
            ShutdownAction::Sleep(100),
            ShutdownAction::PollExit,
            ShutdownAction::Reap
        ]
    );
}

#[test]
fn shutdown_twice_asks_for_nothing_the_second_time() {
    let mut gdb = Gdb::new(4242);
    assert_eq!(run_shutdown(&mut gdb, ExitPoll::Running).len(), 4);
    assert_eq!(gdb.phase(), Phase::Terminated);
    assert_eq!(run_shutdown(&mut gdb, ExitPoll::Running), vec![]);
    assert_eq!(gdb.shutdown(ShutdownReport::Killed), ShutdownAction::Done);
    assert_eq!(gdb.shutdown(ShutdownReport::Reaped), ShutdownAction::Done);
    assert_eq!(gdb.phase(), Phase::Terminated);
}

#[test]
fn an_unexpected_report_repeats_the_pending_action() {
    let mut gdb = Gdb::new(4242);
    assert_eq!(gdb.shutdown(ShutdownReport::Requested), ShutdownAction::Sleep(100));
    assert_eq!(gdb.shutdown(ShutdownReport::Requested), ShutdownAction::Sleep(100));
    assert_eq!(gdb.shutdown(ShutdownReport::Slept), ShutdownAction::PollExit);
    assert_eq!(gdb.shutdown(ShutdownReport::Reaped), ShutdownAction::PollExit);
    assert_eq!(
        gdb.shutdown(ShutdownReport::Polled(ExitPoll::Running)),
        ShutdownAction::Kill
    );
    assert_eq!(gdb.shutdown(ShutdownReport::Slept), ShutdownAction::Kill);
    assert_eq!(gdb.shutdown(ShutdownReport::Killed), ShutdownAction::Reap);
    assert_eq!(gdb.shutdown(ShutdownReport::Killed), ShutdownAction::Reap);
    assert_eq!(gdb.phase(), Phase::ShuttingDown(Pending::Reap));
    assert_eq!(gdb.shutdown(ShutdownReport::Reaped), ShutdownAction::Done);
}

#[test]
fn a_terminated_session_takes_no_commands_and_hands_out_no_lines() {
    let mut gdb = Gdb::new(4242);
    assert!(gdb.output_read(b"unread\n"));
    run_shutdown(&mut gdb, ExitPoll::Exited);
    assert!(gdb.send_command("print 1".to_string()).is_err());
    assert_eq!(gdb.try_receive_output(), None);
    assert_eq!(gdb.receive_output(), Err(ReceiveFailure::Disconnected));
    assert!(!gdb.output_read(b"more\n"));
}

#[test]
fn the_input_pump_drains_the_queue_before_it_stops() {
    let mut gdb = Gdb::new(4242);
    assert!(gdb.send_command("finish".to_string()).is_ok());
    run_shutdown(&mut gdb, ExitPoll::Exited);
    let (written, last) = pump_input(&mut gdb);
    assert_eq!(written, "finish\nquit\n");
    assert_eq!(last, InputStep::Stop);
    assert_eq!(gdb.next_input(), InputStep::Stop);
}

#[test]
fn pid_is_the_one_given() {
    assert_eq!(Gdb::new(0).pid(), 0);
    assert_eq!(Gdb::new(4242).pid(), 4242);
    assert_eq!(Gdb::new(u32::MAX).pid(), u32::MAX);
}

#[test]
fn channel_is_first_in_first_out() {
    let mut channel = Channel::new();
    assert_eq!(channel.len(), 0);
    assert!(channel.is_sender_open() && channel.is_receiver_open());
    assert_eq!(channel.try_recv(), Err(ReceiveFailure::Empty));
    assert!(channel.send("1".to_string()).is_ok());
    assert!(channel.send("2".to_string()).is_ok());
    assert_eq!(channel.len(), 2);
    assert_eq!(channel.try_recv(), Ok("1".to_string()));
    assert!(channel.send("3".to_string()).is_ok());
    assert_eq!(channel.try_recv(), Ok("2".to_string()));
    assert_eq!(channel.try_recv(), Ok("3".to_string()));
    assert_eq!(channel.try_recv(), Err(ReceiveFailure::Empty));
}

#[test]
fn channel_with_closed_sender_still_hands_out_what_is_queued() {
    let mut channel = Channel::new();
    assert!(channel.send("kept".to_string()).is_ok());
    channel.close_sender();
    assert!(!channel.is_sender_open());
    assert_eq!(channel.send("late".to_string()).unwrap_err().undelivered, "late");
    assert_eq!(channel.try_recv(), Ok("kept".to_string()));
    assert_eq!(channel.try_recv(), Err(ReceiveFailure::Disconnected));
}

#[test]
fn channel_with_closed_receiver_refuses_and_loses_what_was_queued() {
    let mut channel = Channel::new();
    assert!(channel.send("lost".to_string()).is_ok());
    channel.close_receiver();
    assert!(!channel.is_receiver_open());
    assert_eq!(channel.len(), 0);
    let refused = channel.send("refused".to_string()).unwrap_err();
    assert_eq!(refused.undelivered, "refused");
    assert_eq!(refused.message(), "sending on a closed channel");
    assert_eq!(channel.try_recv(), Err(ReceiveFailure::Disconnected));
}
