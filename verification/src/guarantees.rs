//! What holds of every session, proved over the model in [`crate::session`].

use crate::channel::{ChannelModel, ReceiveFailure};
use crate::session::{
    ExitPoll, InputStepModel, Pending, Phase, SessionModel, ShutdownAction, ShutdownReport,
    GRACE_PERIOD_MS,
};
use crate::wire::{framed, wire_text, LINE_FEED, CARRIAGE_RETURN};
use vstd::prelude::*;
use vstd::utf8::*;

verus! {

/// The write that the input pump makes for each of `commands`, in order.
pub open spec fn writes_of(commands: Seq<Seq<char>>) -> Seq<InputStepModel> {
    Seq::new(commands.len(), |i: int| InputStepModel::Write(framed(commands[i])))
}

/// The next `n` steps of the input pump, where every write succeeds.
pub open spec fn input_steps(session: SessionModel, n: nat) -> Seq<InputStepModel>
    decreases n,
{
    if n == 0 {
        Seq::empty()
    } else {
        seq![session.input_step()] + input_steps(session.after_input_step(), (n - 1) as nat)
    }
}

/// The session after the next `n` steps of the input pump, where every write
/// succeeds.
pub open spec fn after_input_steps(session: SessionModel, n: nat) -> SessionModel
    decreases n,
{
    if n == 0 {
        session
    } else {
        after_input_steps(session.after_input_step(), (n - 1) as nat)
    }
}

/// The text that reaches the child when the given steps are carried out one
/// after the other.
pub open spec fn text_written(steps: Seq<InputStepModel>) -> Seq<char>
    decreases steps.len(),
{
    if steps.len() == 0 {
        Seq::empty()
    } else {
        text_written(steps.drop_last()) + match steps.last() {
            InputStepModel::Write(text) => text,
            _ => Seq::empty(),
        }
    }
}

/// Sending to a channel that accepts appends to its queue, in order, and
/// changes nothing else.
pub proof fn lemma_send_all_appends(channel: ChannelModel, items: Seq<Seq<char>>)
    requires
        channel.accepts(),
    ensures
        channel.after_send_all(items) == (ChannelModel {
            queue: channel.queue + items,
            ..channel
        }),
    decreases items.len(),
{
    if items.len() == 0 {
        assert(channel.queue + items =~= channel.queue);
    } else {
        lemma_send_all_appends(channel, items.drop_last());
        assert((channel.queue + items.drop_last()).push(items.last()) =~= channel.queue + items);
    }
}

/// While its receiving end is held, the input pump writes what is queued,
/// oldest first, one write for each command, and leaves the queue empty.
pub proof fn lemma_pump_writes_queue(session: SessionModel)
    requires
        session.commands.receiver_open,
    ensures
        input_steps(session, session.commands.queue.len()) == writes_of(session.commands.queue),
        after_input_steps(session, session.commands.queue.len()) == (SessionModel {
            commands: ChannelModel { queue: Seq::empty(), ..session.commands },
            ..session
        }),
    decreases session.commands.queue.len(),
{
    let queue = session.commands.queue;
    if queue.len() == 0 {
        assert(input_steps(session, 0) =~= writes_of(queue));
        assert(queue =~= Seq::<Seq<char>>::empty());
    } else {
        let next = session.after_input_step();
        assert(next.commands.queue == queue.drop_first());
        lemma_pump_writes_queue(next);
        assert(seq![session.input_step()] + writes_of(queue.drop_first()) =~= writes_of(queue));
    }
}

/// The writes for a sequence of commands put on the wire exactly the
/// commands, each followed by one line break, in order.
pub proof fn lemma_writes_are_wire_text(commands: Seq<Seq<char>>)
    ensures
        text_written(writes_of(commands)) == wire_text(commands),
    decreases commands.len(),
{
    if commands.len() > 0 {
        lemma_writes_are_wire_text(commands.drop_last());
        assert(writes_of(commands).drop_last() =~= writes_of(commands.drop_last()));
    }
}

/// Commands reach the child in the order of their submission.
///
/// On a session whose command channel has both ends held and nothing
/// queued, after the caller has submitted `commands`, the input pump's next
/// steps are one write for each command, in the order submitted; what they
/// put on the wire is each command followed by a single line break, with
/// nothing added, dropped or merged; and the step after them is a wait.
pub proof fn lemma_commands_arrive_in_order(session: SessionModel, commands: Seq<Seq<char>>)
    requires
        session.commands.accepts(),
        session.commands.queue.len() == 0,
    ensures
        input_steps(session.after_submit_all(commands), commands.len()) == writes_of(commands),
        text_written(input_steps(session.after_submit_all(commands), commands.len()))
            == wire_text(commands),
        after_input_steps(session.after_submit_all(commands), commands.len()).input_step()
            == InputStepModel::Idle,
        after_input_steps(session.after_submit_all(commands), commands.len()) == session,
{
    lemma_send_all_appends(session.commands, commands);
    let submitted = session.after_submit_all(commands);
    assert(session.commands.queue + commands =~= commands);
    assert(session.commands.queue =~= Seq::<Seq<char>>::empty());
    lemma_pump_writes_queue(submitted);
    lemma_writes_are_wire_text(commands);
}

/// A line as the child may print it: valid UTF-8, no line feed inside, and
/// no carriage return at its end.
pub open spec fn is_plain_line(line: Seq<u8>) -> bool {
    &&& valid_utf8(line)
    &&& forall|i: int| 0 <= i < line.len() ==> line[i] != LINE_FEED
    &&& (line.len() > 0 ==> line.last() != CARRIAGE_RETURN)
}

/// The bytes that the child puts out for `lines`: each line followed by one
/// line feed, in order.
pub open spec fn stream_of(lines: Seq<Seq<u8>>) -> Seq<u8>
    decreases lines.len(),
{
    if lines.len() == 0 {
        Seq::empty()
    } else {
        stream_of(lines.drop_last()) + lines.last().push(LINE_FEED)
    }
}

/// The texts that `lines` encode, in order.
pub open spec fn decoded(lines: Seq<Seq<u8>>) -> Seq<Seq<char>> {
    Seq::new(lines.len(), |i: int| decode_utf8(lines[i]))
}

/// How the child's output is cut into pieces makes no difference: reading
/// `first` and then `second` is reading the two joined.
pub proof fn lemma_chunks_compose(session: SessionModel, first: Seq<u8>, second: Seq<u8>)
    ensures
        session.after_output_bytes(first).after_output_bytes(second)
            == session.after_output_bytes(first + second),
    decreases second.len(),
{
    if second.len() == 0 {
        assert(first + second =~= first);
    } else {
        lemma_chunks_compose(session, first, second.drop_last());
        assert((first + second).drop_last() =~= first + second.drop_last());
    }
}

/// Bytes without a line feed only extend the line read in part.
pub proof fn lemma_line_body_is_kept(session: SessionModel, body: Seq<u8>)
    requires
        session.output.sender_open,
        forall|i: int| 0 <= i < body.len() ==> body[i] != LINE_FEED,
    ensures
        session.after_output_bytes(body) == (SessionModel {
            partial: session.partial + body,
            ..session
        }),
    decreases body.len(),
{
    if body.len() == 0 {
        assert(session.partial + body =~= session.partial);
    } else {
        lemma_line_body_is_kept(session, body.drop_last());
        assert((session.partial + body.drop_last()).push(body.last()) =~= session.partial + body);
    }
}

/// Lines reach the caller's queue as the child printed them.
///
/// On a session whose output channel has both ends held and whose output
/// pump is between two lines, after the pump has read the bytes of `lines`,
/// each followed by a line feed, the caller's queue holds what it held
/// before and then the text of every line, in order, each once; the pump
/// goes on and is again between two lines.
pub proof fn lemma_lines_are_queued_in_order(session: SessionModel, lines: Seq<Seq<u8>>)
    requires
        session.output.accepts(),
        session.partial.len() == 0,
        forall|i: int| 0 <= i < lines.len() ==> is_plain_line(#[trigger] lines[i]),
    ensures
        session.after_output_bytes(stream_of(lines)) == (SessionModel {
            output: ChannelModel {
                queue: session.output.queue + decoded(lines),
                ..session.output
            },
            ..session
        }),
    decreases lines.len(),
{
    if lines.len() == 0 {
        assert(session.output.queue + decoded(lines) =~= session.output.queue);
    } else {
        let earlier = lines.drop_last();
        let line = lines.last();
        assert forall|i: int| 0 <= i < earlier.len() implies is_plain_line(
            #[trigger] earlier[i],
        ) by {
            assert(earlier[i] == lines[i]);
        }
        lemma_lines_are_queued_in_order(session, earlier);
        let before = session.after_output_bytes(stream_of(earlier));
        assert(is_plain_line(line));
        lemma_chunks_compose(session, stream_of(earlier), line.push(LINE_FEED));
        lemma_line_body_is_kept(before, line);
        assert(line.push(LINE_FEED).drop_last() =~= line);
        assert(before.partial + line =~= line);
        assert(session.partial =~= Seq::<u8>::empty());
        let body_read = before.after_output_bytes(line);
        assert(body_read.partial == line);
        assert(line.push(LINE_FEED).last() == LINE_FEED);
        assert(before.after_output_bytes(line.push(LINE_FEED)) == body_read.after_output_byte(
            LINE_FEED,
        ));
        assert((session.output.queue + decoded(earlier)).push(decode_utf8(line))
            =~= session.output.queue + decoded(lines));
    }
}

/// The results of the caller's next `n` attempts to take a line.
pub open spec fn takes(session: SessionModel, n: nat) -> Seq<Result<Seq<char>, ReceiveFailure>>
    decreases n,
{
    if n == 0 {
        Seq::empty()
    } else {
        seq![session.output.received()] + takes(session.after_take(), (n - 1) as nat)
    }
}

/// The caller takes what is queued, oldest first, each line once; the
/// attempt after the last line finds nothing, and says that more may come
/// exactly while the output pump goes on.
pub proof fn lemma_lines_are_taken_in_order(session: SessionModel)
    requires
        session.output.receiver_open,
    ensures
        takes(session, session.output.queue.len()) == Seq::new(
            session.output.queue.len(),
            |i: int| Ok::<Seq<char>, ReceiveFailure>(session.output.queue[i]),
        ),
        session.after_takes(session.output.queue.len()).output.queue.len() == 0,
        session.after_takes(session.output.queue.len()).output.received() == Err::<
            Seq<char>,
            ReceiveFailure,
        >(
            if session.output.sender_open {
                ReceiveFailure::Empty
            } else {
                ReceiveFailure::Disconnected
            },
        ),
    decreases session.output.queue.len(),
{
    let queue = session.output.queue;
    if queue.len() == 0 {
        assert(takes(session, 0) =~= Seq::new(
            0,
            |i: int| Ok::<Seq<char>, ReceiveFailure>(session.output.queue[i]),
        ));
    } else {
        let next = session.after_take();
        assert(next.output.queue == queue.drop_first());
        lemma_lines_are_taken_in_order(next);
        assert(next.after_takes((queue.len() - 1) as nat) == session.after_takes(queue.len()));
        assert(seq![session.output.received()] + takes(next, (queue.len() - 1) as nat)
            =~= Seq::new(queue.len(), |i: int| Ok::<Seq<char>, ReceiveFailure>(queue[i])));
    }
}

/// What the child prints is what the caller takes.
///
/// On a session whose output channel has both ends held and nothing queued,
/// and whose output pump is between two lines, after the pump has read the
/// bytes of `lines`, each followed by a line feed, the caller's next
/// attempts hand out the text of every line, in order, each once; the attempt
/// after them finds nothing for now, and does not say that the child is
/// done.
pub proof fn lemma_output_is_taken_as_printed(session: SessionModel, lines: Seq<Seq<u8>>)
    requires
        session.output.accepts(),
        session.output.queue.len() == 0,
        session.partial.len() == 0,
        forall|i: int| 0 <= i < lines.len() ==> is_plain_line(#[trigger] lines[i]),
    ensures
        takes(session.after_output_bytes(stream_of(lines)), lines.len()) == Seq::new(
            lines.len(),
            |i: int| Ok::<Seq<char>, ReceiveFailure>(decode_utf8(lines[i])),
        ),
        session.after_output_bytes(stream_of(lines)).after_takes(lines.len()) == session,
        session.after_output_bytes(stream_of(lines)).after_takes(
            lines.len(),
        ).output.received() == Err::<Seq<char>, ReceiveFailure>(ReceiveFailure::Empty),
{
    lemma_lines_are_queued_in_order(session, lines);
    let read = session.after_output_bytes(stream_of(lines));
    assert(session.output.queue + decoded(lines) =~= decoded(lines));
    assert(read.output.queue == decoded(lines));
    lemma_lines_are_taken_in_order(read);
    lemma_receives_empty_queue(read.output);
    assert(session.output.queue =~= Seq::<Seq<char>>::empty());
    assert(takes(read, lines.len()) =~= Seq::new(
        lines.len(),
        |i: int| Ok::<Seq<char>, ReceiveFailure>(decode_utf8(lines[i])),
    ));
}

/// Taking everything that is queued leaves the channel as it is, with
/// nothing queued.
pub proof fn lemma_receives_empty_queue(channel: ChannelModel)
    requires
        channel.receiver_open,
    ensures
        channel.after_receives(channel.queue.len()) == (ChannelModel {
            queue: Seq::empty(),
            ..channel
        }),
    decreases channel.queue.len(),
{
    if channel.queue.len() == 0 {
        assert(channel.queue =~= Seq::<Seq<char>>::empty());
    } else {
        lemma_receives_empty_queue(channel.after_receive());
    }
}

/// The report that follows from carrying out `action`, where a look at the
/// child's exit status shows `polled`.
pub open spec fn report_of(action: ShutdownAction, polled: ExitPoll) -> ShutdownReport {
    match action {
        ShutdownAction::Sleep(_) => ShutdownReport::Slept,
        ShutdownAction::PollExit => ShutdownReport::Polled(polled),
        ShutdownAction::Kill => ShutdownReport::Killed,
        ShutdownAction::Reap => ShutdownReport::Reaped,
        ShutdownAction::Done => ShutdownReport::Requested,
    }
}

/// The actions that a shutdown asks for, from `report` on, when each is
/// carried out and reported; at most `limit` of them.
pub open spec fn shutdown_actions(
    session: SessionModel,
    report: ShutdownReport,
    polled: ExitPoll,
    limit: nat,
) -> Seq<ShutdownAction>
    decreases limit,
{
    let action = session.shutdown_action(report);
    if limit == 0 || action is Done {
        Seq::empty()
    } else {
        seq![action] + shutdown_actions(
            session.after_shutdown(report),
            report_of(action, polled),
            polled,
            (limit - 1) as nat,
        )
    }
}

/// The session after the shutdown of [`shutdown_actions`].
pub open spec fn after_shutdown_actions(
    session: SessionModel,
    report: ShutdownReport,
    polled: ExitPoll,
    limit: nat,
) -> SessionModel
    decreases limit,
{
    let action = session.shutdown_action(report);
    if limit == 0 || action is Done {
        session.after_shutdown(report)
    } else {
        after_shutdown_actions(
            session.after_shutdown(report),
            report_of(action, polled),
            polled,
            (limit - 1) as nat,
        )
    }
}

/// Shutting down a live session asks for the grace period, a look at the
/// child, a kill exactly if the child has not been seen to have exited, and
/// one wait that reaps the child; it leaves the session terminated, with the
/// request to quit queued behind the commands submitted before.
pub proof fn lemma_shutdown_of_live_session(session: SessionModel, polled: ExitPoll)
    requires
        session.phase is Alive,
    ensures
        shutdown_actions(session, ShutdownReport::Requested, polled, 5) == (if session.exit_seen
            || polled is Exited {
            seq![
                ShutdownAction::Sleep(GRACE_PERIOD_MS),
                ShutdownAction::PollExit,
                ShutdownAction::Reap,
            ]
        } else {
            seq![
                ShutdownAction::Sleep(GRACE_PERIOD_MS),
                ShutdownAction::PollExit,
                ShutdownAction::Kill,
                ShutdownAction::Reap,
            ]
        }),
        after_shutdown_actions(session, ShutdownReport::Requested, polled, 5) == (SessionModel {
            phase: Phase::Terminated,
            exit_seen: true,
            commands: session.commands.after_send(
                crate::session::quit_command(),
            ).after_sender_closed(),
            output: session.output.after_receiver_closed(),
            ..session
        }),
{
    reveal_with_fuel(shutdown_actions, 6);
    reveal_with_fuel(after_shutdown_actions, 6);
    let expected = if session.exit_seen || polled is Exited {
        seq![
            ShutdownAction::Sleep(GRACE_PERIOD_MS),
            ShutdownAction::PollExit,
            ShutdownAction::Reap,
        ]
    } else {
        seq![
            ShutdownAction::Sleep(GRACE_PERIOD_MS),
            ShutdownAction::PollExit,
            ShutdownAction::Kill,
            ShutdownAction::Reap,
        ]
    };
    assert(shutdown_actions(session, ShutdownReport::Requested, polled, 5) =~= expected);
}

/// A shutdown that is carried through ends in a terminated session,
/// wherever it starts and whatever is reported first, within five actions.
pub proof fn lemma_shutdown_terminates(
    session: SessionModel,
    report: ShutdownReport,
    polled: ExitPoll,
)
    ensures
        after_shutdown_actions(session, report, polled, 5).phase is Terminated,
{
    match session.phase {
        Phase::Alive => {
            lemma_shutdown_of_live_session(session, polled);
            reveal_with_fuel(shutdown_actions, 2);
            reveal_with_fuel(after_shutdown_actions, 2);
            assert(session.shutdown_action(report) == session.shutdown_action(
                ShutdownReport::Requested,
            ));
            assert(session.after_shutdown(report) == session.after_shutdown(
                ShutdownReport::Requested,
            ));
        },
        Phase::ShuttingDown(Pending::Grace) => {
            reveal_with_fuel(shutdown_actions, 6);
            reveal_with_fuel(after_shutdown_actions, 6);
        },
        Phase::ShuttingDown(Pending::Probe) => {
            reveal_with_fuel(shutdown_actions, 5);
            reveal_with_fuel(after_shutdown_actions, 5);
        },
        Phase::ShuttingDown(Pending::Kill) => {
            reveal_with_fuel(shutdown_actions, 4);
            reveal_with_fuel(after_shutdown_actions, 4);
        },
        Phase::ShuttingDown(Pending::Reap) => {
            reveal_with_fuel(shutdown_actions, 3);
            reveal_with_fuel(after_shutdown_actions, 3);
        },
        Phase::Terminated => {},
    }
}

/// Shutting down a terminated session does nothing: no action is asked for,
/// so the child is neither killed nor waited for again, and the session stays
/// as it is, whatever is reported to it.
pub proof fn lemma_shutdown_is_idempotent(
    session: SessionModel,
    report: ShutdownReport,
    polled: ExitPoll,
    limit: nat,
)
    requires
        session.phase is Terminated,
    ensures
        session.shutdown_action(report) == ShutdownAction::Done,
        session.after_shutdown(report) == session,
        shutdown_actions(session, report, polled, limit) == Seq::<ShutdownAction>::empty(),
        after_shutdown_actions(session, report, polled, limit) == session,
{
}

/// A new session is well formed, and every operation keeps a session well
/// formed and a terminated session terminated.
pub proof fn lemma_operations_keep_sessions_well_formed(
    session: SessionModel,
    command: Seq<char>,
    polled: ExitPoll,
    ok: bool,
    byte: u8,
    report: ShutdownReport,
)
    requires
        session.wf(),
    ensures
        SessionModel::fresh(session.pid).wf(),
        session.after_submit(command).wf(),
        session.after_take().wf(),
        session.after_poll(polled).wf(),
        session.after_input_step().wf(),
        session.after_input_written(ok).wf(),
        session.after_output_byte(byte).wf(),
        session.after_output_end().wf(),
        session.after_output_failure().wf(),
        session.after_shutdown(report).wf(),
        session.phase is Terminated ==> {
            &&& session.after_submit(command).phase is Terminated
            &&& session.after_take().phase is Terminated
            &&& session.after_poll(polled).phase is Terminated
            &&& session.after_input_step().phase is Terminated
            &&& session.after_input_written(ok).phase is Terminated
            &&& session.after_output_byte(byte).phase is Terminated
            &&& session.after_output_end().phase is Terminated
            &&& session.after_output_failure().phase is Terminated
            &&& session.after_shutdown(report).phase is Terminated
        },
{
}

/// Once the session is terminated, or a write to the child has failed, every
/// command is refused.
pub proof fn lemma_dead_session_refuses_commands(session: SessionModel)
    requires
        session.wf(),
    ensures
        session.phase is Terminated ==> !session.commands.accepts(),
        !session.after_input_written(false).commands.accepts(),
{
}

} // verus!
