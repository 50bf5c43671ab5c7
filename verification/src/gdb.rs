//! One debugger session: the queues between the caller and the child's
//! standard streams, and the session's life from start to reaping.
//!
//! The session itself never touches a process or a stream. The program
//! around it starts the child, runs one worker per stream, and asks the
//! session at every step what to do next.

use crate::channel::{Channel, ReceiveFailure, SendFailure};
use crate::session::{
    ExitPoll, InputStepModel, Pending, Phase, SessionModel, ShutdownAction, ShutdownReport,
    GRACE_PERIOD_MS,
};
use crate::signal::{send_to_process, Signal, SignalFailure};
use crate::wire::{decode_line, frame_command, CARRIAGE_RETURN, LINE_FEED};
use vstd::prelude::*;
use vstd::string::*;

verus! {

/// What the input pump does next.
#[derive(Debug, PartialEq, Eq)]
pub enum InputStep {
    /// Write this text to the child's standard input and flush, then report
    /// the result with [`Gdb::input_written`].
    Write(String),
    /// Nothing is queued: wait until something is, then ask again.
    Idle,
    /// The session's sending end is gone: end the pump.
    Stop,
}

impl View for InputStep {
    type V = InputStepModel;

    open spec fn view(&self) -> InputStepModel {
        match self {
            InputStep::Write(text) => InputStepModel::Write(text@),
            InputStep::Idle => InputStepModel::Idle,
            InputStep::Stop => InputStepModel::Stop,
        }
    }
}

/// A session with one debugger process.
#[derive(Debug)]
pub struct Gdb {
    pid: u32,
    phase: Phase,
    exit_seen: bool,
    commands: Channel,
    output: Channel,
    partial: Vec<u8>,
}

impl View for Gdb {
    type V = SessionModel;

    closed spec fn view(&self) -> SessionModel {
        SessionModel {
            pid: self.pid,
            phase: self.phase,
            exit_seen: self.exit_seen,
            commands: self.commands@,
            output: self.output@,
            partial: self.partial@,
        }
    }
}

impl Gdb {
    /// The session for the child process `pid`, which was just started with
    /// its three standard streams piped.
    pub fn new(pid: u32) -> (gdb: Gdb)
        ensures
            gdb@ == SessionModel::fresh(pid),
    {
        Gdb {
            pid,
            phase: Phase::Alive,
            exit_seen: false,
            commands: Channel::new(),
            output: Channel::new(),
            partial: Vec::new(),
        }
    }

    /// Queues a command for the child. Never waits. Fails, handing the
    /// command back, exactly when the input pump has stopped or the session
    /// is terminated.
    pub fn send_command(&mut self, command: String) -> (sent: Result<(), SendFailure>)
        ensures
            final(self)@ == old(self)@.after_submit(command@),
            old(self)@.commands.accepts() ==> sent is Ok,
            !old(self)@.commands.accepts() ==> sent is Err && sent->Err_0.undelivered@
                == command@,
    {
        self.commands.send(command)
    }

    /// Takes the oldest line of output that has arrived, without waiting.
    /// `None` says that no line is queued now, not that the child is done.
    pub fn try_receive_output(&mut self) -> (line: Option<String>)
        ensures
            final(self)@ == old(self)@.after_take(),
            match line {
                Some(text) => old(self)@.output.received() == Ok::<Seq<char>, ReceiveFailure>(
                    text@,
                ),
                None => old(self)@.output.received() is Err,
            },
    {
        match self.output.try_recv() {
            Ok(text) => Some(text),
            Err(_) => None,
        }
    }

    /// Takes the oldest line of output that has arrived, or says why there
    /// is none: [`ReceiveFailure::Empty`] while the output pump may still
    /// deliver, [`ReceiveFailure::Disconnected`] once it cannot.
    pub fn receive_output(&mut self) -> (line: Result<String, ReceiveFailure>)
        ensures
            final(self)@ == old(self)@.after_take(),
            match line {
                Ok(text) => old(self)@.output.received() == Ok::<Seq<char>, ReceiveFailure>(
                    text@,
                ),
                Err(why) => old(self)@.output.received() == Err::<Seq<char>, ReceiveFailure>(
                    why,
                ),
            },
    {
        self.output.try_recv()
    }

    /// Records a look at the child's exit status and says whether the child
    /// counts as running: it does until it has once been seen to have exited.
    pub fn is_running(&mut self, polled: ExitPoll) -> (running: bool)
        ensures
            final(self)@ == old(self)@.after_poll(polled),
            running == final(self)@.running(),
    {
        match polled {
            ExitPoll::Exited => {
                self.exit_seen = true;
            },
            _ => {},
        }
        !self.exit_seen
    }

    /// The child's process identifier.
    pub fn pid(&self) -> (pid: u32)
        ensures
            pid == self@.pid,
    {
        self.pid
    }

    /// Where the session is in its life.
    pub fn phase(&self) -> (phase: Phase)
        ensures
            phase == self@.phase,
    {
        self.phase
    }
}

impl Gdb {
    /// Sends `signal` to the child and does not wait for its reaction.
    ///
    /// Once the child has been seen to have exited nothing is sent: its
    /// identifier may by then name another process. Otherwise the result is
    /// that of [`send_to_process`] for the child's identifier.
    pub fn send_signal(&mut self, signal: Signal) -> (outcome: Result<(), SignalFailure>)
        ensures
            final(self)@ == old(self)@,
            old(self)@.can_come_of_signal(outcome),
    {
        if self.exit_seen {
            return Err(SignalFailure::ChildExited);
        }
        send_to_process(self.pid, signal)
    }

    /// Interrupts the child: [`Gdb::send_signal`] with [`Signal::Interrupt`].
    pub fn send_sigint(&mut self) -> (outcome: Result<(), SignalFailure>)
        ensures
            final(self)@ == old(self)@,
            old(self)@.can_come_of_signal(outcome),
    {
        self.send_signal(Signal::Interrupt)
    }

    /// Asks the child to terminate: [`Gdb::send_signal`] with
    /// [`Signal::Terminate`].
    pub fn send_sigterm(&mut self) -> (outcome: Result<(), SignalFailure>)
        ensures
            final(self)@ == old(self)@,
            old(self)@.can_come_of_signal(outcome),
    {
        self.send_signal(Signal::Terminate)
    }

    /// Ends the child by force: [`Gdb::send_signal`] with [`Signal::Kill`].
    pub fn send_sigkill(&mut self) -> (outcome: Result<(), SignalFailure>)
        ensures
            final(self)@ == old(self)@,
            old(self)@.can_come_of_signal(outcome),
    {
        self.send_signal(Signal::Kill)
    }

    /// Decides the input pump's next step: the oldest queued command,
    /// framed for the child; a wait, when nothing is queued; or the pump's
    /// end, when the session has given up its sending end and nothing is
    /// left. A pump that ends gives up its receiving end.
    pub fn next_input(&mut self) -> (step: InputStep)
        ensures
            final(self)@ == old(self)@.after_input_step(),
            step@ == old(self)@.input_step(),
    {
        match self.commands.try_recv() {
            Ok(command) => InputStep::Write(frame_command(command.as_str())),
            Err(ReceiveFailure::Empty) => InputStep::Idle,
            Err(ReceiveFailure::Disconnected) => {
                self.commands.close_receiver();
                InputStep::Stop
            },
        }
    }

    /// Takes note of how writing and flushing a command went, and says
    /// whether the input pump goes on. A failure is final: the pump ends and
    /// gives up its receiving end, so that every later command is refused.
    pub fn input_written(&mut self, ok: bool) -> (goes_on: bool)
        ensures
            final(self)@ == old(self)@.after_input_written(ok),
            goes_on == ok,
    {
        if !ok {
            self.commands.close_receiver();
        }
        ok
    }
}

impl Gdb {
    /// Delivers one complete line of the child's output to the caller's
    /// queue, or ends the output pump where the line is not valid UTF-8 or
    /// the caller's end is gone.
    fn output_line(&mut self, line: Vec<u8>)
        ensures
            final(self)@ == old(self)@.after_output_line(line@),
    {
        self.partial = Vec::new();
        if !self.output.is_sender_open() || !self.output.is_receiver_open() {
            self.output.close_sender();
            return ;
        }
        match decode_line(line) {
            Some(text) => {
                let _ = self.output.send(text);
            },
            None => {
                self.output.close_sender();
            },
        }
    }

    /// Takes one byte that the output pump read.
    fn output_byte(&mut self, byte: u8)
        ensures
            final(self)@ == old(self)@.after_output_byte(byte),
    {
        if !self.output.is_sender_open() {
            return ;
        }
        if byte != LINE_FEED {
            self.partial.push(byte);
            return ;
        }
        let mut line: Vec<u8> = Vec::new();
        std::mem::swap(&mut line, &mut self.partial);
        let n: usize = line.len();
        if n > 0 && line[n - 1] == CARRIAGE_RETURN {
            line.pop();
            assert(line@ =~= old(self)@.partial.drop_last());
        }
        self.output_line(line);
    }

    /// Takes the bytes that the output pump read from the child, in the
    /// order read, and says whether the pump goes on.
    ///
    /// Every line that the bytes complete is queued for the caller, without
    /// its line break. How the child's output is cut into chunks makes no
    /// difference: a line may arrive in any number of pieces.
    pub fn output_read(&mut self, chunk: &[u8]) -> (goes_on: bool)
        ensures
            final(self)@ == old(self)@.after_output_bytes(chunk@),
            goes_on == final(self)@.output.sender_open,
    {
        let mut i: usize = 0;
        while i < chunk.len()
            invariant
                i <= chunk@.len(),
                self@ == old(self)@.after_output_bytes(chunk@.subrange(0, i as int)),
            decreases chunk@.len() - i,
        {
            let byte: u8 = chunk[i];
            proof {
                let next = chunk@.subrange(0, i + 1);
                assert(next.drop_last() =~= chunk@.subrange(0, i as int));
                assert(next.last() == byte);
            }
            self.output_byte(byte);
            i += 1;
        }
        assert(chunk@.subrange(0, i as int) =~= chunk@);
        self.output.is_sender_open()
    }

    /// Takes note that the child's output has ended. A last line without a
    /// line break is still delivered; then the output pump ends.
    pub fn output_ended(&mut self)
        ensures
            final(self)@ == old(self)@.after_output_end(),
    {
        if !self.output.is_sender_open() {
            return ;
        }
        if self.partial.len() > 0 {
            let mut line: Vec<u8> = Vec::new();
            std::mem::swap(&mut line, &mut self.partial);
            self.output_line(line);
        }
        self.output.close_sender();
    }

    /// Takes note that reading the child's output failed. The output pump
    /// ends, and a line read in part is lost.
    pub fn output_failed(&mut self)
        ensures
            final(self)@ == old(self)@.after_output_failure(),
    {
        if !self.output.is_sender_open() {
            return ;
        }
        self.partial = Vec::new();
        self.output.close_sender();
    }
}

impl Gdb {
    /// Moves the session's shutdown one step on and says what to do next.
    ///
    /// The program around the session starts with
    /// [`ShutdownReport::Requested`], performs each action that comes back
    /// and reports it, until the action is [`ShutdownAction::Done`]. A live
    /// session first queues the polite request to quit and asks for the
    /// grace period; after it the child is killed only if it has not been
    /// seen to have exited; in every case the child is reaped before the
    /// session is terminated. On a terminated session this does nothing and
    /// asks for nothing.
    pub fn shutdown(&mut self, report: ShutdownReport) -> (action: ShutdownAction)
        ensures
            final(self)@ == old(self)@.after_shutdown(report),
            action == old(self)@.shutdown_action(report),
    {
        match self.phase {
            Phase::Terminated => ShutdownAction::Done,
            Phase::Alive => {
                proof {
                    reveal_strlit("quit");
                }
                let _ = self.commands.send(String::from_str("quit"));
                self.phase = Phase::ShuttingDown(Pending::Grace);
                ShutdownAction::Sleep(GRACE_PERIOD_MS)
            },
            Phase::ShuttingDown(Pending::Grace) => match report {
                ShutdownReport::Slept => {
                    self.phase = Phase::ShuttingDown(Pending::Probe);
                    ShutdownAction::PollExit
                },
                _ => ShutdownAction::Sleep(GRACE_PERIOD_MS),
            },
            Phase::ShuttingDown(Pending::Probe) => match report {
                ShutdownReport::Polled(polled) => {
                    if self.is_running(polled) {
                        self.phase = Phase::ShuttingDown(Pending::Kill);
                        ShutdownAction::Kill
                    } else {
                        self.phase = Phase::ShuttingDown(Pending::Reap);
                        ShutdownAction::Reap
                    }
                },
                _ => ShutdownAction::PollExit,
            },
            Phase::ShuttingDown(Pending::Kill) => match report {
                ShutdownReport::Killed => {
                    self.phase = Phase::ShuttingDown(Pending::Reap);
                    ShutdownAction::Reap
                },
                _ => ShutdownAction::Kill,
            },
            Phase::ShuttingDown(Pending::Reap) => match report {
                ShutdownReport::Reaped => {
                    self.exit_seen = true;
                    self.commands.close_sender();
                    self.output.close_receiver();
                    self.phase = Phase::Terminated;
                    ShutdownAction::Done
                },
                _ => ShutdownAction::Reap,
            },
        }
    }
}

} // verus!
