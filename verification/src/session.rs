//! The mathematical model of one debugger session: its states and the effect
//! of every operation on them. The executable session in [`crate::gdb`]
//! refines this model step by step.

use crate::channel::{ChannelModel, ReceiveFailure};
use crate::signal::{can_come_of_signalling, SignalFailure};
use crate::wire::{framed, without_carriage_return, LINE_FEED};
use vstd::prelude::*;
use vstd::utf8::*;

verus! {

/// The wait, in milliseconds, between the polite request to quit and the
/// forced kill.
pub const GRACE_PERIOD_MS: u64 = 100;

/// The command that politely asks the debugger to quit.
pub open spec fn quit_command() -> Seq<char> {
    "quit"@
}

/// What a non-blocking look at the child's exit status showed.
#[derive(Clone, Copy, Debug, PartialEq, Eq, Structural)]
pub enum ExitPoll {
    /// The child has not exited.
    Running,
    /// The child has exited.
    Exited,
    /// The status could not be read; the child counts as running.
    Failed,
}

/// The step that a session in shutdown waits for.
#[derive(Clone, Copy, Debug, PartialEq, Eq, Structural)]
pub enum Pending {
    /// The grace period after the request to quit.
    Grace,
    /// The look at the child's exit status after the grace period.
    Probe,
    /// The forced kill.
    Kill,
    /// The wait that reaps the child.
    Reap,
}

/// Where a session is in its life.
#[derive(Clone, Copy, Debug, PartialEq, Eq, Structural)]
pub enum Phase {
    /// The child was started and has not been taken down.
    Alive,
    /// Shutdown has begun and waits for the given step.
    ShuttingDown(Pending),
    /// The child has been reaped. Nothing leads out of this phase.
    Terminated,
}

/// What the program around the session reports to its shutdown.
#[derive(Clone, Copy, Debug, PartialEq, Eq, Structural)]
pub enum ShutdownReport {
    /// Shutdown is asked for.
    Requested,
    /// The grace period has passed.
    Slept,
    /// The child's exit status was looked at.
    Polled(ExitPoll),
    /// The forced kill was issued.
    Killed,
    /// The child was waited for and is reaped.
    Reaped,
}

/// What the session asks the program around it to do next.
#[derive(Clone, Copy, Debug, PartialEq, Eq, Structural)]
pub enum ShutdownAction {
    /// Wait this many milliseconds, then report [`ShutdownReport::Slept`].
    Sleep(u64),
    /// Look at the child's exit status without blocking, then report
    /// [`ShutdownReport::Polled`].
    PollExit,
    /// Kill the child, then report [`ShutdownReport::Killed`].
    Kill,
    /// Wait for the child, then report [`ShutdownReport::Reaped`].
    Reap,
    /// Nothing is left to do.
    Done,
}

/// What the input pump does next, over texts.
pub enum InputStepModel {
    /// Write this text to the child's standard input and flush.
    Write(Seq<char>),
    /// Nothing is queued: wait until something is.
    Idle,
    /// The session's sending end is gone: end the pump.
    Stop,
}

/// One session, mathematically.
pub struct SessionModel {
    /// The child's process identifier.
    pub pid: u32,
    /// Where the session is in its life.
    pub phase: Phase,
    /// Whether the child has been seen to have exited.
    pub exit_seen: bool,
    /// Commands on their way from the caller to the input pump.
    pub commands: ChannelModel,
    /// Lines on their way from the output pump to the caller.
    pub output: ChannelModel,
    /// The bytes of the line that the output pump has read in part.
    pub partial: Seq<u8>,
}

impl SessionModel {
    /// The session right after the child `pid` was started.
    pub open spec fn fresh(pid: u32) -> SessionModel {
        SessionModel {
            pid,
            phase: Phase::Alive,
            exit_seen: false,
            commands: ChannelModel::fresh(),
            output: ChannelModel::fresh(),
            partial: Seq::empty(),
        }
    }

    /// What holds of every session that the operations can reach: a
    /// terminated session has seen the child exit and has given up its two
    /// channel ends.
    pub open spec fn wf(self) -> bool {
        self.phase is Terminated ==> {
            &&& self.exit_seen
            &&& !self.commands.sender_open
            &&& !self.output.receiver_open
        }
    }

    /// The session after the caller submitted `command`.
    pub open spec fn after_submit(self, command: Seq<char>) -> SessionModel {
        SessionModel { commands: self.commands.after_send(command), ..self }
    }

    /// The session after the caller submitted `commands` one by one.
    pub open spec fn after_submit_all(self, commands: Seq<Seq<char>>) -> SessionModel {
        SessionModel { commands: self.commands.after_send_all(commands), ..self }
    }

    /// The session after the caller took, or tried to take, one line.
    pub open spec fn after_take(self) -> SessionModel {
        SessionModel { output: self.output.after_receive(), ..self }
    }

    /// The session after the caller took, or tried to take, `n` lines.
    pub open spec fn after_takes(self, n: nat) -> SessionModel {
        SessionModel { output: self.output.after_receives(n), ..self }
    }

    /// The lines that the caller can take now, oldest first.
    pub open spec fn deliverable(self) -> Seq<Seq<char>> {
        if self.output.receiver_open {
            self.output.queue
        } else {
            Seq::empty()
        }
    }

    /// The session after the caller took the first `n` of the lines that it
    /// can take now.
    pub open spec fn after_lines_taken(self, n: int) -> SessionModel {
        if self.output.receiver_open {
            SessionModel {
                output: ChannelModel { queue: self.output.queue.skip(n), ..self.output },
                ..self
            }
        } else {
            self
        }
    }

    /// The session after the child's exit status was looked at.
    pub open spec fn after_poll(self, polled: ExitPoll) -> SessionModel {
        SessionModel { exit_seen: self.exit_seen || polled is Exited, ..self }
    }

    /// Whether the child counts as running: it has not been seen to exit.
    pub open spec fn running(self) -> bool {
        !self.exit_seen
    }

    /// Whether `outcome` can come of signalling the child: once the child
    /// has been seen to have exited nothing is sent; before that the outcome
    /// is one of signalling the process with the child's identifier.
    pub open spec fn can_come_of_signal(self, outcome: Result<(), SignalFailure>) -> bool {
        if self.running() {
            can_come_of_signalling(self.pid, outcome)
        } else {
            outcome == Err::<(), SignalFailure>(SignalFailure::ChildExited)
        }
    }

    /// What the input pump does next.
    pub open spec fn input_step(self) -> InputStepModel {
        match self.commands.received() {
            Ok(command) => InputStepModel::Write(framed(command)),
            Err(ReceiveFailure::Empty) => InputStepModel::Idle,
            Err(ReceiveFailure::Disconnected) => InputStepModel::Stop,
        }
    }

    /// The session after the input pump chose its next step. A pump that
    /// stops gives up its receiving end.
    pub open spec fn after_input_step(self) -> SessionModel {
        match self.commands.received() {
            Ok(_) => SessionModel { commands: self.commands.after_receive(), ..self },
            Err(ReceiveFailure::Empty) => self,
            Err(ReceiveFailure::Disconnected) => SessionModel {
                commands: self.commands.after_receiver_closed(),
                ..self
            },
        }
    }

    /// The session after the input pump wrote and flushed a command, or
    /// failed to. A failure ends the pump: it gives up its receiving end, and
    /// what is still queued is never delivered.
    pub open spec fn after_input_written(self, ok: bool) -> SessionModel {
        if ok {
            self
        } else {
            SessionModel { commands: self.commands.after_receiver_closed(), ..self }
        }
    }

    /// The session after the output pump completed the line `line`. A line
    /// that is not valid UTF-8, or that the caller's end no longer takes,
    /// ends the pump.
    pub open spec fn after_output_line(self, line: Seq<u8>) -> SessionModel {
        if valid_utf8(line) && self.output.accepts() {
            SessionModel {
                output: self.output.after_send(decode_utf8(line)),
                partial: Seq::empty(),
                ..self
            }
        } else {
            SessionModel {
                output: self.output.after_sender_closed(),
                partial: Seq::empty(),
                ..self
            }
        }
    }

    /// The session after the output pump read the byte `byte`. A stopped pump
    /// reads nothing.
    pub open spec fn after_output_byte(self, byte: u8) -> SessionModel {
        if !self.output.sender_open {
            self
        } else if byte != LINE_FEED {
            SessionModel { partial: self.partial.push(byte), ..self }
        } else {
            self.after_output_line(without_carriage_return(self.partial))
        }
    }

    /// The session after the output pump read `bytes`, in order.
    pub open spec fn after_output_bytes(self, bytes: Seq<u8>) -> SessionModel
        decreases bytes.len(),
    {
        if bytes.len() == 0 {
            self
        } else {
            self.after_output_bytes(bytes.drop_last()).after_output_byte(bytes.last())
        }
    }

    /// The session after the child's output ended. A last line without a
    /// line break is still delivered, as it stands; then the pump gives up
    /// its sending end.
    pub open spec fn after_output_end(self) -> SessionModel {
        if !self.output.sender_open {
            self
        } else if self.partial.len() > 0 {
            let delivered = self.after_output_line(self.partial);
            SessionModel { output: delivered.output.after_sender_closed(), ..delivered }
        } else {
            SessionModel { output: self.output.after_sender_closed(), ..self }
        }
    }

    /// The session after reading the child's output failed: the pump gives
    /// up its sending end, and a line read in part is lost.
    pub open spec fn after_output_failure(self) -> SessionModel {
        if !self.output.sender_open {
            self
        } else {
            SessionModel {
                output: self.output.after_sender_closed(),
                partial: Seq::empty(),
                ..self
            }
        }
    }

    /// What the session asks for when `report` reaches its shutdown.
    pub open spec fn shutdown_action(self, report: ShutdownReport) -> ShutdownAction {
        match self.phase {
            Phase::Terminated => ShutdownAction::Done,
            Phase::Alive => ShutdownAction::Sleep(GRACE_PERIOD_MS),
            Phase::ShuttingDown(Pending::Grace) => if report is Slept {
                ShutdownAction::PollExit
            } else {
                ShutdownAction::Sleep(GRACE_PERIOD_MS)
            },
            Phase::ShuttingDown(Pending::Probe) => match report {
                ShutdownReport::Polled(polled) => if self.after_poll(polled).running() {
                    ShutdownAction::Kill
                } else {
                    ShutdownAction::Reap
                },
                _ => ShutdownAction::PollExit,
            },
            Phase::ShuttingDown(Pending::Kill) => if report is Killed {
                ShutdownAction::Reap
            } else {
                ShutdownAction::Kill
            },
            Phase::ShuttingDown(Pending::Reap) => if report is Reaped {
                ShutdownAction::Done
            } else {
                ShutdownAction::Reap
            },
        }
    }

    /// The session after `report` reached its shutdown.
    ///
    /// A live session queues the request to quit and enters its grace
    /// period, whatever the report. A session in shutdown moves on when the
    /// report is the one it waits for and stays where it is otherwise. A
    /// reaped session has seen the child exit and gives up its channel ends.
    /// A terminated session does not change.
    pub open spec fn after_shutdown(self, report: ShutdownReport) -> SessionModel {
        match self.phase {
            Phase::Terminated => self,
            Phase::Alive => SessionModel {
                phase: Phase::ShuttingDown(Pending::Grace),
                commands: self.commands.after_send(quit_command()),
                ..self
            },
            Phase::ShuttingDown(Pending::Grace) => if report is Slept {
                SessionModel { phase: Phase::ShuttingDown(Pending::Probe), ..self }
            } else {
                self
            },
            Phase::ShuttingDown(Pending::Probe) => match report {
                ShutdownReport::Polled(polled) => {
                    let seen = self.after_poll(polled);
                    if seen.running() {
                        SessionModel { phase: Phase::ShuttingDown(Pending::Kill), ..seen }
                    } else {
                        SessionModel { phase: Phase::ShuttingDown(Pending::Reap), ..seen }
                    }
                },
                _ => self,
            },
            Phase::ShuttingDown(Pending::Kill) => if report is Killed {
                SessionModel { phase: Phase::ShuttingDown(Pending::Reap), ..self }
            } else {
                self
            },
            Phase::ShuttingDown(Pending::Reap) => if report is Reaped {
                SessionModel {
                    phase: Phase::Terminated,
                    exit_seen: true,
                    commands: self.commands.after_sender_closed(),
                    output: self.output.after_receiver_closed(),
                    ..self
                }
            } else {
                self
            },
        }
    }
}

} // verus!
