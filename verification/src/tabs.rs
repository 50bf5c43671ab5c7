//! What the panels of the front end show and keep: the console's log, the
//! commands waiting for the debugger, and the names of the panels.

use crate::channel::{send_failure_text, texts, ChannelModel, SendFailure};
use crate::gdb::Gdb;
use crate::session::SessionModel;
use vstd::prelude::*;
use vstd::string::*;

pub mod breakpoints;
pub mod cmd_search;
pub mod commands;
pub mod console;
pub mod content;
pub mod data;
pub mod exe;
pub mod files;
pub mod locals;
pub mod registers;
pub mod stack;
pub mod struct_tab;
pub mod thread;
pub mod watch;

verus! {

/// What every panel of the dock has.
pub trait TabImpl {
    /// The panel's title, as text.
    spec fn title_text(&self) -> Seq<char>;

    /// The title under which the panel is shown.
    fn title(&self) -> (title: &'static str)
        ensures
            title@ == self.title_text(),
    ;
}

/// The kinds of log entries. Each kind has its colours.
#[derive(Debug, Clone, Copy, PartialEq, Eq, Structural)]
pub enum LogType {
    /// A command of the user.
    Command,
    /// Output of the debugger.
    Output,
    /// An error.
    Error,
    /// A piece of information.
    Info,
    /// A warning.
    Warning,
}

/// A colour by its red, green and blue parts.
#[derive(Debug, Clone, Copy, PartialEq, Eq, Structural)]
pub struct Rgb {
    pub r: u8,
    pub g: u8,
    pub b: u8,
}

/// The colour of a kind of log entry, on a dark or on a light background.
pub open spec fn color_of(log_type: LogType, is_dark: bool) -> Rgb {
    match log_type {
        LogType::Command => Rgb { r: 100, g: 150, b: 255 },
        LogType::Output => if is_dark {
            Rgb { r: 255, g: 255, b: 255 }
        } else {
            Rgb { r: 0, g: 0, b: 0 }
        },
        LogType::Error => if is_dark {
            Rgb { r: 255, g: 100, b: 100 }
        } else {
            Rgb { r: 200, g: 50, b: 50 }
        },
        LogType::Info => if is_dark {
            Rgb { r: 100, g: 255, b: 100 }
        } else {
            Rgb { r: 50, g: 150, b: 50 }
        },
        LogType::Warning => if is_dark {
            Rgb { r: 255, g: 255, b: 100 }
        } else {
            Rgb { r: 200, g: 150, b: 0 }
        },
    }
}

impl LogType {
    /// The colour in which entries of this kind are shown.
    pub fn color(&self, is_dark: bool) -> (color: Rgb)
        ensures
            color == color_of(*self, is_dark),
    {
        match self {
            LogType::Command => Rgb { r: 100, g: 150, b: 255 },
            LogType::Output => if is_dark {
                Rgb { r: 255, g: 255, b: 255 }
            } else {
                Rgb { r: 0, g: 0, b: 0 }
            },
            LogType::Error => if is_dark {
                Rgb { r: 255, g: 100, b: 100 }
            } else {
                Rgb { r: 200, g: 50, b: 50 }
            },
            LogType::Info => if is_dark {
                Rgb { r: 100, g: 255, b: 100 }
            } else {
                Rgb { r: 50, g: 150, b: 50 }
            },
            LogType::Warning => if is_dark {
                Rgb { r: 255, g: 255, b: 100 }
            } else {
                Rgb { r: 200, g: 150, b: 0 }
            },
        }
    }
}

/// Whether `c` is one of the ten decimal digits.
pub open spec fn is_digit(c: char) -> bool {
    '0' <= c <= '9'
}

/// The shape of a time of day as the log shows it: `[HH:MM:SS]`.
pub open spec fn is_clock_stamp(stamp: Seq<char>) -> bool {
    &&& stamp.len() == 10
    &&& stamp[0] == '['
    &&& is_digit(stamp[1])
    &&& is_digit(stamp[2])
    &&& stamp[3] == ':'
    &&& is_digit(stamp[4])
    &&& is_digit(stamp[5])
    &&& stamp[6] == ':'
    &&& is_digit(stamp[7])
    &&& is_digit(stamp[8])
    &&& stamp[9] == ']'
}

/// Calls `chrono::Local::now` and formats the result with `[%H:%M:%S]`.
/// Which time comes back is left open; only its shape is claimed: two digits
/// each for hour, minute and second, between brackets and colons.
#[verifier::external_body]
fn clock_stamp() -> (stamp: String)
    ensures
        is_clock_stamp(stamp@),
{
    chrono::Local::now().format("[%H:%M:%S]").to_string()
}

/// A log entry, mathematically.
pub struct LogEntryModel {
    pub timestamp: Seq<char>,
    pub content: Seq<char>,
    pub log_type: LogType,
}

/// One line of the console's log.
#[derive(Debug, Clone)]
pub struct LogEntry {
    pub timestamp: String,
    pub content: String,
    pub log_type: LogType,
}

impl View for LogEntry {
    type V = LogEntryModel;

    open spec fn view(&self) -> LogEntryModel {
        LogEntryModel {
            timestamp: self.timestamp@,
            content: self.content@,
            log_type: self.log_type,
        }
    }
}

/// Whether `entry` is what is logged for `content` of kind `log_type` at some
/// time of day.
pub open spec fn logged_now(entry: LogEntryModel, content: Seq<char>, log_type: LogType) -> bool {
    &&& entry.content == content
    &&& entry.log_type == log_type
    &&& is_clock_stamp(entry.timestamp)
}

/// What is shown for an entry: its time, a space, its content.
pub open spec fn display_text(entry: LogEntryModel) -> Seq<char> {
    entry.timestamp.push(' ') + entry.content
}

impl LogEntry {
    /// An entry stamped with the local time of day.
    pub fn new(content: String, log_type: LogType) -> (entry: LogEntry)
        ensures
            logged_now(entry@, content@, log_type),
    {
        let timestamp = clock_stamp();
        LogEntry { timestamp, content, log_type }
    }

    /// An entry with the given time stamp.
    pub fn new_with_timestamp(content: String, log_type: LogType, timestamp: String) -> (entry:
        LogEntry)
        ensures
            entry@ == (LogEntryModel { timestamp: timestamp@, content: content@, log_type }),
    {
        LogEntry { timestamp, content, log_type }
    }

    /// An entry for a command of the user, stamped with the time of day.
    pub fn command(content: String) -> (entry: LogEntry)
        ensures
            logged_now(entry@, content@, LogType::Command),
    {
        LogEntry::new(content, LogType::Command)
    }

    /// An entry for output of the debugger, stamped with the time of day.
    pub fn output(content: String) -> (entry: LogEntry)
        ensures
            logged_now(entry@, content@, LogType::Output),
    {
        LogEntry::new(content, LogType::Output)
    }

    /// An entry for an error, stamped with the time of day.
    pub fn error(content: String) -> (entry: LogEntry)
        ensures
            logged_now(entry@, content@, LogType::Error),
    {
        LogEntry::new(content, LogType::Error)
    }

    /// An entry for a piece of information, stamped with the time of day.
    pub fn info(content: String) -> (entry: LogEntry)
        ensures
            logged_now(entry@, content@, LogType::Info),
    {
        LogEntry::new(content, LogType::Info)
    }

    /// An entry for a warning, stamped with the time of day.
    pub fn warning(content: String) -> (entry: LogEntry)
        ensures
            logged_now(entry@, content@, LogType::Warning),
    {
        LogEntry::new(content, LogType::Warning)
    }

    /// The text shown for the entry; its colour is that of its kind.
    pub fn format_for_display(&self) -> (shown: String)
        ensures
            shown@ == display_text(self@),
    {
        let mut shown = self.timestamp.clone();
        shown.append(" ");
        shown.append(self.content.as_str());
        proof {
            reveal_strlit(" ");
            assert(" "@ =~= seq![' ']);
            assert(shown@ =~= display_text(self@));
        }
        shown
    }
}

/// The panels of the dock.
#[derive(Debug, Clone, Copy, PartialEq, Eq, Structural)]
pub enum Tab {
    Source,
    Console,
    Exe,
    Breakpoints,
    Commands,
    Struct,
    Stack,
    Files,
    Thread,
    CmdSearch,
    Watch,
    Locals,
    Registers,
    Data,
}

/// The title of each panel.
pub open spec fn title_of(tab: Tab) -> Seq<char> {
    match tab {
        Tab::Source => "Source"@,
        Tab::Console => "Console"@,
        Tab::Exe => "Exe"@,
        Tab::Breakpoints => "Breakpoints"@,
        Tab::Commands => "Commands"@,
        Tab::Struct => "Struct"@,
        Tab::Stack => "Stack"@,
        Tab::Files => "Files"@,
        Tab::Thread => "Thread"@,
        Tab::CmdSearch => "CmdSearch"@,
        Tab::Watch => "Watch"@,
        Tab::Locals => "Locals"@,
        Tab::Registers => "Registers"@,
        Tab::Data => "Data"@,
    }
}

impl Tab {
    /// The title under which the panel is shown.
    pub fn title(&self) -> (title: &'static str)
        ensures
            title@ == title_of(*self),
    {
        match self {
            Tab::Source => "Source",
            Tab::Console => "Console",
            Tab::Exe => "Exe",
            Tab::Breakpoints => "Breakpoints",
            Tab::Commands => "Commands",
            Tab::Struct => "Struct",
            Tab::Stack => "Stack",
            Tab::Files => "Files",
            Tab::Thread => "Thread",
            Tab::CmdSearch => "CmdSearch",
            Tab::Watch => "Watch",
            Tab::Locals => "Locals",
            Tab::Registers => "Registers",
            Tab::Data => "Data",
        }
    }
}

/// Whether `pattern` stands in `text` at position `at`.
pub open spec fn occurs_at(text: Seq<char>, pattern: Seq<char>, at: int) -> bool {
    &&& 0 <= at
    &&& at + pattern.len() <= text.len()
    &&& text.subrange(at, at + pattern.len()) == pattern
}

/// Whether `pattern` stands somewhere in `text`.
pub open spec fn has_substring(text: Seq<char>, pattern: Seq<char>) -> bool {
    exists|at: int| occurs_at(text, pattern, at)
}

/// The kind under which a line of the debugger's output is logged: by the
/// first of the words error, warning and info that it holds, written in
/// lower case or with a capital; plain output where it holds none.
pub open spec fn kind_of_output(line: Seq<char>) -> LogType {
    if has_substring(line, "error"@) || has_substring(line, "Error"@) {
        LogType::Error
    } else if has_substring(line, "warning"@) || has_substring(line, "Warning"@) {
        LogType::Warning
    } else if has_substring(line, "info"@) || has_substring(line, "Info"@) {
        LogType::Info
    } else {
        LogType::Output
    }
}

/// Calls `str::contains` with a string as the pattern: whether the pattern
/// stands somewhere in the text.
#[verifier::external_body]
fn contains_text(text: &str, pattern: &str) -> (found: bool)
    ensures
        found == has_substring(text@, pattern@),
{
    text.contains(pattern)
}

/// The kind under which a line of the debugger's output is logged.
pub fn classify_output(line: &str) -> (log_type: LogType)
    ensures
        log_type == kind_of_output(line@),
{
    if contains_text(line, "error") || contains_text(line, "Error") {
        LogType::Error
    } else if contains_text(line, "warning") || contains_text(line, "Warning") {
        LogType::Warning
    } else if contains_text(line, "info") || contains_text(line, "Info") {
        LogType::Info
    } else {
        LogType::Output
    }
}

/// The views of a sequence of log entries, in order.
pub open spec fn entries(logs: Seq<LogEntry>) -> Seq<LogEntryModel> {
    Seq::new(logs.len(), |i: int| logs[i]@)
}

/// The state of the panels, mathematically.
pub struct TabsModel {
    /// Whether the console follows its newest entry.
    pub scroll_lock: bool,
    /// The command being typed.
    pub console_input: Seq<char>,
    /// The last command that was entered.
    pub console_input_prev: Seq<char>,
    /// The console's log, oldest entry first.
    pub logs: Seq<LogEntryModel>,
    /// Whether a debugger session is there to take commands.
    pub gdb_available: bool,
    /// The commands entered and not yet handed to the debugger, oldest first.
    pub pending_commands: Seq<Seq<char>>,
    /// The length of the log when the console last followed it.
    pub last_log_count: usize,
    /// The line of the source that has the focus, counted from one.
    pub focused_line: Option<usize>,
}

/// The state of the panels.
#[derive(Debug)]
pub struct Tabs {
    scroll_lock: bool,
    console_input: String,
    console_input_prev: String,
    logs: Vec<LogEntry>,
    gdb_available: bool,
    pending_commands: Vec<String>,
    last_log_count: usize,
    focused_line: Option<usize>,
}

impl View for Tabs {
    type V = TabsModel;

    closed spec fn view(&self) -> TabsModel {
        TabsModel {
            scroll_lock: self.scroll_lock,
            console_input: self.console_input@,
            console_input_prev: self.console_input_prev@,
            logs: entries(self.logs@),
            gdb_available: self.gdb_available,
            pending_commands: texts(self.pending_commands@),
            last_log_count: self.last_log_count,
            focused_line: self.focused_line,
        }
    }
}

impl TabsModel {
    /// The state at the start: nothing typed, logged or pending, no
    /// debugger, no focus.
    pub open spec fn initial() -> TabsModel {
        TabsModel {
            scroll_lock: false,
            console_input: Seq::empty(),
            console_input_prev: Seq::empty(),
            logs: Seq::empty(),
            gdb_available: false,
            pending_commands: Seq::empty(),
            last_log_count: 0,
            focused_line: None,
        }
    }

    /// Whether `self` is `before` with one entry more at the end of its log,
    /// logged now for `content` of kind `log_type`.
    pub open spec fn logs_one_more(
        self,
        before: TabsModel,
        content: Seq<char>,
        log_type: LogType,
    ) -> bool {
        &&& self == (TabsModel { logs: self.logs, ..before })
        &&& self.logs.len() == before.logs.len() + 1
        &&& self.logs.drop_last() == before.logs
        &&& logged_now(self.logs.last(), content, log_type)
    }

    /// The state after the Enter key in the console's command line: a typed
    /// command becomes pending and the last command, and the line is
    /// emptied; on an empty line the last command, if there is one, becomes
    /// pending once more.
    pub open spec fn after_enter(self) -> TabsModel {
        if self.console_input.len() == 0 {
            if self.console_input_prev.len() == 0 {
                self
            } else {
                TabsModel {
                    pending_commands: self.pending_commands.push(self.console_input_prev),
                    ..self
                }
            }
        } else {
            TabsModel {
                pending_commands: self.pending_commands.push(self.console_input),
                console_input_prev: self.console_input,
                console_input: Seq::empty(),
                ..self
            }
        }
    }

    /// Whether the console is to jump to its newest entry: it follows the
    /// log and the log has grown since it last did.
    pub open spec fn auto_scroll_due(self) -> bool {
        self.scroll_lock && self.logs.len() > self.last_log_count
    }
}

impl Default for Tabs {
    fn default() -> (tabs: Tabs)
        ensures
            tabs@ == TabsModel::initial(),
    {
        let tabs = Tabs {
            scroll_lock: false,
            console_input: String::new(),
            console_input_prev: String::new(),
            logs: Vec::new(),
            gdb_available: false,
            pending_commands: Vec::new(),
            last_log_count: 0,
            focused_line: None,
        };
        assert(entries(tabs.logs@) =~= Seq::<LogEntryModel>::empty());
        assert(texts(tabs.pending_commands@) =~= Seq::<Seq<char>>::empty());
        tabs
    }
}

impl Tabs {
    /// Appends an entry to the log.
    fn push_log(&mut self, entry: LogEntry)
        ensures
            final(self)@ == (TabsModel { logs: old(self)@.logs.push(entry@), ..old(self)@ }),
    {
        self.logs.push(entry);
        assert(entries(self.logs@) =~= entries(old(self).logs@).push(entry@));
    }

    /// Sets the line of the source that has the focus, counted from one;
    /// `None` takes the focus away.
    pub fn set_focused_line(&mut self, line_number: Option<usize>)
        ensures
            final(self)@ == (TabsModel { focused_line: line_number, ..old(self)@ }),
    {
        self.focused_line = line_number;
    }

    /// The line of the source that has the focus.
    pub fn focused_line(&self) -> (line_number: Option<usize>)
        ensures
            line_number == self@.focused_line,
    {
        self.focused_line
    }

    /// Says whether a debugger session is there.
    pub fn set_gdb_available(&mut self, available: bool)
        ensures
            final(self)@ == (TabsModel { gdb_available: available, ..old(self)@ }),
    {
        self.gdb_available = available;
    }

    /// Whether a debugger session is there.
    pub fn is_gdb_available(&self) -> (available: bool)
        ensures
            available == self@.gdb_available,
    {
        self.gdb_available
    }

    /// Hands out the pending commands, oldest first, and leaves none
    /// pending.
    pub fn take_pending_commands(&mut self) -> (commands: Vec<String>)
        ensures
            texts(commands@) == old(self)@.pending_commands,
            final(self)@ == (TabsModel { pending_commands: Seq::empty(), ..old(self)@ }),
    {
        let mut commands: Vec<String> = Vec::new();
        std::mem::swap(&mut commands, &mut self.pending_commands);
        assert(texts(self.pending_commands@) =~= Seq::<Seq<char>>::empty());
        commands
    }

    /// Adds a command behind those that are pending.
    pub fn add_pending_command(&mut self, command: String)
        ensures
            final(self)@ == (TabsModel {
                pending_commands: old(self)@.pending_commands.push(command@),
                ..old(self)@
            }),
    {
        self.pending_commands.push(command);
        assert(texts(self.pending_commands@) =~= texts(old(self).pending_commands@).push(
            command@,
        ));
    }

    /// Appends an entry to the log.
    pub fn add_log_entry(&mut self, log_entry: LogEntry)
        ensures
            final(self)@ == (TabsModel { logs: old(self)@.logs.push(log_entry@), ..old(self)@ }),
    {
        self.push_log(log_entry);
    }

    /// Appends an entry with the given time stamp to the log.
    pub fn add_log_with_timestamp(&mut self, content: String, log_type: LogType, timestamp: String)
        ensures
            final(self)@ == (TabsModel {
                logs: old(self)@.logs.push(
                    LogEntryModel { timestamp: timestamp@, content: content@, log_type },
                ),
                ..old(self)@
            }),
    {
        self.push_log(LogEntry::new_with_timestamp(content, log_type, timestamp));
    }

    /// Logs a piece of information, stamped with the time of day.
    pub fn add_info(&mut self, message: String)
        ensures
            final(self)@.logs_one_more(old(self)@, message@, LogType::Info),
    {
        self.push_log(LogEntry::info(message));
        assert(self@.logs.drop_last() =~= old(self)@.logs);
    }

    /// Logs an error, stamped with the time of day.
    pub fn add_error(&mut self, message: String)
        ensures
            final(self)@.logs_one_more(old(self)@, message@, LogType::Error),
    {
        self.push_log(LogEntry::error(message));
        assert(self@.logs.drop_last() =~= old(self)@.logs);
    }

    /// Logs a warning, stamped with the time of day.
    pub fn add_warning(&mut self, message: String)
        ensures
            final(self)@.logs_one_more(old(self)@, message@, LogType::Warning),
    {
        self.push_log(LogEntry::warning(message));
        assert(self@.logs.drop_last() =~= old(self)@.logs);
    }

    /// Empties the log.
    pub fn clear_logs(&mut self)
        ensures
            final(self)@ == (TabsModel { logs: Seq::empty(), ..old(self)@ }),
    {
        self.logs.clear();
        assert(entries(self.logs@) =~= Seq::<LogEntryModel>::empty());
    }

    /// The number of entries in the log.
    pub fn log_count(&self) -> (count: usize)
        ensures
            count == self@.logs.len(),
    {
        self.logs.len()
    }

    /// The entries of the log, oldest first.
    pub fn logs(&self) -> (logs: &Vec<LogEntry>)
        ensures
            entries(logs@) == self@.logs,
    {
        &self.logs
    }
}

impl Tabs {
    /// Moves every line of output that has arrived from the session into
    /// the log, in order of arrival, each under the kind that its text
    /// gives it and stamped with the time of day. Never waits.
    pub fn update_from_gdb(&mut self, gdb: &mut Gdb)
        ensures
            final(gdb)@ == old(gdb)@.after_lines_taken(old(gdb)@.deliverable().len() as int),
            final(self)@ == (TabsModel { logs: final(self)@.logs, ..old(self)@ }),
            final(self)@.logs.len() == old(self)@.logs.len() + old(gdb)@.deliverable().len(),
            final(self)@.logs.subrange(0, old(self)@.logs.len() as int) == old(self)@.logs,
            forall|j: int|
                old(self)@.logs.len() <= j < final(self)@.logs.len() ==> logged_now(
                    #[trigger] final(self)@.logs[j],
                    old(gdb)@.deliverable()[j - old(self)@.logs.len()],
                    kind_of_output(old(gdb)@.deliverable()[j - old(self)@.logs.len()]),
                ),
    {
        let ghost start = gdb@;
        let ghost before = self@;
        let ghost taken = start.deliverable();
        assert(start.after_lines_taken(0) == start) by {
            assert(start.output.queue.skip(0) =~= start.output.queue);
        }
        assert(self@.logs.subrange(0, before.logs.len() as int) =~= before.logs);
        loop
            invariant
                self@ == (TabsModel { logs: self@.logs, ..before }),
                before.logs.len() <= self@.logs.len() <= before.logs.len() + taken.len(),
                self@.logs.subrange(0, before.logs.len() as int) == before.logs,
                forall|j: int|
                    before.logs.len() <= j < self@.logs.len() ==> logged_now(
                        #[trigger] self@.logs[j],
                        taken[j - before.logs.len()],
                        kind_of_output(taken[j - before.logs.len()]),
                    ),
                taken == start.deliverable(),
                gdb@ == start.after_lines_taken(self@.logs.len() - before.logs.len()),
            ensures
                self@ == (TabsModel { logs: self@.logs, ..before }),
                self@.logs.len() == before.logs.len() + taken.len(),
                self@.logs.subrange(0, before.logs.len() as int) == before.logs,
                forall|j: int|
                    before.logs.len() <= j < self@.logs.len() ==> logged_now(
                        #[trigger] self@.logs[j],
                        taken[j - before.logs.len()],
                        kind_of_output(taken[j - before.logs.len()]),
                    ),
                gdb@ == start.after_lines_taken(taken.len() as int),
            decreases before.logs.len() + taken.len() - self@.logs.len(),
        {
            let ghost done = self@.logs.len() - before.logs.len();
            let ghost logged = self@.logs;
            match gdb.try_receive_output() {
                Some(output) => {
                    let log_type = classify_output(output.as_str());
                    assert(start.output.receiver_open);
                    assert(start.output.queue.skip(done).len() > 0);
                    assert(output@ == taken[done]);
                    assert(gdb@ == start.after_lines_taken(done + 1)) by {
                        assert(start.output.queue.skip(done).drop_first()
                            =~= start.output.queue.skip(done + 1));
                    }
                    let entry = LogEntry::new(output, log_type);
                    self.push_log(entry);
                    assert(self@.logs.subrange(0, before.logs.len() as int) =~= logged.subrange(
                        0,
                        before.logs.len() as int,
                    ));
                },
                None => {
                    assert(done == taken.len()) by {
                        if start.output.receiver_open {
                            assert(start.output.queue.skip(done).len() == 0);
                        }
                    }
                    break ;
                },
            }
        }
    }

    /// Logs `command` as a command of the user and queues it for the
    /// debugger. The command is logged whether or not the session takes it.
    pub fn send_command_to_gdb(&mut self, command: &str, gdb: &mut Gdb) -> (sent: Result<
        (),
        SendFailure,
    >)
        ensures
            final(self)@.logs_one_more(old(self)@, command@, LogType::Command),
            final(gdb)@ == old(gdb)@.after_submit(command@),
            old(gdb)@.commands.accepts() ==> sent is Ok,
            !old(gdb)@.commands.accepts() ==> sent is Err && sent->Err_0.undelivered@
                == command@,
    {
        self.push_log(LogEntry::command(command.to_owned()));
        assert(self@.logs.drop_last() =~= old(self)@.logs);
        gdb.send_command(command.to_owned())
    }
}

/// How many of `pending` commands are handed to a session: all of them
/// while it takes commands, and only the first, which fails, where it does
/// not.
pub open spec fn handed_over(pending: Seq<Seq<char>>, accepts: bool) -> int {
    if accepts || pending.len() == 0 {
        pending.len() as int
    } else {
        1
    }
}

impl Tabs {
    /// Hands the pending commands to the session, oldest first, logging each
    /// as it goes, and leaves none pending. Stops at the first command that
    /// the session does not take and returns that failure; the commands
    /// behind it are dropped.
    pub fn process_pending_commands(&mut self, gdb: &mut Gdb) -> (sent: Result<(), SendFailure>)
        ensures
            final(gdb)@ == old(gdb)@.after_submit_all(old(self)@.pending_commands),
            final(self)@ == (TabsModel {
                logs: final(self)@.logs,
                pending_commands: Seq::empty(),
                ..old(self)@
            }),
            final(self)@.logs.len() == old(self)@.logs.len() + handed_over(
                old(self)@.pending_commands,
                old(gdb)@.commands.accepts(),
            ),
            final(self)@.logs.subrange(0, old(self)@.logs.len() as int) == old(self)@.logs,
            forall|j: int|
                old(self)@.logs.len() <= j < final(self)@.logs.len() ==> logged_now(
                    #[trigger] final(self)@.logs[j],
                    old(self)@.pending_commands[j - old(self)@.logs.len()],
                    LogType::Command,
                ),
            sent is Ok <==> old(gdb)@.commands.accepts() || old(self)@.pending_commands.len() == 0,
            sent is Err ==> sent->Err_0.undelivered@ == old(self)@.pending_commands[0],
    {
        let ghost start = gdb@;
        let ghost before = self@;
        let ghost pending = before.pending_commands;
        let commands = self.take_pending_commands();
        let ghost emptied = self@;
        assert(self@.logs.subrange(0, before.logs.len() as int) =~= before.logs);
        let mut i: usize = 0;
        while i < commands.len()
            invariant
                i <= commands@.len(),
                before == old(self)@,
                start == old(gdb)@,
                texts(commands@) == pending,
                pending == before.pending_commands,
                emptied == (TabsModel { pending_commands: Seq::empty(), ..before }),
                self@ == (TabsModel { logs: self@.logs, ..emptied }),
                self@.logs.len() == before.logs.len() + i,
                self@.logs.subrange(0, before.logs.len() as int) == before.logs,
                forall|j: int|
                    before.logs.len() <= j < self@.logs.len() ==> logged_now(
                        #[trigger] self@.logs[j],
                        pending[j - before.logs.len()],
                        LogType::Command,
                    ),
                gdb@ == start.after_submit_all(pending.take(i as int)),
                i > 0 ==> start.commands.accepts(),
            decreases commands@.len() - i,
        {
            let ghost logged = self@.logs;
            let ghost reached = gdb@;
            assert(commands@[i as int]@ == pending[i as int]);
            assert(pending.take(i + 1).drop_last() =~= pending.take(i as int));
            assert(pending.take(i + 1).last() == pending[i as int]);
            proof {
                if start.commands.accepts() {
                    crate::guarantees::lemma_send_all_appends(
                        start.commands,
                        pending.take(i as int),
                    );
                } else {
                    assert(pending.take(0) =~= Seq::<Seq<char>>::empty());
                }
            }
            match self.send_command_to_gdb(commands[i].as_str(), gdb) {
                Ok(()) => {},
                Err(failure) => {
                    assert(i == 0);
                    proof {
                        lemma_refused_commands_change_nothing(start.commands, pending);
                    }
                    assert(self@.logs.subrange(0, before.logs.len() as int) =~= logged.subrange(
                        0,
                        before.logs.len() as int,
                    ));
                    return Err(failure);
                },
            }
            assert(self@.logs.subrange(0, before.logs.len() as int) =~= logged.subrange(
                0,
                before.logs.len() as int,
            ));
            assert forall|j: int| before.logs.len() <= j < self@.logs.len() implies logged_now(
                #[trigger] self@.logs[j],
                pending[j - before.logs.len()],
                LogType::Command,
            ) by {
                if j < logged.len() {
                    assert(self@.logs[j] == self@.logs.drop_last()[j]);
                }
            }
            i += 1;
        }
        assert(pending.take(i as int) =~= pending);
        proof {
            if !start.commands.accepts() {
                lemma_refused_commands_change_nothing(start.commands, pending);
            }
        }
        Ok(())
    }
}

/// A channel that takes nothing is left as it is by any number of sends.
pub proof fn lemma_refused_commands_change_nothing(channel: ChannelModel, items: Seq<Seq<char>>)
    requires
        !channel.accepts(),
    ensures
        channel.after_send_all(items) == channel,
    decreases items.len(),
{
    if items.len() > 0 {
        lemma_refused_commands_change_nothing(channel, items.drop_last());
    }
}

impl Tabs {
    /// The command being typed in the console.
    pub fn console_input(&self) -> (text: &String)
        ensures
            text@ == self@.console_input,
    {
        &self.console_input
    }

    /// Replaces the command being typed in the console.
    pub fn set_console_input(&mut self, text: String)
        ensures
            final(self)@ == (TabsModel { console_input: text@, ..old(self)@ }),
    {
        self.console_input = text;
    }

    /// Takes the Enter key in the console's command line. A typed command
    /// becomes pending and is remembered as the last command, and the line
    /// is emptied. On an empty line the last command, if there is one,
    /// becomes pending once more.
    pub fn submit_console_input(&mut self)
        ensures
            final(self)@ == old(self)@.after_enter(),
    {
        if self.console_input.as_str().is_empty() {
            if !self.console_input_prev.as_str().is_empty() {
                let again = self.console_input_prev.clone();
                self.add_pending_command(again);
            }
        } else {
            let typed = self.console_input.clone();
            self.add_pending_command(typed);
            let mut line = String::new();
            std::mem::swap(&mut line, &mut self.console_input);
            self.console_input_prev = line;
        }
    }

    /// Whether the console follows its newest entry.
    pub fn scroll_lock(&self) -> (on: bool)
        ensures
            on == self@.scroll_lock,
    {
        self.scroll_lock
    }

    /// Says whether the console follows its newest entry.
    pub fn set_scroll_lock(&mut self, on: bool)
        ensures
            final(self)@ == (TabsModel { scroll_lock: on, ..old(self)@ }),
    {
        self.scroll_lock = on;
    }

    /// Says whether the console is to jump to its newest entry now, and if
    /// so takes note of the log's length, so that it jumps again only when
    /// the log has grown.
    pub fn auto_scroll(&mut self) -> (due: bool)
        ensures
            due == old(self)@.auto_scroll_due(),
            due ==> final(self)@ == (TabsModel {
                last_log_count: old(self)@.logs.len() as usize,
                ..old(self)@
            }),
            !due ==> final(self)@ == old(self)@,
    {
        let due = self.scroll_lock && self.logs.len() > self.last_log_count;
        if due {
            self.last_log_count = self.logs.len();
        }
        due
    }
}

/// The entry at position `base + offset` of a log.
pub open spec fn entry_at(logs: Seq<LogEntryModel>, base: int, offset: int) -> LogEntryModel {
    logs[base + offset]
}

/// What is logged when a session has just been started.
pub open spec fn started_text() -> Seq<char> {
    "GDB process started successfully"@
}

/// What is logged when no session could be started, for the given reason.
pub open spec fn not_started_text(reason: Seq<char>) -> Seq<char> {
    "Failed to spawn GDB: "@ + reason
}

/// What is logged when the session did not take a pending command.
pub open spec fn not_sent_text() -> Seq<char> {
    "Failed to process pending commands: "@ + send_failure_text()
}

impl TabsModel {
    /// Whether `self` is `before` after one exchange with a session that was
    /// `session` when the exchange began: the lines that had arrived are
    /// logged first, in order; then the pending commands that were handed
    /// over, in order; then, where the session did not take a command, the
    /// error that says so. Nothing is pending afterwards.
    pub open spec fn exchanged(self, before: TabsModel, session: SessionModel) -> bool {
        let lines = session.deliverable();
        let pending = before.pending_commands;
        let accepts = session.commands.accepts();
        let sent = handed_over(pending, accepts);
        let failed = !accepts && pending.len() > 0;
        let old_len = before.logs.len() as int;
        &&& self == (TabsModel { logs: self.logs, pending_commands: Seq::empty(), ..before })
        &&& self.logs.len() == old_len + lines.len() + sent + (if failed { 1int } else { 0 })
        &&& self.logs.subrange(0, old_len) == before.logs
        &&& forall|j: int|
            0 <= j < lines.len() ==> logged_now(
                #[trigger] entry_at(self.logs, old_len, j),
                lines[j],
                kind_of_output(lines[j]),
            )
        &&& forall|j: int|
            0 <= j < sent ==> logged_now(
                #[trigger] entry_at(self.logs, old_len + lines.len(), j),
                pending[j],
                LogType::Command,
            )
        &&& failed ==> logged_now(self.logs.last(), not_sent_text(), LogType::Error)
    }
}

impl Tabs {
    /// Takes note of how starting a session went. A session that started
    /// makes the debugger available and is logged as information; a failure
    /// is logged as an error with its reason and changes nothing else.
    pub fn note_spawn(&mut self, failure: Option<&str>)
        ensures
            match failure {
                None => final(self)@.logs_one_more(
                    TabsModel { gdb_available: true, ..old(self)@ },
                    started_text(),
                    LogType::Info,
                ),
                Some(reason) => final(self)@.logs_one_more(
                    old(self)@,
                    not_started_text(reason@),
                    LogType::Error,
                ),
            },
    {
        match failure {
            None => {
                self.set_gdb_available(true);
                self.add_info(String::from_str("GDB process started successfully"));
            },
            Some(reason) => {
                let mut message = String::from_str("Failed to spawn GDB: ");
                message.append(reason);
                self.add_error(message);
            },
        }
    }

    /// One exchange with the session, as it is made for every frame: first
    /// the output that has arrived is moved into the log, then the pending
    /// commands are handed over; a command that the session does not take
    /// is logged as an error. Never waits.
    pub fn exchange_with_gdb(&mut self, gdb: &mut Gdb)
        ensures
            final(gdb)@ == old(gdb)@.after_lines_taken(
                old(gdb)@.deliverable().len() as int,
            ).after_submit_all(old(self)@.pending_commands),
            final(self)@.exchanged(old(self)@, old(gdb)@),
    {
        let ghost before = self@;
        let ghost session = gdb@;
        let ghost lines = session.deliverable();
        let ghost pending = before.pending_commands;
        let ghost old_len = before.logs.len() as int;
        self.update_from_gdb(gdb);
        let ghost polled = self@;
        let sent = self.process_pending_commands(gdb);
        let ghost handed = self@;
        assert(handed.logs.subrange(0, old_len) =~= polled.logs.subrange(0, old_len)) by {
            assert(handed.logs.subrange(0, polled.logs.len() as int) == polled.logs);
        }
        assert forall|j: int| 0 <= j < lines.len() implies logged_now(
            #[trigger] entry_at(handed.logs, old_len, j),
            lines[j],
            kind_of_output(lines[j]),
        ) by {
            assert(handed.logs.subrange(0, polled.logs.len() as int)[old_len + j]
                == polled.logs[old_len + j]);
        }
        assert forall|j: int|
            0 <= j < handed.logs.len() - polled.logs.len() implies logged_now(
            #[trigger] entry_at(handed.logs, old_len + lines.len(), j),
            pending[j],
            LogType::Command,
        ) by {
            assert(logged_now(handed.logs[polled.logs.len() + j], pending[j], LogType::Command));
        }
        match sent {
            Ok(()) => {},
            Err(failure) => {
                let mut message = String::from_str("Failed to process pending commands: ");
                let reason = failure.message();
                message.append(reason.as_str());
                self.add_error(message);
                assert(self@.logs.drop_last() == handed.logs);
                assert(self@.logs.subrange(0, old_len) =~= handed.logs.subrange(0, old_len));
                assert forall|j: int| 0 <= j < lines.len() implies logged_now(
                    #[trigger] entry_at(self@.logs, old_len, j),
                    lines[j],
                    kind_of_output(lines[j]),
                ) by {
                    assert(self@.logs.drop_last()[old_len + j] == entry_at(
                        handed.logs,
                        old_len,
                        j,
                    ));
                }
                assert forall|j: int| 0 <= j < 1 implies logged_now(
                    #[trigger] entry_at(self@.logs, old_len + lines.len(), j),
                    pending[j],
                    LogType::Command,
                ) by {
                    assert(self@.logs.drop_last()[old_len + lines.len() + j] == entry_at(
                        handed.logs,
                        old_len + lines.len(),
                        j,
                    ));
                }
            },
        }
    }
}

/// What is done to the dock for a panel.
#[derive(Debug, Clone, Copy, PartialEq, Eq, Structural)]
pub enum DockChange {
    /// The panel is added to the leaf that has the focus.
    Add,
    /// The panel is taken out of the dock.
    Remove,
    /// The dock stays as it is.
    Keep,
}

/// What is done to the dock so that a panel, which `is_visible` says is in
/// the dock or not, is in the dock exactly if `visible` says so.
pub open spec fn change_towards(is_visible: bool, visible: bool) -> DockChange {
    if visible && !is_visible {
        DockChange::Add
    } else if !visible && is_visible {
        DockChange::Remove
    } else {
        DockChange::Keep
    }
}

/// What is done to the dock so that a panel is shown exactly if `visible`
/// says so.
pub fn visibility_change(is_visible: bool, visible: bool) -> (change: DockChange)
    ensures
        change == change_towards(is_visible, visible),
{
    if visible && !is_visible {
        DockChange::Add
    } else if !visible && is_visible {
        DockChange::Remove
    } else {
        DockChange::Keep
    }
}

/// What is done to the dock when a panel is toggled: a panel that is shown
/// is taken out, one that is not is added.
pub fn toggle_change(is_visible: bool) -> (change: DockChange)
    ensures
        change == change_towards(is_visible, !is_visible),
        change != DockChange::Keep,
{
    visibility_change(is_visible, !is_visible)
}

impl Tabs {
    /// Whether the line of the source at position `index`, counted from
    /// zero, has the focus.
    pub fn is_line_focused(&self, index: usize) -> (focused: bool)
        ensures
            focused <==> self@.focused_line is Some && self@.focused_line->Some_0 == index + 1,
    {
        match self.focused_line {
            Some(line_number) => index < usize::MAX && line_number == index + 1,
            None => false,
        }
    }
}

} // verus!
