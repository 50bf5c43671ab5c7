use gdbr::cli::Cli;
use gdbr::gdb::{Gdb, InputStep};
use gdbr::tab_viewer::TabViewer;
use gdbr::tabs::breakpoints::BreakpointsTab;
use gdbr::tabs::cmd_search::CmdSearchTab;
use gdbr::tabs::commands::CommandsTab;
use gdbr::tabs::console::ConsoleTab;
use gdbr::tabs::content::ContentTab;
use gdbr::tabs::data::DataTab;
use gdbr::tabs::exe::ExeTab;
use gdbr::tabs::files::FilesTab;
use gdbr::tabs::locals::LocalsTab;
use gdbr::tabs::registers::RegistersTab;
use gdbr::tabs::stack::StackTab;
use gdbr::tabs::struct_tab::StructTab;
use gdbr::tabs::thread::ThreadTab;
use gdbr::tabs::watch::WatchTab;
use gdbr::tabs::{
    classify_output, toggle_change, visibility_change, DockChange, LogEntry, LogType, Rgb, Tab,
    TabImpl, Tabs,
};
use gdbr::NAME;

fn assert_clock_stamp(stamp: &str) {
    let bytes = stamp.as_bytes();
    assert_eq!(bytes.len(), 10, "{stamp}");
    assert_eq!(bytes[0], b'[');
    assert_eq!(bytes[3], b':');
    assert_eq!(bytes[6], b':');
    assert_eq!(bytes[9], b']');
    for i in [1, 2, 4, 5, 7, 8] {
        assert!(bytes[i].is_ascii_digit(), "{stamp}");
    }
    let number = |i: usize| (bytes[i] - b'0') * 10 + (bytes[i + 1] - b'0');
    assert!(number(1) <= 23);
    assert!(number(4) <= 59);
    assert!(number(7) <= 60);
}

fn contents(tabs: &Tabs) -> Vec<(String, LogType)> {
    tabs.logs()
        .iter()
        .map(|entry| (entry.content.clone(), entry.log_type))
        .collect()
}

#[test]
fn name_of_the_application() {
    assert_eq!(NAME, "gdbr");
}

#[test]
fn colors_of_the_log_types() {
    let rgb = |r, g, b| Rgb { r, g, b };
    assert_eq!(LogType::Command.color(true), rgb(100, 150, 255));
    assert_eq!(LogType::Command.color(false), rgb(100, 150, 255));
    assert_eq!(LogType::Output.color(true), rgb(255, 255, 255));
    assert_eq!(LogType::Output.color(false), rgb(0, 0, 0));
    assert_eq!(LogType::Error.color(true), rgb(255, 100, 100));
    assert_eq!(LogType::Error.color(false), rgb(200, 50, 50));
    assert_eq!(LogType::Info.color(true), rgb(100, 255, 100));
    assert_eq!(LogType::Info.color(false), rgb(50, 150, 50));
    assert_eq!(LogType::Warning.color(true), rgb(255, 255, 100));
    assert_eq!(LogType::Warning.color(false), rgb(200, 150, 0));
}

#[test]
fn new_entries_carry_the_time_of_day() {
    let entry = LogEntry::new("x = 1".to_string(), LogType::Output);
    assert_eq!(entry.content, "x = 1");
    assert_eq!(entry.log_type, LogType::Output);
    assert_clock_stamp(&entry.timestamp);
}

#[test]
fn entries_by_kind() {
    let cases = [
        (LogEntry::command("c".to_string()), LogType::Command),
        (LogEntry::output("c".to_string()), LogType::Output),
        (LogEntry::error("c".to_string()), LogType::Error),
        (LogEntry::info("c".to_string()), LogType::Info),
        (LogEntry::warning("c".to_string()), LogType::Warning),
    ];
    for (entry, log_type) in cases {
        assert_eq!(entry.content, "c");
        assert_eq!(entry.log_type, log_type);
        assert_clock_stamp(&entry.timestamp);
    }
}

#[test]
fn entry_with_given_timestamp_is_shown_with_it() {
    let entry = LogEntry::new_with_timestamp(
        "Breakpoint 1, main ()".to_string(),
        LogType::Output,
        "[12:34:56]".to_string(),
    );
    assert_eq!(entry.timestamp, "[12:34:56]");
    assert_eq!(entry.format_for_display(), "[12:34:56] Breakpoint 1, main ()");
    let bare = LogEntry::new_with_timestamp(String::new(), LogType::Info, String::new());
    assert_eq!(bare.format_for_display(), " ");
}

#[test]
fn titles_of_the_panels() {
    let titles = [
        (Tab::Source, "Source"),
        (Tab::Console, "Console"),
        (Tab::Exe, "Exe"),
        (Tab::Breakpoints, "Breakpoints"),
        (Tab::Commands, "Commands"),
        (Tab::Struct, "Struct"),
        (Tab::Stack, "Stack"),
        (Tab::Files, "Files"),
        (Tab::Thread, "Thread"),
        (Tab::CmdSearch, "CmdSearch"),
        (Tab::Watch, "Watch"),
        (Tab::Locals, "Locals"),
        (Tab::Registers, "Registers"),
        (Tab::Data, "Data"),
    ];
    for (tab, title) in titles {
        assert_eq!(tab.title(), title);
    }
}

#[test]
fn titles_of_the_panel_types() {
    assert_eq!(BreakpointsTab::new().title(), "Breakpoints");
    assert_eq!(CmdSearchTab::new().title(), "CmdSearch");
    assert_eq!(CommandsTab::new().title(), "Commands");
    assert_eq!(ConsoleTab::new().title(), "Console");
    assert_eq!(ContentTab::new().title(), "Content");
    assert_eq!(DataTab::new().title(), "Data");
    assert_eq!(ExeTab::new().title(), "Exe");
    assert_eq!(FilesTab::new().title(), "Files");
    assert_eq!(LocalsTab::new().title(), "Locals");
    assert_eq!(RegistersTab::new().title(), "Registers");
    assert_eq!(StackTab::new().title(), "Stack");
    assert_eq!(StructTab::new().title(), "Struct");
    assert_eq!(ThreadTab::new().title(), "Thread");
    assert_eq!(WatchTab::new().title(), "Watch");
}

#[test]
fn output_is_classified_by_its_words() {
    assert_eq!(classify_output("No symbol table is loaded."), LogType::Output);
    assert_eq!(classify_output(""), LogType::Output);
    assert_eq!(classify_output("error: no such file"), LogType::Error);
    assert_eq!(classify_output("Error in re-setting breakpoint"), LogType::Error);
    assert_eq!(classify_output("warning: could not load symbols"), LogType::Warning);
    assert_eq!(classify_output("Warning:"), LogType::Warning);
    assert_eq!(classify_output("Type \"info line\""), LogType::Info);
    assert_eq!(classify_output("Info"), LogType::Info);
    assert_eq!(classify_output("ERROR"), LogType::Output);
    assert_eq!(classify_output("erro r"), LogType::Output);
    assert_eq!(classify_output("stderror"), LogType::Error);
}

#[test]
fn error_goes_before_warning_and_warning_before_info() {
    assert_eq!(classify_output("info warning error"), LogType::Error);
    assert_eq!(classify_output("Info: Warning"), LogType::Warning);
    assert_eq!(classify_output("warning, see info"), LogType::Warning);
}

#[test]
fn tabs_start_empty() {
    let mut tabs = Tabs::default();
    assert_eq!(tabs.log_count(), 0);
    assert!(tabs.logs().is_empty());
    assert!(!tabs.is_gdb_available());
    assert!(!tabs.scroll_lock());
    assert_eq!(tabs.focused_line(), None);
    assert_eq!(tabs.console_input(), "");
    assert!(tabs.take_pending_commands().is_empty());
}

#[test]
fn focus_and_availability_are_kept() {
    let mut tabs = Tabs::default();
    tabs.set_focused_line(Some(40));
    assert_eq!(tabs.focused_line(), Some(40));
    tabs.set_focused_line(None);
    assert_eq!(tabs.focused_line(), None);
    tabs.set_gdb_available(true);
    assert!(tabs.is_gdb_available());
    tabs.set_gdb_available(false);
    assert!(!tabs.is_gdb_available());
}

#[test]
fn pending_commands_are_taken_in_order_and_once() {
    let mut tabs = Tabs::default();
    tabs.add_pending_command("run".to_string());
    tabs.add_pending_command("bt".to_string());
    assert_eq!(tabs.take_pending_commands(), vec!["run", "bt"]);
    assert!(tabs.take_pending_commands().is_empty());
}

#[test]
fn log_grows_by_one_entry_for_each_message() {
    let mut tabs = Tabs::default();
    tabs.add_info("started".to_string());
    tabs.add_error("failed".to_string());
    tabs.add_warning("careful".to_string());
    tabs.add_log_entry(LogEntry::new_with_timestamp(
        "step".to_string(),
        LogType::Command,
        "[00:00:01]".to_string(),
    ));
    tabs.add_log_with_timestamp("done".to_string(), LogType::Output, "[00:00:02]".to_string());
    assert_eq!(tabs.log_count(), 5);
    assert_eq!(
        contents(&tabs),
        vec![
            ("started".to_string(), LogType::Info),
            ("failed".to_string(), LogType::Error),
            ("careful".to_string(), LogType::Warning),
            ("step".to_string(), LogType::Command),
            ("done".to_string(), LogType::Output),
        ]
    );
    for entry in &tabs.logs()[..3] {
        assert_clock_stamp(&entry.timestamp);
    }
    assert_eq!(tabs.logs()[3].timestamp, "[00:00:01]");
    assert_eq!(tabs.logs()[4].timestamp, "[00:00:02]");
    tabs.clear_logs();
    assert_eq!(tabs.log_count(), 0);
}

#[test]
fn update_from_gdb_logs_every_line_that_has_arrived() {
    let mut gdb = Gdb::new(1);
    let mut tabs = Tabs::default();
    tabs.add_info("before".to_string());
    assert!(gdb.output_read(b"Reading symbols\nwarning: no debug info\nError: x\npart"));
    tabs.update_from_gdb(&mut gdb);
    assert_eq!(
        contents(&tabs),
        vec![
            ("before".to_string(), LogType::Info),
            ("Reading symbols".to_string(), LogType::Output),
            ("warning: no debug info".to_string(), LogType::Warning),
            ("Error: x".to_string(), LogType::Error),
        ]
    );
    assert_eq!(gdb.try_receive_output(), None);
    tabs.update_from_gdb(&mut gdb);
    assert_eq!(tabs.log_count(), 4);
    assert!(gdb.output_read(b"ial\n"));
    tabs.update_from_gdb(&mut gdb);
    assert_eq!(tabs.log_count(), 5);
    assert_eq!(tabs.logs()[4].content, "partial");
    assert_clock_stamp(&tabs.logs()[4].timestamp);
}

#[test]
fn send_command_to_gdb_logs_and_queues() {
    let mut gdb = Gdb::new(1);
    let mut tabs = Tabs::default();
    assert!(tabs.send_command_to_gdb("next", &mut gdb).is_ok());
    assert_eq!(contents(&tabs), vec![("next".to_string(), LogType::Command)]);
    assert_eq!(gdb.next_input(), InputStep::Write("next\n".to_string()));
    assert!(!gdb.input_written(false));
    let refused = tabs.send_command_to_gdb("step", &mut gdb).unwrap_err();
    assert_eq!(refused.undelivered, "step");
    assert_eq!(tabs.log_count(), 2);
    assert_eq!(tabs.logs()[1].content, "step");
}

#[test]
fn process_pending_commands_hands_all_over() {
    let mut gdb = Gdb::new(1);
    let mut tabs = Tabs::default();
    tabs.add_pending_command("break main".to_string());
    tabs.add_pending_command("run".to_string());
    assert!(tabs.process_pending_commands(&mut gdb).is_ok());
    assert!(tabs.take_pending_commands().is_empty());
    assert_eq!(
        contents(&tabs),
        vec![
            ("break main".to_string(), LogType::Command),
            ("run".to_string(), LogType::Command),
        ]
    );
    assert_eq!(gdb.next_input(), InputStep::Write("break main\n".to_string()));
    assert_eq!(gdb.next_input(), InputStep::Write("run\n".to_string()));
    assert_eq!(gdb.next_input(), InputStep::Idle);
    assert!(tabs.process_pending_commands(&mut gdb).is_ok());
    assert_eq!(tabs.log_count(), 2);
}

#[test]
fn process_pending_commands_stops_at_the_first_refusal() {
    let mut gdb = Gdb::new(1);
    assert!(!gdb.input_written(false));
    let mut tabs = Tabs::default();
    tabs.add_pending_command("one".to_string());
    tabs.add_pending_command("two".to_string());
    let refused = tabs.process_pending_commands(&mut gdb).unwrap_err();
    assert_eq!(refused.undelivered, "one");
    assert_eq!(contents(&tabs), vec![("one".to_string(), LogType::Command)]);
    assert!(tabs.take_pending_commands().is_empty());
    assert!(tabs.process_pending_commands(&mut gdb).is_ok());
}

#[test]
fn exchange_logs_output_then_commands_then_the_failure() {
    let mut gdb = Gdb::new(1);
    let mut tabs = Tabs::default();
    assert!(gdb.output_read(b"(gdb) \n"));
    tabs.add_pending_command("run".to_string());
    tabs.exchange_with_gdb(&mut gdb);
    assert_eq!(
        contents(&tabs),
        vec![
            ("(gdb) ".to_string(), LogType::Output),
            ("run".to_string(), LogType::Command),
        ]
    );
    assert_eq!(gdb.next_input(), InputStep::Write("run\n".to_string()));
    assert!(!gdb.input_written(false));
    assert!(gdb.output_read(b"exited\n"));
    tabs.add_pending_command("bt".to_string());
    tabs.add_pending_command("up".to_string());
    tabs.exchange_with_gdb(&mut gdb);
    assert_eq!(
        contents(&tabs)[2..],
        [
            ("exited".to_string(), LogType::Output),
            ("bt".to_string(), LogType::Command),
            (
                "Failed to process pending commands: sending on a closed channel".to_string(),
                LogType::Error
            ),
        ]
    );
    assert!(tabs.take_pending_commands().is_empty());
    tabs.exchange_with_gdb(&mut gdb);
    assert_eq!(tabs.log_count(), 5);
}

#[test]
fn note_spawn_logs_success_and_failure() {
    let mut tabs = Tabs::default();
    tabs.note_spawn(Some("No such file or directory (os error 2)"));
    assert!(!tabs.is_gdb_available());
    tabs.note_spawn(None);
    assert!(tabs.is_gdb_available());
    assert_eq!(
        contents(&tabs),
        vec![
            (
                "Failed to spawn GDB: No such file or directory (os error 2)".to_string(),
                LogType::Error
            ),
            ("GDB process started successfully".to_string(), LogType::Info),
        ]
    );
}

#[test]
fn enter_queues_the_typed_command_and_empties_the_line() {
    let mut tabs = Tabs::default();
    tabs.set_console_input("info locals".to_string());
    assert_eq!(tabs.console_input(), "info locals");
    tabs.submit_console_input();
    assert_eq!(tabs.console_input(), "");
    assert_eq!(tabs.take_pending_commands(), vec!["info locals"]);
}

#[test]
fn enter_on_an_empty_line_repeats_the_last_command() {
    let mut tabs = Tabs::default();
    tabs.submit_console_input();
    assert!(tabs.take_pending_commands().is_empty());
    tabs.set_console_input("next".to_string());
    tabs.submit_console_input();
    tabs.submit_console_input();
    tabs.submit_console_input();
    assert_eq!(tabs.take_pending_commands(), vec!["next", "next", "next"]);
    tabs.set_console_input("step".to_string());
    tabs.submit_console_input();
    tabs.submit_console_input();
    assert_eq!(tabs.take_pending_commands(), vec!["step", "step"]);
}

#[test]
fn console_jumps_to_the_end_only_when_the_log_has_grown() {
    let mut tabs = Tabs::default();
    tabs.add_info("a".to_string());
    assert!(!tabs.auto_scroll());
    tabs.set_scroll_lock(true);
    assert!(tabs.scroll_lock());
    assert!(tabs.auto_scroll());
    assert!(!tabs.auto_scroll());
    tabs.add_info("b".to_string());
    assert!(tabs.auto_scroll());
    assert!(!tabs.auto_scroll());
    tabs.clear_logs();
    assert!(!tabs.auto_scroll());
}

#[test]
fn debugger_arguments_end_with_the_file() {
    let cli = Cli {
        rr_replay: false,
        executable: Some("a.out".to_string()),
        gdb_args: vec!["-q".to_string(), "--nx".to_string()],
    };
    assert_eq!(cli.debugger_arguments("/tmp/a.out"), vec!["-q", "--nx", "/tmp/a.out"]);
    let bare = Cli { rr_replay: true, executable: None, gdb_args: Vec::new() };
    assert_eq!(bare.debugger_arguments("prog"), vec!["prog"]);
}

#[test]
fn tab_viewer_notes_changes_of_the_layout() {
    let mut viewer = TabViewer::default();
    assert!(!viewer.is_modified());
    assert_eq!(viewer.title(&"Central".to_string()), "Central");
    assert_eq!(viewer.ui(&"Right".to_string()), "Content of Right");
    assert!(!viewer.is_modified());
    viewer.on_rect_changed();
    assert!(viewer.is_modified());
}

#[test]
fn panels_are_added_and_removed_only_when_needed() {
    assert_eq!(visibility_change(false, true), DockChange::Add);
    assert_eq!(visibility_change(true, false), DockChange::Remove);
    assert_eq!(visibility_change(true, true), DockChange::Keep);
    assert_eq!(visibility_change(false, false), DockChange::Keep);
    assert_eq!(toggle_change(true), DockChange::Remove);
    assert_eq!(toggle_change(false), DockChange::Add);
}

#[test]
fn focus_is_on_the_line_counted_from_one() {
    let mut tabs = Tabs::default();
    assert!(!tabs.is_line_focused(0));
    tabs.set_focused_line(Some(40));
    assert!(tabs.is_line_focused(39));
    assert!(!tabs.is_line_focused(40));
    assert!(!tabs.is_line_focused(usize::MAX));
    tabs.set_focused_line(Some(0));
    assert!(!tabs.is_line_focused(0));
    assert!(!tabs.is_line_focused(usize::MAX));
}
