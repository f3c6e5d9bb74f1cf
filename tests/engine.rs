use linutil_tui::ansi::strip_ansi;
use linutil_tui::launch::launch_plan;
use linutil_tui::logname::{current_timestamp, log_file_name, log_file_name_now, stamp, Timestamp};
use linutil_tui::output::OutputLog;
use linutil_tui::script::{compose_script, push_action, push_fragment, Action};
use linutil_tui::session::{
    completion_report, delivery_result, input_line, status_text, Completion, CompletionCell, KillSwitch,
    ReadOutcome, SessionError, WaitEvent,
};

fn raw(s: &str) -> Action {
    Action::RawShellLine(s.to_string())
}

fn local(program: &str, args: &[&str], file: &str) -> Action {
    Action::LocalExecutable {
        program: program.to_string(),
        args: args.iter().map(|a| a.to_string()).collect(),
        source_file: file.to_string(),
    }
}

#[test]
fn strip_removes_color_sequences() {
    assert_eq!(strip_ansi("\x1b[31mHello\x1b[0m"), "Hello");
}

#[test]
fn strip_drops_lone_escape_only() {
    assert_eq!(strip_ansi("\x1bXabc"), "Xabc");
}

#[test]
fn strip_keeps_plain_text() {
    let s = "plain text, no escapes: [brackets] ~ @";
    assert_eq!(strip_ansi(s), s);
    assert_eq!(strip_ansi(""), "");
}

#[test]
fn strip_unterminated_sequence_swallows_rest() {
    assert_eq!(strip_ansi("ok\x1b[12;34"), "ok");
}

#[test]
fn strip_double_escape_and_multibyte() {
    assert_eq!(strip_ansi("\x1b\x1b[1mé\x1b[Kz"), "éz");
    assert_eq!(strip_ansi("a\x1b"), "a");
}

#[test]
fn compose_two_raw_lines() {
    let actions = vec![raw("echo 1"), raw("echo 2")];
    assert_eq!(compose_script(&actions), "echo 1\necho 2\n");
}

#[test]
fn compose_local_executable_changes_directory() {
    let actions = vec![local("run.sh", &[], "/a/b/run.sh")];
    assert_eq!(compose_script(&actions), "cd /a/b\nrun.sh\n");
}

#[test]
fn compose_local_executable_with_args() {
    let actions = vec![local("./setup.sh", &["--yes", "x"], "/opt/t/setup.sh"), Action::NoOp];
    assert_eq!(compose_script(&actions), "cd /opt/t\n./setup.sh --yes x\n");
}

#[test]
fn compose_relative_and_empty_source_files() {
    assert_eq!(compose_script(&vec![local("run.sh", &[], "run.sh")]), "cd \nrun.sh\n");
    assert_eq!(compose_script(&vec![local("run.sh", &["a"], "")]), "run.sh a\n");
}

#[test]
fn compose_empty_and_noop() {
    assert_eq!(compose_script(&vec![]), "");
    assert_eq!(compose_script(&vec![Action::NoOp, Action::NoOp]), "");
}

#[test]
fn compose_keeps_duplicates_in_order() {
    let actions = vec![raw("a"), local("b", &[], "/x/b"), raw("a")];
    assert_eq!(compose_script(&actions), "a\ncd /x\nb\na\n");
}

#[test]
fn push_fragment_uses_given_parent() {
    let mut s = String::from("x\n");
    push_fragment(&mut s, &local("p", &["1"], "/ignored/p"), &Some("/given".to_string()));
    assert_eq!(s, "x\ncd /given\np 1\n");
    let mut t = String::new();
    push_fragment(&mut t, &local("p", &[], "/ignored/p"), &None);
    assert_eq!(t, "p\n");
    let mut u = String::new();
    push_action(&mut u, &raw("ls -l"));
    assert_eq!(u, "ls -l\n");
}

#[test]
fn reads_partition_the_log() {
    let mut log = OutputLog::new();
    let mut offset: usize = 0;
    let mut seen = String::new();
    log.append("one ");
    seen.push_str(&log.read_since(&mut offset));
    assert_eq!(offset, 4);
    log.append("two ");
    log.append("three");
    let chunk = log.read_since(&mut offset);
    assert_eq!(chunk, "two three");
    seen.push_str(&chunk);
    assert_eq!(log.read_since(&mut offset), "");
    assert_eq!(offset, 13);
    assert_eq!(seen, log.contents());
    assert_eq!(log.len(), 13);
}

#[test]
fn read_past_end_leaves_offset() {
    let mut log = OutputLog::new();
    log.append("abc");
    let mut offset: usize = 10;
    assert_eq!(log.read_since(&mut offset), "");
    assert_eq!(offset, 10);
    let mut start: usize = 1;
    assert_eq!(log.read_since(&mut start), "bc");
    assert_eq!(start, 3);
}

#[test]
fn ingest_filters_and_decodes() {
    let mut log = OutputLog::new();
    log.ingest(b"\x1b[32mok\x1b[0m\n");
    log.ingest(&[b'a', 0xff, b'b']);
    assert_eq!(log.contents(), "ok\na\u{fffd}b");
    log.append_output("\x1b[1mz");
    assert_eq!(log.contents(), "ok\na\u{fffd}bz");
}

#[test]
fn snapshot_after_more_output_extends_earlier() {
    let mut log = OutputLog::new();
    log.append("first\n");
    let earlier = log.contents();
    log.ingest(b"second\n");
    let later = log.contents();
    assert!(later.starts_with(&earlier));
    assert_eq!(later, "first\nsecond\n");
}

#[test]
fn on_read_decides_whether_to_continue() {
    let mut log = OutputLog::new();
    assert!(log.on_read(&ReadOutcome::Data(b"hi\x1b[0m".to_vec())));
    assert!(!log.on_read(&ReadOutcome::Data(Vec::new())));
    assert!(!log.on_read(&ReadOutcome::Failed));
    assert_eq!(log.contents(), "hi");
}

#[test]
fn completion_starts_unset_and_settles_once() {
    let mut cell = CompletionCell::new();
    assert_eq!(cell.get(), Completion::Unset);
    assert!(!cell.is_settled());
    assert!(cell.record(WaitEvent::Exited(true)));
    assert_eq!(cell.get(), Completion::Succeeded);
    assert!(!cell.record(WaitEvent::Exited(false)));
    assert!(!cell.record(WaitEvent::Failed));
    assert_eq!(cell.get(), Completion::Succeeded);
    assert!(cell.is_settled());
}

#[test]
fn completion_failure_and_wait_error() {
    let mut failed = CompletionCell::new();
    failed.record(WaitEvent::Exited(false));
    assert_eq!(failed.get(), Completion::Failed);
    let mut broken = CompletionCell::new();
    broken.record(WaitEvent::Failed);
    assert_eq!(broken.get(), Completion::WaitFailed);
}

#[test]
fn status_text_per_outcome() {
    assert_eq!(status_text(Completion::Unset), "Running...");
    assert_eq!(status_text(Completion::Succeeded), "Finished successfully.");
    assert_eq!(status_text(Completion::Failed), "Finished with errors.");
    assert_eq!(status_text(Completion::WaitFailed), "Could not wait for the command.");
}

#[test]
fn kill_twice_is_kill_once() {
    let mut switch = KillSwitch::new(7u32);
    assert!(switch.is_armed());
    assert_eq!(switch.take(), Some(7));
    assert!(!switch.is_armed());
    assert_eq!(switch.take(), None);
    assert!(!switch.is_armed());
}

#[test]
fn input_line_adds_terminator() {
    assert_eq!(input_line("yes"), "yes\n");
    assert_eq!(input_line(""), "\n");
}

#[test]
fn delivery_after_exit_is_reported() {
    assert_eq!(
        delivery_result(false, "Input/output error".to_string()),
        Err(SessionError::DeliveryFailed("Input/output error".to_string()))
    );
    assert_eq!(delivery_result(true, String::new()), Ok(()));
}

#[test]
fn launch_plan_forces_color() {
    let plan = launch_plan("echo hi\n");
    assert_eq!(plan.program, "sh");
    assert_eq!(plan.args, vec!["-c".to_string(), "echo hi\n".to_string()]);
    let env: Vec<(&str, &str)> = plan.env.iter().map(|(k, v)| (k.as_str(), v.as_str())).collect();
    assert_eq!(
        env,
        vec![("TERM", "xterm-256color"), ("COLORTERM", "truecolor"), ("FORCE_COLOR", "1"), ("NO_COLOR", "")]
    );
    assert_eq!((plan.rows, plan.cols), (24, 80));
}

#[test]
fn log_name_is_zero_padded() {
    let t = Timestamp { year: 2024, month: 3, day: 5, hour: 7, minute: 8, second: 9 };
    assert_eq!(log_file_name(t), "linutil_log_2024-03-05-07-08-09.log");
    let u = Timestamp { year: 12, month: 12, day: 31, hour: 23, minute: 59, second: 59 };
    assert_eq!(stamp(u), "0012-12-31-23-59-59");
    let v = Timestamp { year: -5, month: 1, day: 1, hour: 0, minute: 0, second: 0 };
    assert_eq!(stamp(v), "-0005-01-01-00-00-00");
}

#[test]
fn log_name_now_has_expected_shape() {
    let name = log_file_name_now();
    assert!(name.starts_with("linutil_log_"));
    assert!(name.ends_with(".log"));
    assert_eq!(name.len(), "linutil_log_".len() + 19 + 4);
    let t = current_timestamp();
    assert!((1..=12).contains(&t.month) && (1..=31).contains(&t.day));
    assert!(t.year >= 2000);
}

#[test]
fn failed_wait_is_reported_as_error() {
    assert_eq!(completion_report(Completion::WaitFailed), Err(SessionError::WaitFailed));
    assert_eq!(completion_report(Completion::Unset), Ok(Completion::Unset));
    assert_eq!(completion_report(Completion::Failed), Ok(Completion::Failed));
}
