use tiwi::controller::{create_entry, handle_key, Action, Controller, Key, KeyPress};
use tiwi::digits::u64_to_string;
use tiwi::entry::{format_duration, Entry};
use tiwi::writer::{Op, TiwiWriter};

fn entry_at(ms: u64, ts: &str) -> Entry {
    Entry::with_datetime(ms, ts.to_string())
}

fn resolved_duration(from_ms: u64, to_ms: u64) -> String {
    let mut e = entry_at(from_ms, "T1");
    let succ = entry_at(to_ms, "T2");
    e.before(&succ);
    e.duration_str().to_string()
}

fn print_strings(ops: &[Op]) -> Vec<String> {
    ops.iter()
        .filter_map(|o| match o {
            Op::Print(s) => Some(s.clone()),
            _ => None,
        })
        .collect()
}

fn file_lines(ops: &[Op]) -> Vec<String> {
    ops.iter()
        .filter_map(|o| match o {
            Op::FileLine(s) => Some(s.clone()),
            _ => None,
        })
        .collect()
}

#[test]
fn duration_seconds_form() {
    assert_eq!(resolved_duration(0, 30000), "30s");
    assert_eq!(resolved_duration(1000, 31000), "30s");
}

#[test]
fn duration_zero_elapsed() {
    assert_eq!(resolved_duration(5000, 5000), "0s");
}

#[test]
fn duration_clock_regression_is_zero() {
    assert_eq!(resolved_duration(100, 50), "0s");
}

#[test]
fn duration_rounds_half_up_seconds() {
    assert_eq!(resolved_duration(0, 1499), "1s");
    assert_eq!(resolved_duration(0, 1500), "2s");
}

#[test]
fn duration_boundary_exactly_sixty_seconds() {
    assert_eq!(resolved_duration(0, 60000), "60s");
}

#[test]
fn duration_boundary_just_past_sixty_seconds_stays_seconds() {
    assert_eq!(resolved_duration(0, 60400), "60s");
}

#[test]
fn duration_sixty_one_seconds_is_one_minute() {
    assert_eq!(resolved_duration(0, 61000), "1m");
}

#[test]
fn duration_minutes_rounding() {
    assert_eq!(resolved_duration(0, 89000), "1m");
    assert_eq!(resolved_duration(0, 90000), "2m");
    assert_eq!(resolved_duration(0, 150000), "3m");
}

#[test]
fn format_duration_direct() {
    assert_eq!(format_duration(0), "0s");
    assert_eq!(format_duration(499), "0s");
    assert_eq!(format_duration(500), "1s");
    assert_eq!(format_duration(60000), "60s");
    assert_eq!(format_duration(60500), "1m");
}

#[test]
fn resolve_is_set_exactly_once() {
    let mut e = entry_at(0, "T1");
    let succ = entry_at(30000, "T2");
    e.before(&succ);
    assert_eq!(e.duration_str(), "30s");
    e.before(&succ);
    assert_eq!(e.duration_str(), "30s");
    let other = entry_at(90000, "T3");
    e.before(&other);
    assert_eq!(e.duration_str(), "30s");
}

#[test]
fn duration_is_sentinel_until_resolved() {
    let mut e = entry_at(0, "T");
    assert_eq!(e.duration_str(), "--");
    e.push('a');
    assert_eq!(e.duration_str(), "--");
    e.backspace();
    assert_eq!(e.duration_str(), "--");
}

#[test]
fn push_drops_carriage_return_and_line_feed() {
    let mut e = entry_at(0, "T");
    e.push('a');
    e.push('\r');
    e.push('\n');
    assert_eq!(e.text_str(), "a");
}

#[test]
fn push_keeps_tab() {
    let mut e = entry_at(0, "T");
    e.push('\t');
    assert_eq!(e.text_str(), "\t");
}

#[test]
fn backspace_on_empty_text_is_a_no_op() {
    let mut e = entry_at(0, "T");
    e.backspace();
    assert_eq!(e.text_str(), "");
    assert_eq!(e.duration_str(), "--");
}

#[test]
fn backspace_removes_last_character() {
    let mut e = entry_at(0, "T");
    e.push('a');
    e.push('b');
    e.backspace();
    assert_eq!(e.text_str(), "a");
}

#[test]
fn render_is_tab_separated() {
    let mut e = entry_at(0, "2024-01-01T00:00:00+00:00");
    e.push('h');
    e.push('i');
    assert_eq!(e.render(), "2024-01-01T00:00:00+00:00\t--\thi");
}

#[test]
fn utc_timestamps_end_with_zero_offset() {
    let e = Entry::utc();
    assert!(e.datetime_str().ends_with("+00:00"));
    assert_eq!(e.duration_str(), "--");
    assert_eq!(e.text_str(), "");
}

#[test]
fn local_timestamps_carry_a_numeric_offset() {
    let e = Entry::local();
    let ts = e.datetime_str();
    let tail: Vec<char> = ts.chars().rev().take(6).collect();
    // tail is reversed: "mm:hh±" backwards.
    assert_eq!(tail.len(), 6);
    assert!(tail[5] == '+' || tail[5] == '-');
    assert!(tail[4].is_ascii_digit() && tail[3].is_ascii_digit());
    assert_eq!(tail[2], ':');
    assert!(tail[1].is_ascii_digit() && tail[0].is_ascii_digit());
}

#[test]
fn create_entry_fills_an_empty_slot() {
    let mut slot: Option<Entry> = None;
    create_entry(&mut slot, true);
    let e = slot.as_ref().unwrap();
    assert!(e.datetime_str().ends_with("+00:00"));
    assert_eq!(e.duration_str(), "--");
    assert_eq!(e.text_str(), "");
}

#[test]
fn create_entry_local_mode_has_a_numeric_offset() {
    let mut slot: Option<Entry> = None;
    create_entry(&mut slot, false);
    let ts = slot.as_ref().unwrap().datetime_str().to_string();
    let tail: Vec<char> = ts.chars().collect::<Vec<char>>()[ts.chars().count() - 6..].to_vec();
    assert!(tail[0] == '+' || tail[0] == '-');
    assert!(tail[1].is_ascii_digit() && tail[2].is_ascii_digit());
    assert_eq!(tail[3], ':');
    assert!(tail[4].is_ascii_digit() && tail[5].is_ascii_digit());
}

#[test]
fn create_entry_keeps_an_occupied_slot() {
    let mut slot: Option<Entry> = Some(entry_at(7, "T"));
    create_entry(&mut slot, false);
    assert_eq!(slot.as_ref().unwrap().render(), "T\t--\t");
}

#[test]
fn classification_rules() {
    let plain = |key| KeyPress { key, ctrl: false };
    assert_eq!(handle_key(plain(Key::Enter)), Action::CompleteEntry);
    assert_eq!(handle_key(plain(Key::Backspace)), Action::Backspace);
    assert_eq!(handle_key(plain(Key::Tab)), Action::Append('\t'));
    assert_eq!(handle_key(plain(Key::Char('a'))), Action::Append('a'));
    assert_eq!(handle_key(plain(Key::Char('\n'))), Action::CompleteEntry);
    assert_eq!(handle_key(plain(Key::Null)), Action::Terminate);
    assert_eq!(handle_key(plain(Key::Esc)), Action::Terminate);
    assert_eq!(handle_key(plain(Key::Other)), Action::Continue);
    let ctrl = |key| KeyPress { key, ctrl: true };
    assert_eq!(handle_key(ctrl(Key::Char('c'))), Action::Terminate);
    assert_eq!(handle_key(ctrl(Key::Char('x'))), Action::Terminate);
    assert_eq!(handle_key(ctrl(Key::Char('q'))), Action::Append('q'));
}

#[test]
fn update_rerenders_the_whole_line() {
    let mut w = TiwiWriter::stdout();
    let e = entry_at(0, "T");
    let ops = w.update(&e);
    assert_eq!(
        ops,
        vec![
            Op::CarriageReturn,
            Op::Print("T\t--\t".to_string()),
            Op::ClearToEol,
            Op::FlushTerm,
        ]
    );
}

#[test]
fn update_twice_renders_identically() {
    let mut w = TiwiWriter::stdout();
    let e = entry_at(0, "T");
    let first = w.update(&e);
    let second = w.update(&e);
    assert_eq!(first, second);
    assert_eq!(print_strings(&second), vec!["T\t--\t".to_string()]);
}

#[test]
fn complete_hides_the_cursor() {
    let mut w = TiwiWriter::stdout();
    let e = entry_at(0, "T");
    let ops = w.complete(&e);
    assert_eq!(
        ops,
        vec![
            Op::CarriageReturn,
            Op::Print("T\t--\t".to_string()),
            Op::ClearToEol,
            Op::FlushTerm,
            Op::HideCursor,
            Op::FlushTerm,
        ]
    );
}

#[test]
fn commit_appends_the_line_to_the_file_and_owes_a_newline() {
    let mut w = TiwiWriter::stdout_and_file();
    let e = entry_at(0, "T");
    let ops = w.flush(&e);
    assert_eq!(file_lines(&ops), vec!["T\t--\t\n".to_string()]);
    // The next render advances past the committed line first.
    let next = w.update(&e);
    assert_eq!(next[0], Op::Newline);
    assert_eq!(next[1], Op::ShowCursor);
}

#[test]
fn commit_without_a_file_writes_no_file_line() {
    let mut w = TiwiWriter::stdout();
    let e = entry_at(0, "T");
    let ops = w.flush(&e);
    assert!(file_lines(&ops).is_empty());
}

#[test]
fn raw_byte_pass_through() {
    let w = TiwiWriter::stdout_and_file();
    let ops = w.write(vec![104, 105]);
    assert_eq!(ops, vec![Op::RawBytes(vec![104, 105])]);
    let ops = w.flush_all();
    assert_eq!(ops, vec![Op::FlushAll]);
}

#[test]
fn scenario_two_entries_then_terminate() {
    let mut c = Controller::new(false, true);
    let mut all_file_lines: Vec<String> = Vec::new();
    let mut step = |c: &mut Controller, a: Action, ms: u64, ts: &str| -> bool {
        let (ops, done) = c.step_with(a, ms, ts.to_string());
        all_file_lines.extend(file_lines(&ops));
        done
    };
    for ch in "hello".chars() {
        assert!(!step(&mut c, Action::Append(ch), 1000, "TS1"));
    }
    assert!(!step(&mut c, Action::CompleteEntry, 1000, "TS1"));
    for ch in "world".chars() {
        assert!(!step(&mut c, Action::Append(ch), 31000, "TS2"));
    }
    assert!(!step(&mut c, Action::CompleteEntry, 31000, "TS2"));
    assert!(step(&mut c, Action::Terminate, 32000, "TS3"));
    assert_eq!(
        all_file_lines,
        vec![
            "TS1\t30s\thello\n".to_string(),
            "TS2\t--\tworld\n".to_string(),
        ]
    );
}

#[test]
fn scenario_terminate_commits_the_active_entry_unresolved() {
    let mut c = Controller::new(false, true);
    let (_, done) = c.step_with(Action::Append('a'), 10, "TS".to_string());
    assert!(!done);
    let (ops, done) = c.step_with(Action::Terminate, 20, "TS2".to_string());
    assert!(done);
    assert_eq!(file_lines(&ops), vec!["TS\t--\ta\n".to_string()]);
    let last_two = &ops[ops.len() - 2..];
    assert_eq!(last_two, &[Op::ShowCursor, Op::FlushTerm]);
}

#[test]
fn scenario_backspace_on_fresh_entry_still_redraws() {
    let mut c = Controller::new(false, true);
    let (ops, done) = c.step_with(Action::Backspace, 10, "TS".to_string());
    assert!(!done);
    assert_eq!(
        ops,
        vec![
            Op::CarriageReturn,
            Op::Print("TS\t--\t".to_string()),
            Op::ClearToEol,
            Op::FlushTerm,
        ]
    );
}

#[test]
fn ignored_events_change_nothing() {
    let mut c = Controller::new(false, true);
    let (ops, done) = c.step_with(Action::Continue, 10, "TS".to_string());
    assert!(ops.is_empty());
    assert!(!done);
}

#[test]
fn terminate_with_empty_slots_only_restores_the_cursor() {
    let mut c = Controller::new(true, false);
    let (ops, done) = c.step_with(Action::Terminate, 10, "TS".to_string());
    assert!(done);
    assert_eq!(ops, vec![Op::ShowCursor, Op::FlushTerm]);
}

#[test]
fn step_key_terminates_on_escape() {
    let mut c = Controller::new(true, false);
    let (_, done) = c.step_key(KeyPress { key: Key::Esc, ctrl: false });
    assert!(done);
}

#[test]
fn step_key_types_a_character() {
    let mut c = Controller::new(true, false);
    let (ops, done) = c.step_key(KeyPress { key: Key::Char('a'), ctrl: false });
    assert!(!done);
    let prints = print_strings(&ops);
    assert_eq!(prints.len(), 1);
    assert!(prints[0].ends_with("\t--\ta"));
    assert!(prints[0].contains("+00:00"));
}

#[test]
fn decimal_rendering() {
    assert_eq!(u64_to_string(0), "0");
    assert_eq!(u64_to_string(7), "7");
    assert_eq!(u64_to_string(42), "42");
    assert_eq!(u64_to_string(1000), "1000");
    assert_eq!(u64_to_string(u64::MAX), "18446744073709551615");
}
