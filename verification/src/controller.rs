//! The input controller: classifies key presses into actions and drives the
//! entry lifecycle — the active entry receiving keystrokes and the completed
//! entry whose duration waits for its successor — together with the sink.

use vstd::prelude::*;

use crate::clock::{
    local_timestamp, now_ms, spec_has_numeric_offset, spec_has_utc_suffix, utc_timestamp,
};
use crate::entry::{
    spec_backspace_entry, spec_entry_new, spec_push_entry, spec_render, spec_resolve,
    spec_sentinel, Entry, EntryV,
};
use crate::writer::{
    ops_view, spec_commit, spec_complete, spec_update, Op, OpV, TiwiWriter, WriterV,
};

verus! {

/// A key read from the terminal, reduced to what classification looks at.
#[derive(Clone, Copy, PartialEq, Eq, Debug)]
pub enum Key {
    Enter,
    Backspace,
    Tab,
    Char(char),
    Null,
    Esc,
    Other,
}

/// One key press: the key, and whether the control modifier alone was held.
#[derive(Clone, Copy, PartialEq, Eq, Debug)]
pub struct KeyPress {
    pub key: Key,
    pub ctrl: bool,
}

/// What the controller does with one classified key press.
#[derive(Clone, Copy, PartialEq, Eq, Debug)]
pub enum Action {
    Append(char),
    Backspace,
    CompleteEntry,
    Continue,
    Terminate,
}

/// The classification rules: printable characters append, Enter or a typed
/// newline completes the entry, Tab appends a tab character, Escape, Null
/// and Control with `c` or `x` terminate, anything else is ignored.
pub open spec fn spec_classify(k: KeyPress) -> Action {
    match k.key {
        Key::Enter => Action::CompleteEntry,
        Key::Backspace => Action::Backspace,
        Key::Tab => Action::Append('\t'),
        Key::Char(ch) => if ch == '\n' {
            Action::CompleteEntry
        } else if k.ctrl && (ch == 'c' || ch == 'x') {
            Action::Terminate
        } else {
            Action::Append(ch)
        },
        Key::Null => Action::Terminate,
        Key::Esc => Action::Terminate,
        Key::Other => Action::Continue,
    }
}

/// Classifies one key press into the action the controller performs.
pub fn handle_key(key: KeyPress) -> (a: Action)
    ensures
        a == spec_classify(key),
{
    match key.key {
        Key::Enter => Action::CompleteEntry,
        Key::Backspace => Action::Backspace,
        Key::Tab => Action::Append('\t'),
        Key::Char(ch) => {
            if ch == '\n' {
                Action::CompleteEntry
            } else if key.ctrl && (ch == 'c' || ch == 'x') {
                Action::Terminate
            } else {
                Action::Append(ch)
            }
        },
        Key::Null => Action::Terminate,
        Key::Esc => Action::Terminate,
        Key::Other => Action::Continue,
    }
}

/// The mathematical content of a [`Controller`].
#[verifier::ext_equal]
pub ghost struct ControllerV {
    /// The entry currently receiving keystrokes, if any.
    pub new_entry: Option<EntryV>,
    /// The completed entry whose duration waits for its successor, if any.
    pub completed_entry: Option<EntryV>,
    /// Whether timestamps are taken in UTC rather than local time.
    pub utc: bool,
    /// The sink's state.
    pub writer: WriterV,
}

/// The terminate step: the completed entry, then the active entry, are
/// committed as they stand — an unresolved duration keeps its sentinel, no
/// synthetic successor is created — and the cursor is shown again.
pub open spec fn spec_terminate(s: ControllerV) -> (ControllerV, Seq<OpV>, bool) {
    let (w1, ops1) = match s.completed_entry {
        Some(c) => spec_commit(s.writer, spec_render(c)),
        None => (s.writer, Seq::<OpV>::empty()),
    };
    let (w2, ops2) = match s.new_entry {
        Some(e) => spec_commit(w1, spec_render(e)),
        None => (w1, Seq::<OpV>::empty()),
    };
    (
        ControllerV { new_entry: None, completed_entry: None, utc: s.utc, writer: w2 },
        ops1 + ops2 + seq![OpV::ShowCursor, OpV::FlushTerm],
        true,
    )
}

/// One controller step for a classified action, given the clock readings an
/// entry created by this step would be stamped with. Ignored events change
/// nothing; a terminate commits what exists and ends the loop; every other
/// action first ensures an active entry exists, then resolves and commits
/// the completed entry against it — which is why a duration is always one
/// entry behind — and then appends, removes or completes.
pub open spec fn spec_step(s: ControllerV, action: Action, instant: u64, datetime: Seq<char>) -> (
    ControllerV,
    Seq<OpV>,
    bool,
) {
    match action {
        Action::Continue => (s, Seq::<OpV>::empty(), false),
        Action::Terminate => spec_terminate(s),
        _ => {
            let active = match s.new_entry {
                Some(e) => e,
                None => spec_entry_new(instant, datetime),
            };
            let (w1, ops1) = match s.completed_entry {
                Some(c) => spec_commit(s.writer, spec_render(spec_resolve(c, active.instant))),
                None => (s.writer, Seq::<OpV>::empty()),
            };
            match action {
                Action::Append(ch) => {
                    let a2 = spec_push_entry(active, ch);
                    let (w2, ops2) = spec_update(w1, spec_render(a2));
                    (
                        ControllerV {
                            new_entry: Some(a2),
                            completed_entry: None,
                            utc: s.utc,
                            writer: w2,
                        },
                        ops1 + ops2,
                        false,
                    )
                },
                Action::Backspace => {
                    let a2 = spec_backspace_entry(active);
                    let (w2, ops2) = spec_update(w1, spec_render(a2));
                    (
                        ControllerV {
                            new_entry: Some(a2),
                            completed_entry: None,
                            utc: s.utc,
                            writer: w2,
                        },
                        ops1 + ops2,
                        false,
                    )
                },
                Action::CompleteEntry => {
                    let (w2, ops2) = spec_complete(w1, spec_render(active));
                    (
                        ControllerV {
                            new_entry: None,
                            completed_entry: Some(active),
                            utc: s.utc,
                            writer: w2,
                        },
                        ops1 + ops2,
                        false,
                    )
                },
                _ => (s, Seq::<OpV>::empty(), false),
            }
        },
    }
}

/// The controller: the two optional entry slots, the clock mode, and the
/// sink state.
pub struct Controller {
    new_entry: Option<Entry>,
    completed_entry: Option<Entry>,
    utc: bool,
    writer: TiwiWriter,
}

impl View for Controller {
    type V = ControllerV;

    closed spec fn view(&self) -> ControllerV {
        ControllerV {
            new_entry: match self.new_entry {
                Some(e) => Some(e@),
                None => None,
            },
            completed_entry: match self.completed_entry {
                Some(e) => Some(e@),
                None => None,
            },
            utc: self.utc,
            writer: self.writer@,
        }
    }
}

impl Controller {
    /// A controller with empty slots, the given clock mode, and a sink with
    /// or without a persistent file.
    pub fn new(utc: bool, file: bool) -> (c: Controller)
        ensures
            c@ == (ControllerV {
                new_entry: None,
                completed_entry: None,
                utc,
                writer: WriterV { file, queued_newline: false },
            }),
    {
        Controller {
            new_entry: None,
            completed_entry: None,
            utc,
            writer: if file {
                TiwiWriter::stdout_and_file()
            } else {
                TiwiWriter::stdout()
            },
        }
    }

    /// One controller step, with the clock readings passed in: the returned
    /// operations are to be performed in order, and the flag says whether
    /// the loop is over.
    pub fn step_with(&mut self, action: Action, instant: u64, datetime: String) -> (r: (
        Vec<Op>,
        bool,
    ))
        ensures
            ({
                let (s2, ops, done) = spec_step(old(self)@, action, instant, datetime@);
                &&& final (self)@ == s2
                &&& ops_view(r.0@) == ops
                &&& r.1 == done
            }),
    {
        let ghost dt = datetime@;
        let mut ops: Vec<Op> = Vec::new();
        match action {
            Action::Continue => {
                return (ops, false);
            },
            Action::Terminate => {
                match self.completed_entry.take() {
                    Some(c) => {
                        let mut o = self.writer.flush(&c);
                        ops.append(&mut o);
                    },
                    None => {},
                }
                match self.new_entry.take() {
                    Some(e) => {
                        let mut o = self.writer.flush(&e);
                        ops.append(&mut o);
                    },
                    None => {},
                }
                ops.push(Op::ShowCursor);
                ops.push(Op::FlushTerm);
                proof {
                    let (s2, sops, done) = spec_step(old(self)@, action, instant, dt);
                    assert(self@ =~~= s2);
                    assert(ops_view(ops@) =~~= sops);
                }
                return (ops, true);
            },
            _ => {},
        }
        let mut active: Entry = match self.new_entry.take() {
            Some(e) => e,
            None => Entry::with_datetime(instant, datetime),
        };
        match self.completed_entry.take() {
            Some(mut c) => {
                c.before(&active);
                let mut o = self.writer.flush(&c);
                ops.append(&mut o);
            },
            None => {},
        }
        match action {
            Action::Append(ch) => {
                active.push(ch);
                let mut o = self.writer.update(&active);
                ops.append(&mut o);
                self.new_entry = Some(active);
                proof {
                    let (s2, sops, done) = spec_step(old(self)@, action, instant, dt);
                    assert(self@ =~~= s2);
                    assert(ops_view(ops@) =~~= sops);
                }
                (ops, false)
            },
            Action::Backspace => {
                active.backspace();
                let mut o = self.writer.update(&active);
                ops.append(&mut o);
                self.new_entry = Some(active);
                proof {
                    let (s2, sops, done) = spec_step(old(self)@, action, instant, dt);
                    assert(self@ =~~= s2);
                    assert(ops_view(ops@) =~~= sops);
                }
                (ops, false)
            },
            Action::CompleteEntry => {
                let mut o = self.writer.complete(&active);
                ops.append(&mut o);
                self.completed_entry = Some(active);
                proof {
                    let (s2, sops, done) = spec_step(old(self)@, action, instant, dt);
                    assert(self@ =~~= s2);
                    assert(ops_view(ops@) =~~= sops);
                }
                (ops, false)
            },
            _ => {
                // Unreachable: ignored and terminating actions returned above.
                self.new_entry = Some(active);
                (ops, false)
            },
        }
    }

    /// Reads the clocks and performs one controller step for a key press:
    /// whatever the clocks returned, the step behaves as `step_with` on
    /// those readings, and a UTC controller stamps new entries with a
    /// timestamp ending in the explicit zero offset.
    pub fn step_key(&mut self, key: KeyPress) -> (r: (Vec<Op>, bool))
        ensures
            exists |instant: u64, datetime: Seq<char>|
                {
                    let (s2, ops, done) = #[trigger] spec_step(
                        old(self)@,
                        spec_classify(key),
                        instant,
                        datetime,
                    );
                    &&& final (self)@ == s2
                    &&& ops_view(r.0@) == ops
                    &&& r.1 == done
                    &&& (old(self)@.utc ==> spec_has_utc_suffix(datetime))
                    &&& (!old(self)@.utc ==> spec_has_numeric_offset(datetime))
                },
    {
        let action = handle_key(key);
        let instant = now_ms();
        let datetime = if self.utc {
            utc_timestamp()
        } else {
            local_timestamp()
        };
        let ghost dt = datetime@;
        let r = self.step_with(action, instant, datetime);
        proof {
            let (s2, sops, done) = spec_step(old(self)@, spec_classify(key), instant, dt);
            assert(self@ == s2 && ops_view(r.0@) == sops && r.1 == done);
        }
        r
    }
}

/// Ensures an active entry exists, creating one stamped with the configured
/// clock mode when none does.
pub fn create_entry(current: &mut Option<Entry>, utc: bool)
    ensures
        (*final (current)) is Some,
        (*old(current)) is Some ==> *final (current) == *old(current),
        (*old(current)) is None ==> ((*final (current)) matches Some(e) && e@.next is None
            && e@.duration == spec_sentinel() && e@.text == Seq::<char>::empty() && (utc
            ==> spec_has_utc_suffix(e@.datetime)) && (!utc ==> spec_has_numeric_offset(
            e@.datetime,
        ))),
{
    if current.is_none() {
        let e = if utc {
            Entry::utc()
        } else {
            Entry::local()
        };
        *current = Some(e);
    }
}

} // verus!
