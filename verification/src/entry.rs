//! One timestamped log line: its text buffer, its fixed wall-clock timestamp
//! and its duration, resolved only once the next entry's instant is known.

use vstd::prelude::*;
use vstd::string::StringExecFns;

use crate::clock::{
    local_timestamp, now_ms, spec_has_numeric_offset, spec_has_utc_suffix, utc_timestamp,
};
use crate::digits::{push_char, spec_u64_digits, u64_to_string};

verus! {

/// The sentinel shown while an entry's duration is not yet resolved.
pub open spec fn spec_sentinel() -> Seq<char> {
    seq!['-', '-']
}

/// Rounded whole seconds of an elapsed time in milliseconds; a half second
/// rounds up.
pub open spec fn spec_round_secs(ms: int) -> int {
    ms / 1000 + if ms % 1000 >= 500 {
        1int
    } else {
        0int
    }
}

/// Rounded whole minutes of an elapsed time in milliseconds; a half minute
/// rounds up.
pub open spec fn spec_round_mins(ms: int) -> int {
    ms / 60000 + if ms % 60000 >= 30000 {
        1int
    } else {
        0int
    }
}

/// The duration display: rounded whole seconds suffixed `s` while they stay
/// within a minute, rounded whole minutes suffixed `m` beyond that.
pub open spec fn spec_duration_display(ms: int) -> Seq<char> {
    if spec_round_secs(ms) > 60 {
        spec_u64_digits(spec_round_mins(ms)).push('m')
    } else {
        spec_u64_digits(spec_round_secs(ms)).push('s')
    }
}

/// Elapsed milliseconds between two instants, zero if the clock regressed.
pub open spec fn spec_elapsed(from: u64, to: u64) -> int {
    if to >= from {
        to - from
    } else {
        0int
    }
}

/// The mathematical content of an [`Entry`].
#[verifier::ext_equal]
pub ghost struct EntryV {
    /// The successor's instant, set exactly once, when the next entry begins.
    pub next: Option<u64>,
    /// The creation instant, in milliseconds; used only for duration arithmetic.
    pub instant: u64,
    /// The wall-clock timestamp string, fixed at construction.
    pub datetime: Seq<char>,
    /// The duration display, the sentinel until resolved.
    pub duration: Seq<char>,
    /// The typed text.
    pub text: Seq<char>,
}

/// A fresh entry: empty text, unresolved duration, no successor.
pub open spec fn spec_entry_new(instant: u64, datetime: Seq<char>) -> EntryV {
    EntryV {
        next: None,
        instant,
        datetime,
        duration: spec_sentinel(),
        text: Seq::empty(),
    }
}

/// Resolving a duration against a successor instant: sets the successor and
/// the display once; an already resolved entry is left as it is.
pub open spec fn spec_resolve(e: EntryV, successor: u64) -> EntryV {
    if e.next is Some {
        e
    } else {
        EntryV {
            next: Some(successor),
            duration: spec_duration_display(spec_elapsed(e.instant, successor)),
            ..e
        }
    }
}

/// Appending one character: completion signals (carriage return, line feed)
/// are dropped; everything else, tab included, extends the text.
pub open spec fn spec_push(t: Seq<char>, ch: char) -> Seq<char> {
    if ch == '\r' || ch == '\n' {
        t
    } else {
        t.push(ch)
    }
}

/// Appending one character to an entry leaves every other field alone.
pub open spec fn spec_push_entry(e: EntryV, ch: char) -> EntryV {
    EntryV { text: spec_push(e.text, ch), ..e }
}

/// Removing the last character; empty text stays empty.
pub open spec fn spec_backspace(t: Seq<char>) -> Seq<char> {
    if t.len() == 0 {
        t
    } else {
        t.drop_last()
    }
}

/// Removing the last character of an entry leaves every other field alone.
pub open spec fn spec_backspace_entry(e: EntryV) -> EntryV {
    EntryV { text: spec_backspace(e.text), ..e }
}

/// The rendered line: timestamp, duration and text, tab-separated, with no
/// line terminator.
pub open spec fn spec_render(e: EntryV) -> Seq<char> {
    e.datetime + seq!['\t'] + e.duration + seq!['\t'] + e.text
}

/// Relies on String::pop (std): removes and returns the last character, or
/// returns None and changes nothing when the string is empty.
#[verifier::external_body]
fn pop_char(s: &mut String) -> (r: Option<char>)
    ensures
        old(s)@.len() == 0 ==> final(s)@ == old(s)@ && r is None,
        old(s)@.len() > 0 ==> final(s)@ == old(s)@.drop_last() && r == Some(old(s)@.last()),
{
    s.pop()
}

/// The unresolved duration display.
fn sentinel_string() -> (s: String)
    ensures
        s@ == spec_sentinel(),
{
    let s = String::from_str("--");
    proof {
        reveal_strlit("--");
        assert(s@ =~= spec_sentinel());
    }
    s
}

/// The duration display for an elapsed time in milliseconds.
pub fn format_duration(ms: u64) -> (s: String)
    ensures
        s@ == spec_duration_display(ms as int),
{
    let q: u64 = ms / 1000;
    let secs: u64 = if ms % 1000 >= 500 {
        q + 1
    } else {
        q
    };
    if secs > 60 {
        let qm: u64 = ms / 60000;
        let mins: u64 = if ms % 60000 >= 30000 {
            qm + 1
        } else {
            qm
        };
        let mut s = u64_to_string(mins);
        push_char(&mut s, 'm');
        s
    } else {
        let mut s = u64_to_string(secs);
        push_char(&mut s, 's');
        s
    }
}

pub struct Entry {
    next: Option<u64>,
    instant: u64,
    datetime: String,
    duration: String,
    entry: String,
}

impl View for Entry {
    type V = EntryV;

    closed spec fn view(&self) -> EntryV {
        EntryV {
            next: self.next,
            instant: self.instant,
            datetime: self.datetime@,
            duration: self.duration@,
            text: self.entry@,
        }
    }
}

impl Entry {
    /// A fresh entry from an instant and an already formatted timestamp.
    pub fn with_datetime(instant: u64, datetime: String) -> (e: Entry)
        ensures
            e@ == spec_entry_new(instant, datetime@),
    {
        let ghost dt = datetime@;
        let e = Entry {
            next: None,
            instant,
            datetime,
            duration: sentinel_string(),
            entry: String::new(),
        };
        proof {
            assert(e@ =~= spec_entry_new(instant, dt));
        }
        e
    }

    /// A fresh entry stamped with the current UTC wall-clock time.
    pub fn utc() -> (e: Entry)
        ensures
            e@.next is None,
            e@.duration == spec_sentinel(),
            e@.text == Seq::<char>::empty(),
            spec_has_utc_suffix(e@.datetime),
    {
        Entry::with_datetime(now_ms(), utc_timestamp())
    }

    /// A fresh entry stamped with the current local wall-clock time; its
    /// timestamp ends with the machine's numeric offset, `sign hh:mm`.
    pub fn local() -> (e: Entry)
        ensures
            e@.next is None,
            e@.duration == spec_sentinel(),
            e@.text == Seq::<char>::empty(),
            spec_has_numeric_offset(e@.datetime),
    {
        Entry::with_datetime(now_ms(), local_timestamp())
    }

    /// Resolves this entry's duration from the creation instant of the entry
    /// that comes next. The display is set exactly once: a second call, with
    /// any successor, leaves the entry unchanged.
    pub fn before(&mut self, next: &Entry)
        ensures
            final(self)@ == spec_resolve(old(self)@, next@.instant),
    {
        if self.next.is_none() {
            let elapsed: u64 = if next.instant >= self.instant {
                next.instant - self.instant
            } else {
                0
            };
            self.next = Some(next.instant);
            self.duration = format_duration(elapsed);
            proof {
                assert(self@ =~= spec_resolve(old(self)@, next@.instant));
            }
        }
    }

    /// Appends one character, silently dropping carriage returns and line
    /// feeds, which are completion signals rather than content.
    pub fn push(&mut self, ch: char)
        ensures
            final(self)@ == spec_push_entry(old(self)@, ch),
    {
        if ch == '\r' || ch == '\n' {
            return;
        }
        push_char(&mut self.entry, ch);
    }

    /// Removes the last character of the text; a no-op on empty text.
    pub fn backspace(&mut self)
        ensures
            final(self)@ == spec_backspace_entry(old(self)@),
    {
        let _ = pop_char(&mut self.entry);
    }

    /// The creation instant, in milliseconds.
    pub fn instant(&self) -> (r: u64)
        ensures
            r == self@.instant,
    {
        self.instant
    }

    /// The rendered line: `timestamp<TAB>duration<TAB>text`.
    pub fn render(&self) -> (r: String)
        ensures
            r@ == spec_render(self@),
    {
        let mut s = self.datetime.clone();
        s.append("\t");
        s.append(self.duration.as_str());
        s.append("\t");
        s.append(self.entry.as_str());
        proof {
            reveal_strlit("\t");
            assert(s@ =~= spec_render(self@));
        }
        s
    }

    /// The wall-clock timestamp string.
    pub fn datetime_str(&self) -> (r: &str)
        ensures
            r@ == self@.datetime,
    {
        self.datetime.as_str()
    }

    /// The duration display string.
    pub fn duration_str(&self) -> (r: &str)
        ensures
            r@ == self@.duration,
    {
        self.duration.as_str()
    }

    /// The typed text.
    pub fn text_str(&self) -> (r: &str)
        ensures
            r@ == self@.text,
    {
        self.entry.as_str()
    }
}

/// The duration display law: an elapsed time renders as its rounded whole
/// seconds suffixed `s` while those stay within a minute — in particular for
/// everything up to and a little past the sixty-second mark — and as its
/// rounded whole minutes suffixed `m` beyond that.
pub proof fn lemma_duration_display_form(ms: int)
    requires
        0 <= ms,
    ensures
        ms < 60500 ==> spec_duration_display(ms) == spec_u64_digits(spec_round_secs(ms)).push('s'),
        ms >= 60500 ==> spec_duration_display(ms) == spec_u64_digits(spec_round_mins(ms)).push('m'),
        60000 <= ms < 60500 ==> spec_duration_display(ms) == spec_u64_digits(60).push('s'),
{
    assert(ms == 1000 * (ms / 1000) + ms % 1000) by (nonlinear_arith);
    assert(0 <= ms % 1000 < 1000) by (nonlinear_arith)
        requires 0 <= ms,
    ;
    if ms < 60500 {
        assert(ms / 1000 <= 60) by (nonlinear_arith)
            requires 0 <= ms < 60500,
        ;
        if ms / 1000 == 60 && ms % 1000 >= 500 {
            assert(ms >= 60500);
        }
        assert(spec_round_secs(ms) <= 60);
    } else {
        if ms / 1000 < 60 {
            assert(ms < 60000) by (nonlinear_arith)
                requires ms / 1000 < 60, 0 <= ms,
            ;
        }
        if ms / 1000 == 60 {
            assert(ms % 1000 >= 500);
        }
        assert(spec_round_secs(ms) > 60);
    }
}

/// The resolution law, for an entry whose duration is not yet resolved (a
/// second resolution is a documented no-op): resolving against a successor
/// records the successor's instant, touches nothing else, and renders the
/// elapsed time as rounded whole seconds suffixed `s` while those stay
/// within a minute and as rounded whole minutes suffixed `m` beyond that.
/// In particular, one minute exactly and one minute plus four tenths still
/// render `60s`, while sixty-one seconds render `1m`.
pub proof fn lemma_resolve_duration_law(e: EntryV, succ: u64)
    requires
        e.next is None,
    ensures
        spec_resolve(e, succ).next == Some(succ),
        spec_resolve(e, succ).instant == e.instant,
        spec_resolve(e, succ).datetime == e.datetime,
        spec_resolve(e, succ).text == e.text,
        ({
            let ms = spec_elapsed(e.instant, succ);
            let d = spec_resolve(e, succ).duration;
            &&& ms < 60500 ==> d == spec_u64_digits(spec_round_secs(ms)).push('s')
            &&& ms >= 60500 ==> d == spec_u64_digits(spec_round_mins(ms)).push('m')
            &&& ms == 60000 ==> d == seq!['6', '0', 's']
            &&& ms == 60400 ==> d == seq!['6', '0', 's']
            &&& ms == 61000 ==> d == seq!['1', 'm']
        }),
{
    let ms = spec_elapsed(e.instant, succ);
    lemma_duration_display_form(ms);
    reveal_with_fuel(spec_u64_digits, 3);
    if ms == 60000 || ms == 60400 {
        assert(spec_duration_display(ms) =~= seq!['6', '0', 's']);
    }
    if ms == 61000 {
        assert(spec_duration_display(ms) =~= seq!['1', 'm']);
    }
}

/// Until `before` resolves it, an entry's duration display stays the
/// sentinel: a fresh entry starts with it, and neither appending nor
/// removing characters touches it.
pub proof fn lemma_duration_unresolved(e: EntryV, ch: char, instant: u64, datetime: Seq<char>)
    ensures
        spec_entry_new(instant, datetime).duration == spec_sentinel(),
        spec_push_entry(e, ch).duration == e.duration,
        spec_backspace_entry(e).duration == e.duration,
        spec_push_entry(e, ch).next == e.next,
        spec_backspace_entry(e).next == e.next,
{
}

/// Completion signals never change the text; a tab, typed through the tab
/// key, does.
pub proof fn lemma_push_filters_line_breaks(e: EntryV)
    ensures
        spec_push_entry(e, '\r') == e,
        spec_push_entry(e, '\n') == e,
        spec_push_entry(e, '\t').text == e.text.push('\t'),
        spec_push_entry(e, '\t').text != e.text,
{
    assert(spec_push_entry(e, '\r') =~= e);
    assert(spec_push_entry(e, '\n') =~= e);
    assert(e.text.push('\t').len() == e.text.len() + 1);
}

/// Backspace on empty text leaves the entry exactly as it was.
pub proof fn lemma_backspace_empty(e: EntryV)
    requires
        e.text.len() == 0,
    ensures
        spec_backspace_entry(e) == e,
{
    assert(spec_backspace_entry(e) =~= e);
}

} // verus!
