//! The output sink: it decides, from its one bit of state (whether a newline
//! is still owed from the last committed line), which terminal operations and
//! file appends each rendering step must perform. The operations themselves
//! are carried out by the caller that owns the terminal and the file.

use vstd::prelude::*;

use crate::entry::{spec_render, Entry};

verus! {

/// One output operation the caller must perform, in order.
#[derive(PartialEq, Eq, Debug)]
pub enum Op {
    /// Advance the terminal past the previously committed line.
    Newline,
    /// Make the terminal cursor visible.
    ShowCursor,
    /// Hide the terminal cursor.
    HideCursor,
    /// Move the cursor to the start of the current line.
    CarriageReturn,
    /// Write the rendered line to the terminal.
    Print(String),
    /// Clear leftover characters of a previous, longer render.
    ClearToEol,
    /// Flush the terminal.
    FlushTerm,
    /// Append the given text, line terminator included, to the persistent file.
    FileLine(String),
    /// Write the given bytes as they are to the terminal and, when a
    /// persistent file is configured, to the file as well.
    RawBytes(Vec<u8>),
    /// Flush the persistent file, when one is configured, and the terminal.
    FlushAll,
}

/// The mathematical content of an [`Op`].
#[verifier::ext_equal]
pub ghost enum OpV {
    Newline,
    ShowCursor,
    HideCursor,
    CarriageReturn,
    Print(Seq<char>),
    ClearToEol,
    FlushTerm,
    FileLine(Seq<char>),
    RawBytes(Seq<u8>),
    FlushAll,
}

impl View for Op {
    type V = OpV;

    open spec fn view(&self) -> OpV {
        match self {
            Op::Newline => OpV::Newline,
            Op::ShowCursor => OpV::ShowCursor,
            Op::HideCursor => OpV::HideCursor,
            Op::CarriageReturn => OpV::CarriageReturn,
            Op::Print(s) => OpV::Print(s@),
            Op::ClearToEol => OpV::ClearToEol,
            Op::FlushTerm => OpV::FlushTerm,
            Op::FileLine(s) => OpV::FileLine(s@),
            Op::RawBytes(b) => OpV::RawBytes(b@),
            Op::FlushAll => OpV::FlushAll,
        }
    }
}

/// The operation sequence a vector of operations stands for.
pub open spec fn ops_view(ops: Seq<Op>) -> Seq<OpV> {
    ops.map_values(|o: Op| o@)
}

/// The mathematical content of a [`TiwiWriter`].
#[verifier::ext_equal]
pub ghost struct WriterV {
    /// Whether a persistent file is configured.
    pub file: bool,
    /// Whether a newline is owed before the next render.
    pub queued_newline: bool,
}

/// Emitting the owed newline, if any, before rendering anything else.
pub open spec fn spec_newline(w: WriterV) -> (WriterV, Seq<OpV>) {
    if w.queued_newline {
        (WriterV { file: w.file, queued_newline: false }, seq![OpV::Newline, OpV::ShowCursor])
    } else {
        (w, Seq::empty())
    }
}

/// A live update: the owed newline, then a full re-render of the current
/// line in place.
pub open spec fn spec_update(w: WriterV, line: Seq<char>) -> (WriterV, Seq<OpV>) {
    let (w1, pre) = spec_newline(w);
    (
        w1,
        pre + seq![OpV::CarriageReturn, OpV::Print(line), OpV::ClearToEol, OpV::FlushTerm],
    )
}

/// Marking a line complete: a live update, then a hidden cursor.
pub open spec fn spec_complete(w: WriterV, line: Seq<char>) -> (WriterV, Seq<OpV>) {
    let (w1, ops) = spec_update(w, line);
    (w1, ops + seq![OpV::HideCursor, OpV::FlushTerm])
}

/// Committing a line: a live update, the file append (line plus newline)
/// when a file is configured, a hidden cursor, and a newline owed to the
/// next render.
pub open spec fn spec_commit(w: WriterV, line: Seq<char>) -> (WriterV, Seq<OpV>) {
    let (w1, ops) = spec_update(w, line);
    let file_ops: Seq<OpV> = if w.file {
        seq![OpV::FileLine(line + seq!['\n'])]
    } else {
        Seq::empty()
    };
    (
        WriterV { file: w1.file, queued_newline: true },
        ops + file_ops + seq![OpV::HideCursor, OpV::FlushTerm],
    )
}

/// The sink's state. It owns no terminal and no file handle: it only decides
/// which operations each step must perform.
pub struct TiwiWriter {
    file: bool,
    queued_newline: bool,
}

impl View for TiwiWriter {
    type V = WriterV;

    closed spec fn view(&self) -> WriterV {
        WriterV { file: self.file, queued_newline: self.queued_newline }
    }
}

impl TiwiWriter {
    /// A sink that renders to the terminal only.
    pub fn stdout() -> (w: TiwiWriter)
        ensures
            w@ == (WriterV { file: false, queued_newline: false }),
    {
        TiwiWriter { file: false, queued_newline: false }
    }

    /// A sink that renders to the terminal and appends committed lines to a
    /// persistent file held by the caller.
    pub fn stdout_and_file() -> (w: TiwiWriter)
        ensures
            w@ == (WriterV { file: true, queued_newline: false }),
    {
        TiwiWriter { file: true, queued_newline: false }
    }

    /// The owed newline, if any.
    fn newline(&mut self, ops: &mut Vec<Op>)
        ensures
            ({
                let (w1, pre) = spec_newline(old(self)@);
                final (self)@ == w1 && ops_view(final (ops)@) == ops_view(old(ops)@) + pre
            }),
    {
        if self.queued_newline {
            ops.push(Op::Newline);
            ops.push(Op::ShowCursor);
            self.queued_newline = false;
        }
        proof {
            let (w1, pre) = spec_newline(old(self)@);
            assert(ops_view(ops@) =~~= ops_view(old(ops)@) + pre);
        }
    }

    /// A live update of the entry currently being typed: safe to repeat on
    /// every keystroke, since the whole line is re-rendered in place.
    pub fn update(&mut self, entry: &Entry) -> (r: Vec<Op>)
        ensures
            ({
                let (w1, ops) = spec_update(old(self)@, spec_render(entry@));
                final (self)@ == w1 && ops_view(r@) == ops
            }),
    {
        let mut r: Vec<Op> = Vec::new();
        self.newline(&mut r);
        r.push(Op::CarriageReturn);
        r.push(Op::Print(entry.render()));
        r.push(Op::ClearToEol);
        r.push(Op::FlushTerm);
        proof {
            let (w1, ops) = spec_update(old(self)@, spec_render(entry@));
            assert(ops_view(r@) =~~= ops);
        }
        r
    }

    /// Marks the line as finished but not yet committed: a live update with
    /// the cursor hidden afterwards.
    pub fn complete(&mut self, entry: &Entry) -> (r: Vec<Op>)
        ensures
            ({
                let (w1, ops) = spec_complete(old(self)@, spec_render(entry@));
                final (self)@ == w1 && ops_view(r@) == ops
            }),
    {
        let mut r = self.update(entry);
        r.push(Op::HideCursor);
        r.push(Op::FlushTerm);
        proof {
            let (w1, ops) = spec_complete(old(self)@, spec_render(entry@));
            assert(ops_view(r@) =~~= ops);
        }
        r
    }

    /// Commits the line: renders it, appends it with a line terminator to
    /// the persistent file when one is configured, hides the cursor, and
    /// owes the next render a newline.
    pub fn flush(&mut self, entry: &Entry) -> (r: Vec<Op>)
        ensures
            ({
                let (w1, ops) = spec_commit(old(self)@, spec_render(entry@));
                final (self)@ == w1 && ops_view(r@) == ops
            }),
    {
        let mut r = self.update(entry);
        if self.file {
            let mut line = entry.render();
            crate::digits::push_char(&mut line, '\n');
            r.push(Op::FileLine(line));
        }
        r.push(Op::HideCursor);
        r.push(Op::FlushTerm);
        self.queued_newline = true;
        proof {
            let (w1, ops) = spec_commit(old(self)@, spec_render(entry@));
            assert(spec_render(entry@).push('\n') =~= spec_render(entry@) + seq!['\n']);
            assert(ops_view(r@) =~~= ops);
        }
        r
    }

    /// The raw-byte write pass-through, for use as a generic writer before
    /// the interactive rendering engages: the bytes go to the terminal and,
    /// when a persistent file is configured, to the file as well. The sink's
    /// state is untouched.
    pub fn write(&self, buf: Vec<u8>) -> (r: Vec<Op>)
        ensures
            ops_view(r@) == seq![OpV::RawBytes(buf@)],
    {
        let ghost b = buf@;
        let mut r: Vec<Op> = Vec::new();
        r.push(Op::RawBytes(buf));
        proof {
            assert(ops_view(r@) =~~= seq![OpV::RawBytes(b)]);
        }
        r
    }

    /// The flush pass-through: flushes the persistent file, when one is
    /// configured, and the terminal. The sink's state is untouched.
    pub fn flush_all(&self) -> (r: Vec<Op>)
        ensures
            ops_view(r@) == seq![OpV::FlushAll],
    {
        let mut r: Vec<Op> = Vec::new();
        r.push(Op::FlushAll);
        proof {
            assert(ops_view(r@) =~~= seq![OpV::FlushAll]);
        }
        r
    }
}

/// Live updates are idempotent: right after one update, a second update with
/// the same rendered line owes no newline, re-renders exactly the same line
/// in place, and leaves the sink's state untouched.
pub proof fn lemma_live_update_idempotent(w: WriterV, line: Seq<char>)
    ensures
        ({
            let (w1, ops1) = spec_update(w, line);
            let (w2, ops2) = spec_update(w1, line);
            w2 == w1 && ops2 == seq![
                OpV::CarriageReturn,
                OpV::Print(line),
                OpV::ClearToEol,
                OpV::FlushTerm,
            ]
        }),
{
    let (w1, ops1) = spec_update(w, line);
    let (w2, ops2) = spec_update(w1, line);
    assert(ops2 =~~= seq![OpV::CarriageReturn, OpV::Print(line), OpV::ClearToEol, OpV::FlushTerm]);
}

} // verus!
