//! An indentation-tracking writer for C-like generated code (Swift,
//! TypeScript, Go, ...).
use vstd::prelude::*;
use vstd::string::StringExecFns;

use crate::text::{all_ws, is_blank, lines_of, push_char, push_chars, split_lines};

verus! {

#[verifier::external_type_specification]
#[verifier::external_body]
pub struct ExFmtError(std::fmt::Error);

/// The abstract state of a [`CodeWriter`].
pub ghost struct WriterState {
    /// Everything written so far.
    pub out: Seq<char>,
    /// Current indentation depth.
    pub level: nat,
    /// The text written once per indentation level.
    pub unit: Seq<char>,
    /// Whether nothing has been written on the current line yet.
    pub at_line_start: bool,
}

/// `unit` written `n` times.
pub open spec fn repeat(unit: Seq<char>, n: nat) -> Seq<char>
    decreases n,
{
    if n == 0 {
        Seq::empty()
    } else {
        repeat(unit, (n - 1) as nat) + unit
    }
}

/// The state after writing `text` without a newline: indentation is
/// emitted first when the text starts a line and is not blank.
pub open spec fn after_write(st: WriterState, text: Seq<char>) -> WriterState {
    if text.len() == 0 {
        st
    } else if st.at_line_start && !all_ws(text) {
        WriterState { out: st.out + repeat(st.unit, st.level) + text, at_line_start: false, ..st }
    } else {
        WriterState { out: st.out + text, ..st }
    }
}

/// The state after ending the current line.
pub open spec fn after_newline(st: WriterState) -> WriterState {
    WriterState { out: st.out.push('\n'), at_line_start: true, ..st }
}

/// The state after writing `text` followed by a newline.
pub open spec fn after_writeln(st: WriterState, text: Seq<char>) -> WriterState {
    after_newline(after_write(st, text))
}

/// One indentation level less, never below zero.
pub open spec fn dedented(st: WriterState) -> WriterState {
    WriterState { level: if st.level == 0 { 0 } else { (st.level - 1) as nat }, ..st }
}

/// `prefix`, a space, then `text`: how comment lines are formed.
pub open spec fn prefixed(prefix: Seq<char>, text: Seq<char>) -> Seq<char> {
    prefix.push(' ') + text
}

/// The state after writing each line as a comment line, in order.
pub open spec fn after_comment_lines(st: WriterState, prefix: Seq<char>, lines: Seq<Seq<char>>) -> WriterState
    decreases lines.len(),
{
    if lines.len() == 0 {
        st
    } else {
        after_comment_lines(
            after_writeln(st, prefixed(prefix, lines[0])),
            prefix,
            lines.drop_first(),
        )
    }
}

/// Dedenting undoes an indent: the writer is back at the level it had,
/// with its output and line state untouched.
pub proof fn law_dedent_undoes_indent(st: WriterState)
    ensures
        dedented(WriterState { level: st.level + 1, ..st }) == st,
{
}

/// What a writer operation does to the indentation: open a level (`indent`,
/// `begin_block`), close one (`dedent`, `end_block`), or leave it (writes).
pub ghost enum LevelStep {
    Open,
    Close,
    Keep,
}

/// The number of levels opened and not yet closed by `steps`.
pub open spec fn open_levels(steps: Seq<LevelStep>) -> int
    decreases steps.len(),
{
    if steps.len() == 0 {
        0
    } else {
        open_levels(steps.drop_last()) + match steps.last() {
            LevelStep::Open => 1int,
            LevelStep::Close => -1int,
            LevelStep::Keep => 0int,
        }
    }
}

/// The indentation level counts the guards still open: starting from a
/// fresh writer (level 0), after steps that close only levels they opened
/// (every guard is handed back at most once), the level is the number of
/// levels opened and not yet closed. `states` are the writer's states
/// around the steps.
pub proof fn law_level_counts_open_guards(states: Seq<WriterState>, steps: Seq<LevelStep>)
    requires
        states.len() == steps.len() + 1,
        states[0].level == 0,
        forall|i: int| 0 <= i <= steps.len() ==> open_levels(#[trigger] steps.take(i)) >= 0,
        forall|i: int|
            0 <= i < steps.len() ==> match #[trigger] steps[i] {
                LevelStep::Open => states[i + 1].level == states[i].level + 1,
                LevelStep::Close => states[i + 1] == dedented(states[i]),
                LevelStep::Keep => states[i + 1].level == states[i].level,
            },
    ensures
        states.last().level == open_levels(steps),
    decreases steps.len(),
{
    if steps.len() > 0 {
        let n = steps.len() - 1;
        let s0 = states.subrange(0, n + 1);
        let p0 = steps.subrange(0, n);
        assert(steps.drop_last() =~= p0);
        assert forall|i: int| 0 <= i <= p0.len() implies open_levels(#[trigger] p0.take(i)) >= 0 by {
            assert(p0.take(i) =~= steps.take(i));
        }
        assert forall|i: int| 0 <= i < p0.len() implies match #[trigger] p0[i] {
            LevelStep::Open => s0[i + 1].level == s0[i].level + 1,
            LevelStep::Close => s0[i + 1] == dedented(s0[i]),
            LevelStep::Keep => s0[i + 1].level == s0[i].level,
        } by {
            assert(p0[i] == steps[i]);
        }
        law_level_counts_open_guards(s0, p0);
        assert(steps.take(steps.len() as int) =~= steps);
        assert(open_levels(steps.take(steps.len() as int)) >= 0);
        assert(states[n] == s0.last());
        assert(steps.last() == steps[n]);
    }
}

/// A code writer that tracks indentation and provides helpers for generating
/// C-like syntax (used by Swift, TypeScript, Go, etc.)
pub struct CodeWriter {
    writer: String,
    indent_level: usize,
    indent_string: String,
    at_line_start: bool,
}

impl View for CodeWriter {
    type V = WriterState;

    closed spec fn view(&self) -> WriterState {
        WriterState {
            out: self.writer@,
            level: self.indent_level as nat,
            unit: self.indent_string@,
            at_line_start: self.at_line_start,
        }
    }
}

/// Marks an indentation level opened by [`CodeWriter::indent`]; hand it back
/// to [`CodeWriter::dedent`] to close the level.
pub struct IndentGuard {
    _private: (),
}

impl CodeWriter {
    /// Create a new CodeWriter with the given writer and indent string (e.g., "    " or "\t")
    pub fn new(writer: String, indent_string: String) -> (w: Self)
        ensures
            w@ == (WriterState {
                out: writer@,
                level: 0,
                unit: indent_string@,
                at_line_start: true,
            }),
    {
        CodeWriter { writer, indent_level: 0, indent_string, at_line_start: true }
    }

    /// Create a new CodeWriter indenting with `spaces` spaces per level.
    pub fn with_indent_spaces(writer: String, spaces: usize) -> (w: Self)
        ensures
            w@ == (WriterState {
                out: writer@,
                level: 0,
                unit: Seq::new(spaces as nat, |i: int| ' '),
                at_line_start: true,
            }),
    {
        let mut unit = String::new();
        let mut i: usize = 0;
        while i < spaces
            invariant
                i <= spaces,
                unit@ == Seq::new(i as nat, |k: int| ' '),
            decreases spaces - i,
        {
            push_char(&mut unit, ' ');
            assert(unit@ == Seq::new((i + 1) as nat, |k: int| ' '));
            i = i + 1;
        }
        Self::new(writer, unit)
    }

    fn push_indent(&mut self)
        ensures
            final(self)@ == (WriterState {
                out: old(self)@.out + repeat(old(self)@.unit, old(self)@.level),
                ..old(self)@
            }),
    {
        let mut i: usize = 0;
        while i < self.indent_level
            invariant
                i <= self.indent_level,
                self.indent_level == old(self).indent_level,
                self.indent_string@ == old(self).indent_string@,
                self.at_line_start == old(self).at_line_start,
                self.writer@ == old(self).writer@ + repeat(self.indent_string@, i as nat),
            decreases self.indent_level - i,
        {
            self.writer.append(self.indent_string.as_str());
            assert(self.writer@ == old(self).writer@ + repeat(self.indent_string@, (i + 1) as nat));
            i = i + 1;
        }
    }

    /// Write text without a newline. Adds indentation if at line start.
    pub fn write(&mut self, text: &str) -> (r: Result<(), std::fmt::Error>)
        ensures
            r is Ok,
            final(self)@ == after_write(old(self)@, text@),
    {
        if text.unicode_len() == 0 {
            return Ok(());
        }
        if self.at_line_start && !is_blank(text) {
            self.push_indent();
            self.at_line_start = false;
        }
        self.writer.append(text);
        Ok(())
    }

    /// Write text followed by a newline. Adds indentation if needed.
    pub fn writeln(&mut self, text: &str) -> (r: Result<(), std::fmt::Error>)
        ensures
            r is Ok,
            final(self)@ == after_writeln(old(self)@, text@),
    {
        let _ = self.write(text);
        push_char(&mut self.writer, '\n');
        self.at_line_start = true;
        Ok(())
    }

    /// Write an empty line
    pub fn blank_line(&mut self) -> (r: Result<(), std::fmt::Error>)
        ensures
            r is Ok,
            final(self)@ == after_newline(old(self)@),
    {
        push_char(&mut self.writer, '\n');
        self.at_line_start = true;
        Ok(())
    }

    /// Open one indentation level. Indentation stays increased until the
    /// returned guard is handed to [`CodeWriter::dedent`].
    pub fn indent(&mut self) -> (g: IndentGuard)
        requires
            old(self)@.level < usize::MAX,
        ensures
            final(self)@ == (WriterState { level: old(self)@.level + 1, ..old(self)@ }),
    {
        self.indent_level = self.indent_level + 1;
        IndentGuard { _private: () }
    }

    /// Close the indentation level opened with `guard` (never below zero).
    pub fn dedent(&mut self, guard: IndentGuard)
        ensures
            final(self)@ == dedented(old(self)@),
    {
        let _ = guard;
        self.indent_level = self.indent_level.saturating_sub(1);
    }

    /// Write a single-line comment (e.g., "// comment")
    pub fn comment(&mut self, comment_prefix: &str, text: &str) -> (r: Result<(), std::fmt::Error>)
        ensures
            r is Ok,
            final(self)@ == after_writeln(old(self)@, prefixed(comment_prefix@, text@)),
    {
        let mut line = String::new();
        line.append(comment_prefix);
        push_char(&mut line, ' ');
        line.append(text);
        self.writeln(line.as_str())
    }

    /// Write a doc comment block. Each line is prefixed with the comment marker.
    pub fn doc_comment(&mut self, comment_prefix: &str, text: &str) -> (r: Result<(), std::fmt::Error>)
        ensures
            r is Ok,
            final(self)@ == after_comment_lines(old(self)@, comment_prefix@, lines_of(text@)),
    {
        let lines = split_lines(text);
        let ghost ls = lines_of(text@);
        let mut i: usize = 0;
        assert(ls.skip(0) == ls);
        while i < lines.len()
            invariant
                i <= lines.len(),
                lines@.len() == ls.len(),
                forall|k: int| 0 <= k < lines@.len() ==> #[trigger] lines@[k]@ == ls[k],
                after_comment_lines(old(self)@, comment_prefix@, ls) == after_comment_lines(
                    self@,
                    comment_prefix@,
                    ls.skip(i as int),
                ),
            decreases lines.len() - i,
        {
            let mut line = String::new();
            line.append(comment_prefix);
            push_char(&mut line, ' ');
            push_chars(&mut line, &lines[i]);
            assert(line@ == prefixed(comment_prefix@, ls[i as int]));
            assert(ls.skip(i as int)[0] == ls[i as int]);
            assert(ls.skip(i as int).drop_first() == ls.skip(i + 1));
            let _ = self.writeln(line.as_str());
            i = i + 1;
        }
        assert(ls.skip(i as int).len() == 0);
        Ok(())
    }

    /// Begin a block with opening brace: writes "header {" and opens an
    /// indentation level.
    pub fn begin_block(&mut self, header: &str) -> (r: Result<IndentGuard, std::fmt::Error>)
        requires
            old(self)@.level < usize::MAX,
        ensures
            r is Ok,
            final(self)@ == (WriterState {
                level: old(self)@.level + 1,
                ..after_writeln(old(self)@, header@ + seq![' ', '{'])
            }),
    {
        let mut line = String::new();
        line.append(header);
        push_char(&mut line, ' ');
        push_char(&mut line, '{');
        assert(line@ == header@ + seq![' ', '{']);
        let _ = self.writeln(line.as_str());
        Ok(self.indent())
    }

    /// End a block with closing brace
    pub fn end_block(&mut self) -> (r: Result<(), std::fmt::Error>)
        ensures
            r is Ok,
            final(self)@ == after_writeln(old(self)@, seq!['}']),
    {
        let mut line = String::new();
        push_char(&mut line, '}');
        self.writeln(line.as_str())
    }

    /// Write a complete block: "header {", then the body one level deeper,
    /// then (if the body succeeded) "}" one level up again. The body gets the
    /// writer and hands it back with its result.
    pub fn block<F>(&mut self, header: &str, body: F) -> (r: Result<(), std::fmt::Error>)
        where
            F: FnOnce(CodeWriter) -> (CodeWriter, Result<(), std::fmt::Error>),
        requires
            old(self)@.level < usize::MAX,
            forall|w: CodeWriter| call_requires(body, (w,)),
        ensures
            exists|w_in: CodeWriter, w_out: CodeWriter, rb: Result<(), std::fmt::Error>|
                {
                    &&& w_in@ == (WriterState {
                        level: old(self)@.level + 1,
                        ..after_writeln(old(self)@, header@ + seq![' ', '{'])
                    })
                    &&& call_ensures(body, (w_in,), (w_out, rb))
                    &&& rb is Ok ==> r is Ok && final(self)@ == after_writeln(
                        dedented(w_out@),
                        seq!['}'],
                    )
                    &&& rb is Err ==> r == rb && final(self)@ == dedented(w_out@)
                },
    {
        let _ = self.begin_block(header);
        let mut taken = CodeWriter::new(String::new(), String::new());
        std::mem::swap(&mut taken, self);
        let ghost w_in = taken;
        let (back, rb) = body(taken);
        let ghost w_out = back;
        *self = back;
        self.dedent(IndentGuard { _private: () });
        let r = match rb {
            Ok(()) => self.end_block(),
            Err(e) => Err(e),
        };
        assert(call_ensures(body, (w_in,), (w_out, rb)));
        r
    }

    /// Get a mutable reference to the inner writer
    pub fn inner_mut(&mut self) -> (s: &mut String)
        ensures
            s@ == old(self)@.out,
            final(self)@ == (WriterState { out: final(s)@, ..old(self)@ }),
    {
        &mut self.writer
    }

    /// Get the current indentation level
    pub fn indent_level(&self) -> (l: usize)
        ensures
            l == self@.level,
    {
        self.indent_level
    }

    /// Consume the writer and return the inner writer
    pub fn into_inner(self) -> (s: String)
        ensures
            s@ == self@.out,
    {
        self.writer
    }

    /// Get a reference to the inner writer
    pub fn inner(&self) -> (s: &String)
        ensures
            s@ == self@.out,
    {
        &self.writer
    }
}

} // verus!
