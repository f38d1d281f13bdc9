//! Multi-line REPL input: a lightweight scan that tells whether the text typed
//! so far still has open brackets, skipping over quoted strings.

use crate::text::{join_strings, join_with, string_views};
use vstd::prelude::*;

verus! {

/// Where the scanner stands: in plain code, inside a quoted string opened by
/// the given quote character, or just after a backslash inside such a string.
#[derive(Clone, Copy, PartialEq, Eq, Structural)]
pub enum ScanMode {
    Code,
    Quoted(char),
    Escaped(char),
}

/// The state of the bracket scan after some prefix of the input.
pub struct Scan {
    pub mode: ScanMode,
    /// Brackets opened and not yet closed.
    pub depth: nat,
    /// A closing bracket came with nothing open; the scan stops there.
    pub unbalanced: bool,
}

pub open spec fn is_open_bracket(c: char) -> bool {
    c == '{' || c == '(' || c == '['
}

pub open spec fn is_close_bracket(c: char) -> bool {
    c == '}' || c == ')' || c == ']'
}

pub open spec fn is_quote(c: char) -> bool {
    c == '"' || c == '\''
}

pub open spec fn scan_start() -> Scan {
    Scan { mode: ScanMode::Code, depth: 0, unbalanced: false }
}

/// One character of the scan.
pub open spec fn scan_step(st: Scan, c: char) -> Scan {
    if st.unbalanced {
        st
    } else {
        match st.mode {
            ScanMode::Code => if is_open_bracket(c) {
                Scan { depth: st.depth + 1, ..st }
            } else if is_close_bracket(c) {
                if st.depth == 0 {
                    Scan { unbalanced: true, ..st }
                } else {
                    Scan { depth: (st.depth - 1) as nat, ..st }
                }
            } else if is_quote(c) {
                Scan { mode: ScanMode::Quoted(c), ..st }
            } else {
                st
            },
            ScanMode::Quoted(q) => if c == '\\' {
                Scan { mode: ScanMode::Escaped(q), ..st }
            } else if c == q {
                Scan { mode: ScanMode::Code, ..st }
            } else {
                st
            },
            ScanMode::Escaped(q) => Scan { mode: ScanMode::Quoted(q), ..st },
        }
    }
}

/// The scan state after reading all of `s`, left to right.
pub open spec fn scan(s: Seq<char>) -> Scan
    decreases s.len(),
{
    if s.len() == 0 {
        scan_start()
    } else {
        scan_step(scan(s.drop_last()), s.last())
    }
}

/// The input has brackets left open (outside strings) and none closed too
/// early: the user is expected to type more lines.
pub open spec fn awaits_more(s: Seq<char>) -> bool {
    let st = scan(s);
    !st.unbalanced && st.depth > 0
}

/// Tells whether `input` still has unmatched opening brackets, so that a REPL
/// should read another line before evaluating it. A stray closing bracket
/// ends the scan with `false`: the engine will report the syntax error.
pub fn needs_more_input(input: &str) -> (r: bool)
    ensures
        r == awaits_more(input@),
{
    // The character count fits in a usize, and so does the depth below it.
    let _len: usize = input.unicode_len();
    let mut mode = ScanMode::Code;
    let mut depth: usize = 0;
    for c in it: input.chars()
        invariant
            it.seq() == input@,
            scan(it.seq().take(it.index() as int)) == (Scan {
                mode: mode,
                depth: depth as nat,
                unbalanced: false,
            }),
            depth <= it.index(),
            input@.len() <= usize::MAX,
    {
        let ghost seen = it.seq().take(it.index() + 1);
        assert(seen.drop_last() =~= it.seq().take(it.index() as int));
        match mode {
            ScanMode::Code => {
                if c == '{' || c == '(' || c == '[' {
                    depth = depth + 1;
                } else if c == '}' || c == ')' || c == ']' {
                    if depth == 0 {
                        proof {
                            lemma_unbalanced_sticky(seen, input@.skip(it.index() + 1));
                            assert(seen + input@.skip(it.index() + 1) =~= input@);
                        }
                        return false;
                    }
                    depth = depth - 1;
                } else if c == '"' || c == '\'' {
                    mode = ScanMode::Quoted(c);
                }
            },
            ScanMode::Quoted(q) => {
                if c == '\\' {
                    mode = ScanMode::Escaped(q);
                } else if c == q {
                    mode = ScanMode::Code;
                }
            },
            ScanMode::Escaped(q) => {
                mode = ScanMode::Quoted(q);
            },
        }
    }
    assert(input@.take(input@.len() as int) =~= input@);
    depth > 0
}

/// Once a closing bracket has come with nothing open, no further text changes
/// the outcome.
proof fn lemma_unbalanced_sticky(s: Seq<char>, rest: Seq<char>)
    requires
        scan(s).unbalanced,
    ensures
        scan(s + rest).unbalanced,
    decreases rest.len(),
{
    if rest.len() > 0 {
        let init = rest.drop_last();
        lemma_unbalanced_sticky(s, init);
        assert((s + rest).drop_last() =~= s + init);
    } else {
        assert(s + rest =~= s);
    }
}

/// Lines joined with a newline between each two of them.
pub open spec fn join_lines(ls: Seq<Seq<char>>) -> Seq<char> {
    join_with(ls, seq!['\n'])
}

/// The prompt shown before a line: a fresh one for a new entry, a
/// continuation one while brackets are open.
pub open spec fn prompt_for(pending: Seq<Seq<char>>) -> Seq<char> {
    if pending.len() == 0 {
        seq!['>', '>', '>', ' ']
    } else {
        seq!['.', '.', '.', ' ']
    }
}

/// The lines of a REPL entry typed so far. A line that leaves no bracket
/// open completes the entry: the joined text is handed out and the buffer
/// starts over.
pub struct LineBuffer {
    lines: Vec<String>,
}

impl View for LineBuffer {
    type V = Seq<Seq<char>>;

    closed spec fn view(&self) -> Seq<Seq<char>> {
        string_views(self.lines@)
    }
}

impl LineBuffer {
    pub fn new() -> (r: LineBuffer)
        ensures
            r@ == Seq::<Seq<char>>::empty(),
    {
        let r = LineBuffer { lines: Vec::new() };
        assert(r@ =~= Seq::<Seq<char>>::empty());
        r
    }

    /// True while no line of the current entry has been typed.
    pub fn is_empty(&self) -> (r: bool)
        ensures
            r == (self@.len() == 0),
    {
        self.lines.len() == 0
    }

    /// The prompt to show before reading the next line.
    pub fn prompt(&self) -> (r: String)
        ensures
            r@ == prompt_for(self@),
    {
        proof {
            reveal_strlit(">>> ");
            reveal_strlit("... ");
        }
        if self.lines.len() == 0 {
            String::from_str(">>> ")
        } else {
            String::from_str("... ")
        }
    }

    /// Adds a line to the entry. When the lines so far, joined by newlines,
    /// leave no bracket open, returns that text and empties the buffer;
    /// otherwise keeps the line and returns `None`.
    pub fn push_line(&mut self, line: String) -> (r: Option<String>)
        ensures
            ({
                let all = old(self)@.push(line@);
                if awaits_more(join_lines(all)) {
                    r is None && final(self)@ == all
                } else {
                    r matches Some(text) && text@ == join_lines(all) && final(self)@.len() == 0
                }
            }),
    {
        let ghost line_view = line@;
        self.lines.push(line);
        proof {
            assert(self@ =~= old(self)@.push(line_view));
        }
        proof {
            reveal_strlit("\n");
            assert("\n"@ =~= seq!['\n']);
        }
        let text = join_strings(&self.lines, "\n");
        if needs_more_input(text.as_str()) {
            None
        } else {
            self.lines = Vec::new();
            proof {
                assert(self@ =~= Seq::<Seq<char>>::empty());
            }
            Some(text)
        }
    }
}

} // verus!
