//! Command-line inputs: which script to run, and the dotted path of a global
//! function to call.

use crate::text::string_views;
use vstd::prelude::*;

verus! {

/// Where the text of a script comes from.
#[derive(Debug, PartialEq, Eq)]
pub enum ScriptSource {
    /// Read the script from standard input (the argument `-`).
    Stdin,
    /// Read the script from the file at this path (the argument `@path`).
    File(String),
    /// The argument is the script itself.
    Literal(String),
}

pub open spec fn is_stdin_arg(arg: Seq<char>) -> bool {
    arg == seq!['-']
}

pub open spec fn is_file_arg(arg: Seq<char>) -> bool {
    arg.len() > 0 && arg[0] == '@'
}

/// Classifies a script argument: `-` names standard input, `@path` names a
/// file, and anything else is the script text.
pub fn script_source(arg: &str) -> (r: ScriptSource)
    ensures
        is_stdin_arg(arg@) ==> r is Stdin,
        !is_stdin_arg(arg@) && is_file_arg(arg@) ==> (r matches ScriptSource::File(p) && p@
            == arg@.drop_first()),
        !is_stdin_arg(arg@) && !is_file_arg(arg@) ==> (r matches ScriptSource::Literal(t) && t@
            == arg@),
{
    let n = arg.unicode_len();
    if n == 1 && arg.get_char(0) == '-' {
        assert(arg@ =~= seq!['-']);
        ScriptSource::Stdin
    } else if n > 0 && arg.get_char(0) == '@' {
        let path = arg.substring_char(1, n);
        assert(path@ =~= arg@.drop_first());
        ScriptSource::File(String::from_str(path))
    } else {
        ScriptSource::Literal(String::from_str(arg))
    }
}

/// The pieces of `s` between dots, in order: one more than there are dots,
/// empty pieces included.
pub open spec fn split_dots(s: Seq<char>) -> Seq<Seq<char>>
    decreases s.len(),
{
    if s.len() == 0 {
        seq![Seq::empty()]
    } else {
        let init = split_dots(s.drop_last());
        if s.last() == '.' {
            init.push(Seq::empty())
        } else {
            init.update(init.len() - 1, init.last().push(s.last()))
        }
    }
}

proof fn lemma_split_dots_nonempty(s: Seq<char>)
    ensures
        split_dots(s).len() >= 1,
    decreases s.len(),
{
    if s.len() > 0 {
        lemma_split_dots_nonempty(s.drop_last());
    }
}

/// Splits a dotted path such as `app.handlers.run` into the names to look up
/// one after another, starting from the global object.
pub fn path_segments(path: &str) -> (r: Vec<String>)
    ensures
        string_views(r@) == split_dots(path@),
{
    let n = path.unicode_len();
    let mut out: Vec<String> = Vec::new();
    let mut start: usize = 0;
    let mut i: usize = 0;
    proof {
        assert(path@.take(0) =~= Seq::<char>::empty());
        assert(string_views(out@) =~= Seq::<Seq<char>>::empty());
        assert(string_views(out@).push(path@.subrange(0, 0)) =~= split_dots(path@.take(0)));
    }
    while i < n
        invariant
            n == path@.len(),
            start <= i <= n,
            string_views(out@).push(path@.subrange(start as int, i as int)) == split_dots(
                path@.take(i as int),
            ),
        decreases n - i,
    {
        let c = path.get_char(i);
        let ghost before = path@.take(i as int);
        proof {
            assert(path@.take(i + 1).drop_last() =~= before);
            assert(path@.take(i + 1).last() == c);
            lemma_split_dots_nonempty(before);
        }
        let ghost views = string_views(out@);
        if c == '.' {
            let piece = String::from_str(path.substring_char(start, i));
            out.push(piece);
            assert(string_views(out@) =~= views.push(path@.subrange(start as int, i as int)));
            assert(path@.subrange(i + 1, i + 1) =~= Seq::<char>::empty());
            start = i + 1;
            assert(string_views(out@).push(path@.subrange(start as int, i + 1)) =~= split_dots(
                path@.take(i + 1),
            ));
        } else {
            assert(path@.subrange(start as int, i + 1) =~= path@.subrange(start as int, i as int).push(c));
            assert(string_views(out@).push(path@.subrange(start as int, i + 1)) =~= split_dots(
                path@.take(i + 1),
            ));
        }
        i = i + 1;
    }
    let last = String::from_str(path.substring_char(start, n));
    let ghost views = string_views(out@);
    out.push(last);
    assert(string_views(out@) =~= views.push(path@.subrange(start as int, n as int)));
    assert(path@.take(n as int) =~= path@);
    assert(string_views(out@) =~= split_dots(path@));
    out
}

} // verus!
