//! The text the host shows for script values and script failures.

use crate::text::{join_strings, join_with, string_views};
use vstd::prelude::*;

verus! {

/// The text held, or `fallback` when there is none.
pub open spec fn text_or(o: Option<String>, fallback: Seq<char>) -> Seq<char> {
    match o {
        Some(s) => s@,
        None => fallback,
    }
}

/// A script exception as reported to the user: its message, a newline, and
/// its stack trace, each shown as `-` when the engine gave none.
pub fn exception_report(message: Option<String>, stack: Option<String>) -> (r: String)
    ensures
        r@ == text_or(message, "-"@) + "\n"@ + text_or(stack, "-"@),
{
    let mut r = match message {
        Some(m) => m,
        None => String::from_str("-"),
    };
    r.append("\n");
    match stack {
        Some(s) => r.append(s.as_str()),
        None => r.append("-"),
    }
    r
}

/// The step of running a module at which the engine failed.
#[derive(Clone, Copy, Debug, PartialEq, Eq, Structural)]
pub enum ModuleStage {
    Declare,
    Eval,
    Await,
}

impl ModuleStage {
    pub open spec fn label_spec(self) -> Seq<char> {
        match self {
            ModuleStage::Declare => "declare"@,
            ModuleStage::Eval => "eval"@,
            ModuleStage::Await => "await"@,
        }
    }

    pub fn label(&self) -> (r: &'static str)
        ensures
            r@ == self.label_spec(),
    {
        match self {
            ModuleStage::Declare => "declare",
            ModuleStage::Eval => "eval",
            ModuleStage::Await => "await",
        }
    }
}

/// The error reported when running a module fails: the stage in brackets,
/// then the engine's own description of the failure.
pub fn stage_error(stage: ModuleStage, detail: &str) -> (r: String)
    ensures
        r@ == "JS error ["@ + stage.label_spec() + "]: "@ + detail@,
{
    let mut r = String::from_str("JS error [");
    r.append(stage.label());
    r.append("]: ");
    r.append(detail);
    r
}

/// The JSON text of a value, or the marker `<ERR>` when it has none.
pub fn rendered(json: Option<String>) -> (r: String)
    ensures
        r@ == text_or(json, "<ERR>"@),
{
    match json {
        Some(s) => s,
        None => String::from_str("<ERR>"),
    }
}

pub open spec fn rendered_all(parts: Seq<Option<String>>) -> Seq<Seq<char>> {
    parts.map_values(|p: Option<String>| text_or(p, "<ERR>"@))
}

/// The line printed by `console.log`: each argument's JSON text, or `<ERR>`
/// for one that has none, separated by a comma and a space.
pub fn log_line(parts: &Vec<Option<String>>) -> (r: String)
    ensures
        r@ == join_with(rendered_all(parts@), ", "@),
{
    let mut texts: Vec<String> = Vec::new();
    for i in 0..parts.len()
        invariant
            texts@.len() == i,
            string_views(texts@) == rendered_all(parts@).take(i as int),
    {
        let ghost before = string_views(texts@);
        let text = match &parts[i] {
            Some(s) => s.clone(),
            None => String::from_str("<ERR>"),
        };
        texts.push(text);
        assert(string_views(texts@) =~= before.push(text_or(parts@[i as int], "<ERR>"@)));
        assert(rendered_all(parts@).take(i + 1) =~= rendered_all(parts@).take(i as int).push(
            text_or(parts@[i as int], "<ERR>"@),
        ));
    }
    assert(rendered_all(parts@).take(parts.len() as int) =~= rendered_all(parts@));
    join_strings(&texts, ", ")
}

/// What a value is as JSON text: `null` for `undefined`, which JSON cannot
/// hold, and otherwise what the engine's stringifier gave, if anything.
pub fn json_or_null(is_undefined: bool, stringified: Option<String>) -> (r: Option<String>)
    ensures
        is_undefined ==> (r matches Some(s) && s@ == "null"@),
        !is_undefined ==> r == stringified,
{
    if is_undefined {
        Some(String::from_str("null"))
    } else {
        stringified
    }
}

} // verus!
