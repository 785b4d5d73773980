use vstd::prelude::*;
use vstd::string::*;

pub mod config;
pub mod site;

use config::{join_path, path_join, LangTemplate};

verus! {

/// Source languages a solution can be scaffolded in.
#[derive(Clone, Copy, Debug, PartialEq, Eq)]
pub enum Lang {
    Py,
    PyPy,
    Rs,
}

/// Text of an optional string, or `default`.
pub open spec fn text_or(o: Option<String>, default: Seq<char>) -> Seq<char> {
    match o {
        Some(s) => s@,
        None => default,
    }
}

/// Name of a new problem directory: `<contest>_<problem>`, with `contest`
/// and the empty string standing in for absent identifiers.
pub fn workdir_name(contest: &Option<String>, problem: &Option<String>) -> (r: String)
    ensures
        r@ == text_or(*contest, "contest"@) + "_"@ + text_or(*problem, Seq::empty()),
{
    let mut name = match contest {
        Some(c) => c.clone(),
        None => String::from_str("contest"),
    };
    name.append("_");
    match problem {
        Some(p) => name.append(p.as_str()),
        None => {},
    }
    name
}

/// File stem of the solution source: the problem id, or `sol`.
pub fn source_stem(problem: &Option<String>) -> (r: String)
    ensures
        r@ == text_or(*problem, "sol"@),
{
    match problem {
        Some(p) => p.clone(),
        None => String::from_str("sol"),
    }
}

/// Path of the Python source with stem `stem` in `dir`.
pub fn py_source_path(dir: &str, stem: &str) -> (r: String)
    ensures
        r@ == path_join(dir@, stem@ + ".py"@),
{
    let name = String::from_str(stem);
    let name = name.concat(".py");
    join_path(dir, name.as_str())
}

/// Initial contents of a new source file: the boilerplate, or nothing.
pub fn template_source(lang_template: &Option<LangTemplate>) -> (r: String)
    ensures
        r@ == match *lang_template {
            Some(t) => t.src@,
            None => Seq::empty(),
        },
{
    match lang_template {
        Some(t) => t.src.clone(),
        None => String::new(),
    }
}

} // verus!
