use vstd::prelude::*;
use vstd::string::*;

verus! {

/// Canonical task address of an AtCoder problem.
pub open spec fn atcoder_url_spec(contest: Seq<char>, problem: Seq<char>) -> Seq<char> {
    "https://atcoder.jp/contests/"@ + contest + "/tasks/"@ + contest + "_"@ + problem
}

/// Builds `https://atcoder.jp/contests/<contest>/tasks/<contest>_<problem>`.
pub fn atocder_url(contest: &str, problem: &str) -> (r: String)
    ensures
        r@ == atcoder_url_spec(contest@, problem@),
{
    let s = String::from_str("https://atcoder.jp/contests/");
    let s = s.concat(contest);
    let s = s.concat("/tasks/");
    let s = s.concat(contest);
    let s = s.concat("_");
    s.concat(problem)
}

} // verus!
