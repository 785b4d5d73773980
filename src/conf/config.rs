use vstd::prelude::*;
use vstd::string::*;

use super::site::{atcoder_url_spec, atocder_url};
use super::text_or;

verus! {

/// File name of the per-problem working configuration.
pub const CONFIG_NAME: &'static str = ".judgecli";

/// File name of a user template.
pub const TEMPLATE_NAME: &'static str = ".judgecli-template";

/// Subdirectory of the working directory that holds the sample files.
pub const TEST_DIR_NAME: &'static str = "tests";

/// Comparison mode of the built-in defaults.
pub const DEFAULT_MODE: &'static str = "exact-match";

/// Verbosity of the built-in defaults.
pub const DEFAULT_VERBOSE: &'static str = "error_detail";

/// Built-in memory limit.
pub const DEFAULT_MLE: u64 = 1024;

/// Built-in time limit.
pub const DEFAULT_TLE: u64 = 2000;

/// Built-in Python boilerplate.
pub const PY_BOILERPLATE: &'static str = "
def main():
    return


if __name__==\"__main__\":
    ans = main()
    print(ans)
";

/// Fully resolved per-problem configuration.
pub struct JudgeConf {
    pub workdir: String,
    pub testdir: String,
    pub url: String,
    pub file: String,
    pub contest: String,
    pub problem: String,
    pub py: bool,
    pub pypy: bool,
    pub cython: bool,
    pub rs: bool,
    pub mle: u64,
    pub tle: u64,
    pub mode: String,
    pub verbose: String,
}

/// Limits block of a template: every field but the numeric limits may be absent.
pub struct JudgeConfTemplate {
    pub py: Option<bool>,
    pub pypy: Option<bool>,
    pub cython: Option<bool>,
    pub rs: Option<bool>,
    pub mle: u64,
    pub tle: u64,
    pub mode: Option<String>,
    pub verbose: Option<String>,
}

/// Boilerplate source of one language.
pub struct LangTemplate {
    pub src: String,
}

/// A template bundle: an optional limits block and per-language boilerplate.
pub struct TemplateConf {
    pub judgeconf: Option<JudgeConfTemplate>,
    pub py: Option<LangTemplate>,
    pub pypy: Option<LangTemplate>,
    pub cython: Option<LangTemplate>,
    pub rs: Option<LangTemplate>,
}

/// The resolved template together with the working configuration built from it.
pub struct Config {
    pub judgeconf: JudgeConf,
    pub template: TemplateConf,
}

/// Abstract value of a working configuration.
pub struct JudgeView {
    pub workdir: Seq<char>,
    pub testdir: Seq<char>,
    pub url: Seq<char>,
    pub file: Seq<char>,
    pub contest: Seq<char>,
    pub problem: Seq<char>,
    pub py: bool,
    pub pypy: bool,
    pub cython: bool,
    pub rs: bool,
    pub mle: u64,
    pub tle: u64,
    pub mode: Seq<char>,
    pub verbose: Seq<char>,
}

/// Abstract value of a limits block.
pub struct LimitsView {
    pub py: Option<bool>,
    pub pypy: Option<bool>,
    pub cython: Option<bool>,
    pub rs: Option<bool>,
    pub mle: u64,
    pub tle: u64,
    pub mode: Option<Seq<char>>,
    pub verbose: Option<Seq<char>>,
}

/// Abstract value of a template bundle.
pub struct TemplateView {
    pub limits: Option<LimitsView>,
    pub py: Option<Seq<char>>,
    pub pypy: Option<Seq<char>>,
    pub cython: Option<Seq<char>>,
    pub rs: Option<Seq<char>>,
}

/// Text of an optional string.
pub open spec fn text_of(o: Option<String>) -> Option<Seq<char>> {
    match o {
        Some(s) => Some(s@),
        None => None,
    }
}

/// Boilerplate text of an optional language entry.
pub open spec fn src_of(o: Option<LangTemplate>) -> Option<Seq<char>> {
    match o {
        Some(l) => Some(l.src@),
        None => None,
    }
}

impl View for JudgeConf {
    type V = JudgeView;

    open spec fn view(&self) -> JudgeView {
        JudgeView {
            workdir: self.workdir@,
            testdir: self.testdir@,
            url: self.url@,
            file: self.file@,
            contest: self.contest@,
            problem: self.problem@,
            py: self.py,
            pypy: self.pypy,
            cython: self.cython,
            rs: self.rs,
            mle: self.mle,
            tle: self.tle,
            mode: self.mode@,
            verbose: self.verbose@,
        }
    }
}

impl View for JudgeConfTemplate {
    type V = LimitsView;

    open spec fn view(&self) -> LimitsView {
        LimitsView {
            py: self.py,
            pypy: self.pypy,
            cython: self.cython,
            rs: self.rs,
            mle: self.mle,
            tle: self.tle,
            mode: text_of(self.mode),
            verbose: text_of(self.verbose),
        }
    }
}

impl View for TemplateConf {
    type V = TemplateView;

    open spec fn view(&self) -> TemplateView {
        TemplateView {
            limits: match self.judgeconf {
                Some(j) => Some(j@),
                None => None,
            },
            py: src_of(self.py),
            pypy: src_of(self.pypy),
            cython: src_of(self.cython),
            rs: src_of(self.rs),
        }
    }
}

/// First writer wins: a present value is kept, an absent one takes `v`.
pub open spec fn fill_spec<T>(u: Option<T>, v: Option<T>) -> Option<T> {
    if u is Some {
        u
    } else {
        v
    }
}

/// Field-by-field merge of two limits blocks; the numeric limits of `u` are kept.
pub open spec fn merge_limits(u: LimitsView, v: LimitsView) -> LimitsView {
    LimitsView {
        py: fill_spec(u.py, v.py),
        pypy: fill_spec(u.pypy, v.pypy),
        cython: fill_spec(u.cython, v.cython),
        rs: fill_spec(u.rs, v.rs),
        mle: u.mle,
        tle: u.tle,
        mode: fill_spec(u.mode, v.mode),
        verbose: fill_spec(u.verbose, v.verbose),
    }
}

/// Merge of a bundle `u` over defaults `v`: an absent limits block is taken
/// wholesale, a present one is merged field by field; boilerplate entries are
/// taken whole.
pub open spec fn merge_template(u: TemplateView, v: TemplateView) -> TemplateView {
    TemplateView {
        limits: match u.limits {
            Some(a) => match v.limits {
                Some(b) => Some(merge_limits(a, b)),
                None => Some(a),
            },
            None => v.limits,
        },
        py: fill_spec(u.py, v.py),
        pypy: fill_spec(u.pypy, v.pypy),
        cython: fill_spec(u.cython, v.cython),
        rs: fill_spec(u.rs, v.rs),
    }
}

/// The built-in limits block.
pub open spec fn system_limits() -> LimitsView {
    LimitsView {
        py: Some(true),
        pypy: Some(false),
        cython: Some(false),
        rs: Some(false),
        mle: DEFAULT_MLE,
        tle: DEFAULT_TLE,
        mode: Some(DEFAULT_MODE@),
        verbose: Some(DEFAULT_VERBOSE@),
    }
}

/// The built-in template bundle: full limits and Python boilerplate only.
pub open spec fn system_template_view() -> TemplateView {
    TemplateView {
        limits: Some(system_limits()),
        py: Some(PY_BOILERPLATE@),
        pypy: None,
        cython: None,
        rs: None,
    }
}

/// A bundle with nothing in it.
pub open spec fn empty_template_view() -> TemplateView {
    TemplateView { limits: None, py: None, pypy: None, cython: None, rs: None }
}

/// Every optional field of a limits block is present.
pub open spec fn limits_complete(l: LimitsView) -> bool {
    &&& l.py is Some
    &&& l.pypy is Some
    &&& l.cython is Some
    &&& l.rs is Some
    &&& l.mode is Some
    &&& l.verbose is Some
}

/// Working configuration carrying the values of a complete limits block,
/// with every path and identifier empty.
pub open spec fn judge_from_limits(l: LimitsView) -> JudgeView {
    JudgeView {
        workdir: Seq::empty(),
        testdir: Seq::empty(),
        url: Seq::empty(),
        file: Seq::empty(),
        contest: Seq::empty(),
        problem: Seq::empty(),
        py: l.py.unwrap(),
        pypy: l.pypy.unwrap(),
        cython: l.cython.unwrap(),
        rs: l.rs.unwrap(),
        mle: l.mle,
        tle: l.tle,
        mode: l.mode.unwrap(),
        verbose: l.verbose.unwrap(),
    }
}

/// Keeps `u` when present, else takes `v`.
pub fn _fill<T>(u: &mut Option<T>, v: Option<T>)
    ensures
        *final(u) == fill_spec(*old(u), v),
{
    if u.is_none() {
        *u = v;
    }
}

impl JudgeConfTemplate {
    /// Fills every absent field from `t`; the numeric limits are kept.
    pub fn fill_none(&mut self, t: JudgeConfTemplate)
        ensures
            final(self)@ == merge_limits(old(self)@, t@),
    {
        _fill(&mut self.py, t.py);
        _fill(&mut self.pypy, t.pypy);
        _fill(&mut self.cython, t.cython);
        _fill(&mut self.rs, t.rs);
        _fill(&mut self.mode, t.mode);
        _fill(&mut self.verbose, t.verbose);
    }
}

impl TemplateConf {
    /// Merges the defaults `t` into this bundle, first writer wins.
    pub fn fill_none(&mut self, t: TemplateConf)
        ensures
            final(self)@ == merge_template(old(self)@, t@),
    {
        let mine = self.judgeconf.take();
        match mine {
            Some(mut u) => {
                match t.judgeconf {
                    Some(v) => u.fill_none(v),
                    None => {},
                }
                self.judgeconf = Some(u);
            },
            None => {
                self.judgeconf = t.judgeconf;
            },
        }
        _fill(&mut self.py, t.py);
        _fill(&mut self.pypy, t.pypy);
        _fill(&mut self.cython, t.cython);
        _fill(&mut self.rs, t.rs);
    }

    /// The built-in template bundle.
    pub fn system_template() -> (r: TemplateConf)
        ensures
            r@ == system_template_view(),
    {
        TemplateConf {
            judgeconf: Some(
                JudgeConfTemplate {
                    py: Some(true),
                    pypy: Some(false),
                    cython: Some(false),
                    rs: Some(false),
                    mle: DEFAULT_MLE,
                    tle: DEFAULT_TLE,
                    mode: Some(String::from_str(DEFAULT_MODE)),
                    verbose: Some(String::from_str(DEFAULT_VERBOSE)),
                },
            ),
            py: Some(LangTemplate { src: String::from_str(PY_BOILERPLATE) }),
            pypy: None,
            cython: None,
            rs: None,
        }
    }
}

/// Result of the template resolution: the nearest bundle merged over the
/// built-in one, or the built-in one alone.
pub open spec fn resolved_template(found: Option<TemplateView>) -> TemplateView {
    match found {
        Some(t) => merge_template(t, system_template_view()),
        None => system_template_view(),
    }
}

/// Merges the nearest user template, if any, over the built-in defaults.
pub fn resolve_template(found: Option<TemplateConf>) -> (r: TemplateConf)
    ensures
        r@ == resolved_template(
            match found {
                Some(t) => Some(t@),
                None => None,
            },
        ),
{
    let sys = TemplateConf::system_template();
    match found {
        Some(mut t) => {
            t.fill_none(sys);
            t
        },
        None => sys,
    }
}

/// Limits block that the builder uses: the bundle's own when it is complete,
/// else the built-in one as a whole.
pub open spec fn effective_limits(t: TemplateView) -> LimitsView {
    match t.limits {
        Some(l) => if limits_complete(l) {
            l
        } else {
            system_limits()
        },
        None => system_limits(),
    }
}

/// Working configuration built from a bundle, identifiers and a directory.
pub open spec fn built_judge(
    t: TemplateView,
    contest: Seq<char>,
    problem: Seq<char>,
    cwd: Seq<char>,
) -> JudgeView {
    JudgeView {
        workdir: cwd,
        testdir: path_join(cwd, TEST_DIR_NAME@),
        url: if contest.len() > 0 && problem.len() > 0 {
            atcoder_url_spec(contest, problem)
        } else {
            Seq::empty()
        },
        contest,
        problem,
        ..judge_from_limits(effective_limits(t))
    }
}

impl JudgeConf {
    /// Working configuration from a complete limits block.
    pub fn from_template(template: &JudgeConfTemplate) -> (r: JudgeConf)
        requires
            limits_complete(template@),
        ensures
            r@ == judge_from_limits(template@),
    {
        JudgeConf {
            workdir: String::new(),
            testdir: String::new(),
            url: String::new(),
            file: String::new(),
            contest: String::new(),
            problem: String::new(),
            py: template.py.unwrap(),
            pypy: template.pypy.unwrap(),
            cython: template.cython.unwrap(),
            rs: template.rs.unwrap(),
            mle: template.mle,
            tle: template.tle,
            mode: template.mode.as_ref().unwrap().clone(),
            verbose: template.verbose.as_ref().unwrap().clone(),
        }
    }

    /// Working configuration from the built-in limits.
    pub fn system_conf() -> (r: JudgeConf)
        ensures
            r@ == judge_from_limits(system_limits()),
    {
        JudgeConf {
            workdir: String::new(),
            testdir: String::new(),
            url: String::new(),
            file: String::new(),
            contest: String::new(),
            problem: String::new(),
            py: true,
            pypy: false,
            cython: false,
            rs: false,
            mle: DEFAULT_MLE,
            tle: DEFAULT_TLE,
            mode: String::from_str(DEFAULT_MODE),
            verbose: String::from_str(DEFAULT_VERBOSE),
        }
    }

    /// Builds the working configuration of a problem directory `cwd`.
    pub fn build(
        bundle: &TemplateConf,
        contest: Option<String>,
        problem: Option<String>,
        cwd: &str,
    ) -> (r: JudgeConf)
        ensures
            r@ == built_judge(bundle@, text_or(contest, Seq::empty()), text_or(problem, Seq::empty()), cwd@),
    {
        let mut judge_conf = match &bundle.judgeconf {
            Some(x) => {
                if x.py.is_some() && x.pypy.is_some() && x.cython.is_some() && x.rs.is_some()
                    && x.mode.is_some() && x.verbose.is_some() {
                    JudgeConf::from_template(x)
                } else {
                    JudgeConf::system_conf()
                }
            },
            None => JudgeConf::system_conf(),
        };
        judge_conf.contest = match contest {
            Some(c) => c,
            None => String::new(),
        };
        judge_conf.problem = match problem {
            Some(p) => p,
            None => String::new(),
        };
        if !judge_conf.contest.as_str().is_empty() && !judge_conf.problem.as_str().is_empty() {
            judge_conf.url = atocder_url(judge_conf.contest.as_str(), judge_conf.problem.as_str());
        }
        judge_conf.workdir = String::from_str(cwd);
        judge_conf.testdir = join_path(cwd, TEST_DIR_NAME);
        judge_conf
    }

    /// Fetched limits replace whatever the template supplied.
    pub fn apply_limits(&mut self, memory_limit: u64, time_limit: u64)
        ensures
            final(self)@ == (JudgeView { mle: memory_limit, tle: time_limit, ..old(self)@ }),
    {
        self.mle = memory_limit;
        self.tle = time_limit;
    }
}

impl Config {
    /// Resolves the template found nearest to `cwd` and builds the working
    /// configuration from it.
    pub fn new(
        cwd: &str,
        found: Option<TemplateConf>,
        contest: Option<String>,
        problem: Option<String>,
    ) -> (r: Config)
        ensures
            r.template@ == resolved_template(
                match found {
                    Some(t) => Some(t@),
                    None => None,
                },
            ),
            r.judgeconf@ == built_judge(
                r.template@,
                text_or(contest, Seq::empty()),
                text_or(problem, Seq::empty()),
                cwd@,
            ),
    {
        let template = resolve_template(found);
        let judgeconf = JudgeConf::build(&template, contest, problem, cwd);
        Config { judgeconf, template }
    }
}

/// What `std::path::Path::join` makes of a base path and a relative name.
pub uninterp spec fn path_join(base: Seq<char>, name: Seq<char>) -> Seq<char>;

/// What `std::path::Path::parent` gives for a path; `None` at a root or for
/// an empty path.
pub uninterp spec fn path_parent(path: Seq<char>) -> Option<Seq<char>>;

/// Relies on `std::path::Path::join`: the joined path depends on the two
/// strings alone.
#[verifier::external_body]
pub(crate) fn join_path(base: &str, name: &str) -> (r: String)
    ensures
        r@ == path_join(base@, name@),
{
    std::path::Path::new(base).join(name).to_string_lossy().into_owned()
}

/// Relies on `std::path::Path::parent`: the parent depends on the string alone.
#[verifier::external_body]
fn parent_path(path: &str) -> (r: Option<String>)
    ensures
        match r {
            Some(p) => path_parent(path@) == Some(p@),
            None => path_parent(path@) is None,
        },
{
    std::path::Path::new(path).parent().map(|p| p.to_string_lossy().into_owned())
}

/// Outcome of looking for a template file in one directory.
pub enum TemplateLoad {
    Missing,
    Found(TemplateConf),
    Malformed(String),
}

/// Decision after looking in one directory of the upward walk.
pub enum WalkStep {
    /// Look next in this directory.
    Ascend(String),
    /// The nearest template.
    Found(TemplateConf),
    /// The root was passed without finding a template.
    NoTemplate,
    /// The nearest template file does not parse: resolution fails.
    Malformed(String),
}

/// One step of the upward search for a template, which stops at the first
/// directory that holds one.
pub fn walk_step(dir: &str, load: TemplateLoad) -> (r: WalkStep)
    ensures
        match load {
            TemplateLoad::Found(t) => r == WalkStep::Found(t),
            TemplateLoad::Malformed(e) => r == WalkStep::Malformed(e),
            TemplateLoad::Missing => match path_parent(dir@) {
                Some(p) => r is Ascend && r->Ascend_0@ == p,
                None => r is NoTemplate,
            },
        },
{
    match load {
        TemplateLoad::Found(t) => WalkStep::Found(t),
        TemplateLoad::Malformed(e) => WalkStep::Malformed(e),
        TemplateLoad::Missing => match parent_path(dir) {
            Some(p) => WalkStep::Ascend(p),
            None => WalkStep::NoTemplate,
        },
    }
}

/// A bundle with nothing in it inherits every default unchanged, whatever
/// the defaults are.
pub proof fn empty_bundle_inherits_defaults(defaults: TemplateView)
    ensures
        merge_template(empty_template_view(), defaults) == defaults,
{
}

/// With no template found, the resolved bundle is the built-in one, and the
/// working configuration carries exactly the built-in limits and flags.
pub proof fn no_template_yields_system_limits(
    contest: Seq<char>,
    problem: Seq<char>,
    cwd: Seq<char>,
)
    ensures
        resolved_template(None) == system_template_view(),
        resolved_template(None).limits == Some(system_limits()),
        ({
            let j = built_judge(resolved_template(None), contest, problem, cwd);
            let s = judge_from_limits(system_limits());
            &&& j.py == s.py && j.pypy == s.pypy && j.cython == s.cython && j.rs == s.rs
            &&& j.mle == s.mle && j.tle == s.tle
            &&& j.mode == s.mode && j.verbose == s.verbose
        }),
{
}

/// First writer wins: every field that a present limits block sets survives
/// the merge, and so do its numeric limits.
pub proof fn present_fields_win(u: TemplateView, v: TemplateView)
    requires
        u.limits is Some,
    ensures
        ({
            let a = u.limits.unwrap();
            let m = merge_template(u, v).limits;
            &&& m is Some
            &&& m.unwrap().mle == a.mle && m.unwrap().tle == a.tle
            &&& a.py is Some ==> m.unwrap().py == a.py
            &&& a.pypy is Some ==> m.unwrap().pypy == a.pypy
            &&& a.cython is Some ==> m.unwrap().cython == a.cython
            &&& a.rs is Some ==> m.unwrap().rs == a.rs
            &&& a.mode is Some ==> m.unwrap().mode == a.mode
            &&& a.verbose is Some ==> m.unwrap().verbose == a.verbose
        }),
{
}

/// A bundle without a limits block takes the defaults' block whole, with no
/// mixing of fields.
pub proof fn absent_limits_taken_whole(u: TemplateView, v: TemplateView)
    requires
        u.limits is None,
    ensures
        merge_template(u, v).limits == v.limits,
{
}

/// After resolution the limits block is complete, so the builder uses it
/// rather than the built-in fallback.
pub proof fn resolved_limits_are_used(found: Option<TemplateView>)
    ensures
        resolved_template(found).limits is Some,
        limits_complete(resolved_template(found).limits.unwrap()),
        effective_limits(resolved_template(found)) == resolved_template(found).limits.unwrap(),
{
}

} // verus!
