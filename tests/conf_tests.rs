use judgecli::conf::config::{
    _fill, resolve_template, walk_step, Config, JudgeConf, JudgeConfTemplate, LangTemplate,
    TemplateConf, TemplateLoad, WalkStep, PY_BOILERPLATE,
};
use judgecli::conf::site::atocder_url;
use judgecli::conf::{py_source_path, source_stem, template_source, workdir_name};

#[test]
fn test_fill() {
    // none does not override value
    let mut a = Some("abc");
    let b = None;
    _fill(&mut a, b);
    assert_eq!(a, Some("abc"));

    // override none
    let mut a = None;
    let b = Some("abc");
    _fill(&mut a, b);
    assert_eq!(a, Some("abc"));

    // value is not overrided
    let mut a = Some("abc");
    let b = Some("xyz");
    _fill(&mut a, b);
    assert_eq!(a, Some("abc"));

    // none vs none => nothing happens
    let mut a: Option<bool> = None;
    let b = None;
    _fill(&mut a, b);
    assert_eq!(a, None);
}

#[test]
fn test_atcoder_url() {
    assert_eq!(
        atocder_url("abc", "c"),
        String::from("https://atcoder.jp/contests/abc/tasks/abc_c")
    );
}

#[test]
fn atcoder_url_other_ids() {
    assert_eq!(
        atocder_url("arc100", "a"),
        String::from("https://atcoder.jp/contests/arc100/tasks/arc100_a")
    );
}

fn empty_bundle() -> TemplateConf {
    TemplateConf { judgeconf: None, py: None, pypy: None, cython: None, rs: None }
}

fn partial_limits() -> JudgeConfTemplate {
    JudgeConfTemplate {
        py: None,
        pypy: Some(true),
        cython: None,
        rs: None,
        mle: 256,
        tle: 5000,
        mode: Some(String::from("partial-match")),
        verbose: None,
    }
}

#[test]
fn no_template_gives_system_defaults() {
    let t = resolve_template(None);
    let l = t.judgeconf.as_ref().unwrap();
    assert_eq!(l.py, Some(true));
    assert_eq!(l.pypy, Some(false));
    assert_eq!(l.cython, Some(false));
    assert_eq!(l.rs, Some(false));
    assert_eq!(l.mle, 1024);
    assert_eq!(l.tle, 2000);
    assert_eq!(l.mode.as_deref(), Some("exact-match"));
    assert_eq!(l.verbose.as_deref(), Some("error_detail"));
    assert_eq!(t.py.as_ref().unwrap().src, PY_BOILERPLATE);
    assert!(t.pypy.is_none() && t.cython.is_none() && t.rs.is_none());
}

#[test]
fn present_mode_wins_over_default() {
    let mut user = empty_bundle();
    user.judgeconf = Some(partial_limits());
    let t = resolve_template(Some(user));
    let l = t.judgeconf.as_ref().unwrap();
    assert_eq!(l.mode.as_deref(), Some("partial-match"));
    assert_eq!(l.pypy, Some(true));
    assert_eq!(l.py, Some(true));
    assert_eq!(l.verbose.as_deref(), Some("error_detail"));
    assert_eq!(l.mle, 256);
    assert_eq!(l.tle, 5000);
}

#[test]
fn absent_limits_block_taken_whole() {
    let mut user = empty_bundle();
    user.rs = Some(LangTemplate { src: String::from("fn main() {}") });
    let t = resolve_template(Some(user));
    let l = t.judgeconf.as_ref().unwrap();
    assert_eq!(l.py, Some(true));
    assert_eq!(l.pypy, Some(false));
    assert_eq!(l.mle, 1024);
    assert_eq!(l.tle, 2000);
    assert_eq!(l.mode.as_deref(), Some("exact-match"));
    assert_eq!(t.rs.as_ref().unwrap().src, "fn main() {}");
    assert_eq!(t.py.as_ref().unwrap().src, PY_BOILERPLATE);
}

#[test]
fn user_boilerplate_entry_wins() {
    let mut user = empty_bundle();
    user.py = Some(LangTemplate { src: String::from("print(1)") });
    let t = resolve_template(Some(user));
    assert_eq!(t.py.as_ref().unwrap().src, "print(1)");
}

#[test]
fn config_with_both_ids_gets_url() {
    let c = Config::new("/work/abc_c", None, Some(String::from("abc")), Some(String::from("c")));
    let j = &c.judgeconf;
    assert_eq!(j.url, "https://atcoder.jp/contests/abc/tasks/abc_c");
    assert_eq!(j.contest, "abc");
    assert_eq!(j.problem, "c");
    assert_eq!(j.workdir, "/work/abc_c");
    assert_eq!(j.testdir, "/work/abc_c/tests");
    assert_eq!(j.file, "");
    assert!(j.py && !j.pypy && !j.cython && !j.rs);
    assert_eq!(j.mle, 1024);
    assert_eq!(j.tle, 2000);
    assert_eq!(j.mode, "exact-match");
    assert_eq!(j.verbose, "error_detail");
}

#[test]
fn config_with_one_id_has_no_url() {
    let c = Config::new("/work/x", None, Some(String::from("abc")), None);
    assert_eq!(c.judgeconf.url, "");
    assert_eq!(c.judgeconf.contest, "abc");
    assert_eq!(c.judgeconf.problem, "");
}

#[test]
fn config_uses_user_limits() {
    let mut user = empty_bundle();
    user.judgeconf = Some(partial_limits());
    let c = Config::new("/w", Some(user), None, None);
    assert_eq!(c.judgeconf.mode, "partial-match");
    assert!(c.judgeconf.pypy);
    assert_eq!(c.judgeconf.mle, 256);
}

#[test]
fn incomplete_limits_fall_back_whole() {
    let mut bundle = empty_bundle();
    bundle.judgeconf = Some(partial_limits());
    let j = JudgeConf::build(&bundle, None, None, "/w");
    assert_eq!(j.mode, "exact-match");
    assert!(!j.pypy);
    assert_eq!(j.mle, 1024);
    assert_eq!(j.tle, 2000);
}

#[test]
fn fetched_limits_replace_template_limits() {
    let mut j = JudgeConf::system_conf();
    j.apply_limits(512, 3000);
    assert_eq!(j.mle, 512);
    assert_eq!(j.tle, 3000);
    assert_eq!(j.mode, "exact-match");
}

#[test]
fn walk_stops_at_found_template() {
    let r = walk_step("/a/b", TemplateLoad::Found(empty_bundle()));
    assert!(matches!(r, WalkStep::Found(_)));
    let r = walk_step("/a/b", TemplateLoad::Malformed(String::from("bad")));
    assert!(matches!(r, WalkStep::Malformed(ref e) if e == "bad"));
}

#[test]
fn walk_ascends_until_root() {
    let r = walk_step("/a/b", TemplateLoad::Missing);
    assert!(matches!(r, WalkStep::Ascend(ref p) if p == "/a"));
    let r = walk_step("/", TemplateLoad::Missing);
    assert!(matches!(r, WalkStep::NoTemplate));
}

#[test]
fn scaffold_names() {
    let c = Some(String::from("abc"));
    let p = Some(String::from("c"));
    assert_eq!(workdir_name(&c, &p), "abc_c");
    assert_eq!(workdir_name(&None, &None), "contest_");
    assert_eq!(source_stem(&p), "c");
    assert_eq!(source_stem(&None), "sol");
    assert_eq!(py_source_path("/w", "c"), "/w/c.py");
    let t = Some(LangTemplate { src: String::from("x = 1") });
    assert_eq!(template_source(&t), "x = 1");
    assert_eq!(template_source(&None), "");
}
