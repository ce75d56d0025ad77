use sass_watch::events::{classify, output_path, Decision, EventKind, FsEvent, is_compilable_path};
use sass_watch::paths::FsPath;
use sass_watch::steps::{after_compile, plan_job, CompileStep, Job, ResolveError};

fn path(text: &str) -> FsPath {
    let absolute = text.starts_with('/');
    let parts: Vec<String> = text
        .split('/')
        .filter(|s| !s.is_empty())
        .map(|s| s.to_string())
        .collect();
    FsPath::new(absolute, parts)
}

fn parts(p: &FsPath) -> Vec<&str> {
    p.parts.iter().map(|s| s.as_str()).collect()
}

fn event(kind: EventKind, paths: &[&str]) -> FsEvent {
    FsEvent { kind, paths: paths.iter().map(|p| path(p)).collect() }
}

#[test]
fn nested_source_maps_under_output_root() {
    let out = output_path(&path("/work/sass/components/button.scss"), &path("/work/sass"), &path("./css")).unwrap();
    assert!(!out.absolute);
    assert_eq!(parts(&out), vec![".", "css", "components", "button.css"]);
    let dir = out.parent().unwrap();
    assert_eq!(parts(&dir), vec![".", "css", "components"]);
}

#[test]
fn source_at_top_level_maps_to_output_root() {
    let out = output_path(&path("/work/sass/site.scss"), &path("/work/sass"), &path("/srv/css")).unwrap();
    assert!(out.absolute);
    assert_eq!(parts(&out), vec!["srv", "css", "site.css"]);
}

#[test]
fn only_last_extension_is_replaced() {
    let out = output_path(&path("/w/sass/theme.dark.scss"), &path("/w/sass"), &path("css")).unwrap();
    assert_eq!(parts(&out), vec!["css", "theme.dark.css"]);
}

#[test]
fn source_outside_watch_root_has_no_output() {
    assert!(output_path(&path("/other/site.scss"), &path("/work/sass"), &path("./css")).is_none());
    assert!(output_path(&path("/work/sassy/site.scss"), &path("/work/sass"), &path("./css")).is_none());
    assert!(output_path(&path("work/sass/site.scss"), &path("/work/sass"), &path("./css")).is_none());
}

#[test]
fn modify_of_plain_source_is_compiled() {
    match classify(&event(EventKind::Modify, &["./sass/components/button.scss"])) {
        Decision::Compile(p) => assert_eq!(parts(&p), vec![".", "sass", "components", "button.scss"]),
        _ => panic!("expected a compilation"),
    }
    match classify(&event(EventKind::Create, &["/w/sass/new.scss", "/w/sass/other.scss"])) {
        Decision::Compile(p) => assert_eq!(parts(&p), vec!["w", "sass", "new.scss"]),
        _ => panic!("expected a compilation of the first path"),
    }
}

#[test]
fn modify_of_partial_is_skipped() {
    match classify(&event(EventKind::Modify, &["./sass/_mixins.scss"])) {
        Decision::SkipPartial(p) => assert_eq!(parts(&p), vec![".", "sass", "_mixins.scss"]),
        _ => panic!("expected a skipped partial"),
    }
    assert!(!is_compilable_path(&path("./sass/_mixins.scss")));
}

#[test]
fn partial_with_other_extension_is_ignored() {
    assert!(matches!(classify(&event(EventKind::Create, &["./sass/_notes.txt"])), Decision::Ignore));
}

#[test]
fn other_event_kinds_are_ignored() {
    assert!(matches!(classify(&event(EventKind::Other, &["./sass/site.scss"])), Decision::Ignore));
}

#[test]
fn other_extensions_are_ignored() {
    for p in ["./sass/site.css", "./sass/site.SCSS", "./sass/site", "./sass/.scss", "./sass/site.scss.bak"] {
        assert!(matches!(classify(&event(EventKind::Modify, &[p])), Decision::Ignore), "{}", p);
    }
}

#[test]
fn event_without_paths_is_ignored() {
    assert!(matches!(classify(&event(EventKind::Modify, &[])), Decision::Ignore));
}

#[test]
fn extension_and_file_name_follow_path_rules() {
    assert_eq!(path("/a/archive.tar.gz").extension().unwrap(), "gz");
    assert!(path("/a/.bashrc").extension().is_none());
    assert_eq!(path("/a/name.").extension().unwrap(), "");
    assert_eq!(path("/a/b.c/file").file_name().unwrap(), "file");
    assert!(path("/a/file").extension().is_none());
    assert!(path("/a/..").file_name().is_none());
    assert!(path("/").file_name().is_none());
}

#[test]
fn with_extension_replaces_or_removes() {
    assert_eq!(parts(&path("a/b.scss").with_extension("css")), vec!["a", "b.css"]);
    assert_eq!(parts(&path("a/b").with_extension("css")), vec!["a", "b.css"]);
    assert_eq!(parts(&path("a/b.scss").with_extension("")), vec!["a", "b"]);
    assert_eq!(parts(&path("a/..").with_extension("css")), vec!["a", ".."]);
}

#[test]
fn join_with_absolute_replaces() {
    let j = path("./css").join(&path("/abs/x"));
    assert!(j.absolute);
    assert_eq!(parts(&j), vec!["abs", "x"]);
    let k = path("./css").join(&path("sub/x"));
    assert_eq!(parts(&k), vec![".", "css", "sub", "x"]);
}

#[test]
fn plan_job_builds_source_and_target() {
    let job = plan_job(Ok(path("/w/sass")), Ok(path("/w/sass/components/button.scss")), &path("./css")).unwrap();
    assert_eq!(parts(&job.source), vec!["w", "sass", "components", "button.scss"]);
    assert_eq!(parts(&job.target), vec![".", "css", "components", "button.css"]);
}

#[test]
fn unresolvable_source_is_reported_and_next_event_still_works() {
    match plan_job(Ok(path("/w/sass")), Err("No such file or directory".to_string()), &path("./css")) {
        Err(ResolveError::Source(m)) => assert_eq!(m, "No such file or directory"),
        _ => panic!("expected a source error"),
    }
    let job = plan_job(Ok(path("/w/sass")), Ok(path("/w/sass/site.scss")), &path("./css")).unwrap();
    assert_eq!(parts(&job.target), vec![".", "css", "site.css"]);
}

#[test]
fn unresolvable_watch_root_comes_first() {
    match plan_job(Err("denied".to_string()), Err("gone".to_string()), &path("./css")) {
        Err(ResolveError::WatchRoot(m)) => assert_eq!(m, "denied"),
        _ => panic!("expected a watch root error"),
    }
}

#[test]
fn resolved_source_outside_root_is_rejected() {
    assert!(matches!(
        plan_job(Ok(path("/w/sass")), Ok(path("/tmp/link/site.scss")), &path("./css")),
        Err(ResolveError::NotUnderRoot)
    ));
}

fn sample_job() -> Job {
    plan_job(Ok(path("/w/sass")), Ok(path("/w/sass/broken.scss")), &path("./css")).unwrap()
}

#[test]
fn compiler_error_is_reported_without_write() {
    match after_compile(&sample_job(), Err("expected \"}\".".to_string())) {
        CompileStep::Report { source, message } => {
            assert_eq!(source.file_name().unwrap(), "broken.scss");
            assert_eq!(message, "expected \"}\".");
        }
        CompileStep::Write { .. } => panic!("nothing may be written"),
    }
}

#[test]
fn compiled_text_is_written_to_target() {
    match after_compile(&sample_job(), Ok("a{b:c}".to_string())) {
        CompileStep::Write { dir, target, css } => {
            assert_eq!(parts(&dir.unwrap()), vec![".", "css"]);
            assert_eq!(parts(&target), vec![".", "css", "broken.css"]);
            assert_eq!(css, "a{b:c}");
        }
        CompileStep::Report { .. } => panic!("expected a write"),
    }
}

#[test]
fn same_compiler_output_gives_same_write() {
    let first = after_compile(&sample_job(), Ok("a{color:red}".to_string()));
    let second = after_compile(&sample_job(), Ok("a{color:red}".to_string()));
    match (first, second) {
        (CompileStep::Write { target: t1, css: c1, .. }, CompileStep::Write { target: t2, css: c2, .. }) => {
            assert_eq!(parts(&t1), parts(&t2));
            assert_eq!(c1, c2);
        }
        _ => panic!("expected two writes"),
    }
}
