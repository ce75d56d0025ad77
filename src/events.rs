use vstd::prelude::*;
use vstd::string::*;
use crate::paths::{
    FsPath, PathView, extension_of, file_name_of, strip_prefix_of, join_of,
    with_extension_of, stem_of_name, dot,
};

verus! {

/// What happened to a file, as far as the watcher loop cares.
#[derive(Clone, Copy, Debug, PartialEq, Eq, Structural)]
pub enum EventKind {
    Create,
    Modify,
    Other,
}

/// A change notification: its kind and the paths it concerns.
#[derive(Debug)]
pub struct FsEvent {
    pub kind: EventKind,
    pub paths: Vec<FsPath>,
}

pub struct FsEventView {
    pub kind: EventKind,
    pub paths: Seq<PathView>,
}

impl View for FsEvent {
    type V = FsEventView;

    open spec fn view(&self) -> FsEventView {
        FsEventView { kind: self.kind, paths: self.paths@.map_values(|p: FsPath| p@) }
    }
}

/// What the watcher loop does with one event.
#[derive(Debug)]
pub enum Decision {
    /// Nothing: not a change to a stylesheet source.
    Ignore,
    /// A partial stylesheet changed: it is only ever included, never compiled.
    SkipPartial(FsPath),
    /// Compile this source.
    Compile(FsPath),
}

pub enum DecisionView {
    Ignore,
    SkipPartial(PathView),
    Compile(PathView),
}

impl View for Decision {
    type V = DecisionView;

    open spec fn view(&self) -> DecisionView {
        match self {
            Decision::Ignore => DecisionView::Ignore,
            Decision::SkipPartial(p) => DecisionView::SkipPartial(p@),
            Decision::Compile(p) => DecisionView::Compile(p@),
        }
    }
}

pub open spec fn scss_text() -> Seq<char> {
    seq!['s', 'c', 's', 's']
}

pub open spec fn css_text() -> Seq<char> {
    seq!['c', 's', 's']
}

pub open spec fn is_change(k: EventKind) -> bool {
    k == EventKind::Create || k == EventKind::Modify
}

/// A file name marked as a partial: it starts with '_'.
pub open spec fn is_partial_name(n: Seq<char>) -> bool {
    n.len() > 0 && n[0] == '_'
}

pub open spec fn is_partial(p: PathView) -> bool {
    match file_name_of(p) {
        Some(n) => is_partial_name(n),
        None => false,
    }
}

/// A stylesheet source that is compiled on its own.
pub open spec fn is_compilable(p: PathView) -> bool {
    extension_of(p) == Some(scss_text()) && !is_partial(p)
}

/// The decision for an event: only the first path of a create or modify
/// event counts, and only when it has the `scss` extension.
pub open spec fn decision_of(e: FsEventView) -> DecisionView {
    if !is_change(e.kind) || e.paths.len() == 0 {
        DecisionView::Ignore
    } else if extension_of(e.paths[0]) != Some(scss_text()) {
        DecisionView::Ignore
    } else if is_partial(e.paths[0]) {
        DecisionView::SkipPartial(e.paths[0])
    } else {
        DecisionView::Compile(e.paths[0])
    }
}

/// Where the compiled form of `source` goes: its place under `watch_root`,
/// taken under `output_root`, with the extension `css`.
pub open spec fn output_path_of(source: PathView, watch_root: PathView, output_root: PathView) -> Option<PathView> {
    match strip_prefix_of(source, watch_root) {
        Some(rel) => Some(with_extension_of(join_of(output_root, rel), css_text())),
        None => None,
    }
}

pub fn is_change_kind(k: EventKind) -> (r: bool)
    ensures
        r == is_change(k),
{
    match k {
        EventKind::Create => true,
        EventKind::Modify => true,
        EventKind::Other => false,
    }
}

/// Whether the file name of `p` starts with '_'.
pub fn is_partial_path(p: &FsPath) -> (r: bool)
    ensures
        r == is_partial(p@),
{
    match p.file_name() {
        Some(name) => {
            let text = name.as_str();
            text.unicode_len() > 0 && text.get_char(0) == '_'
        },
        None => false,
    }
}

/// Whether `p` has the `scss` extension.
pub fn has_scss_extension(p: &FsPath) -> (r: bool)
    ensures
        r == (extension_of(p@) == Some(scss_text())),
{
    match p.extension() {
        Some(ext) => {
            proof {
                reveal_strlit("scss");
                assert("scss"@ =~= scss_text());
            }
            crate::paths::same_text(ext.as_str(), "scss")
        },
        None => false,
    }
}

/// Whether `p` is a stylesheet source that is compiled on its own.
pub fn is_compilable_path(p: &FsPath) -> (r: bool)
    ensures
        r == is_compilable(p@),
{
    has_scss_extension(p) && !is_partial_path(p)
}

/// Decides what to do with one event.
pub fn classify(event: &FsEvent) -> (r: Decision)
    ensures
        r@ == decision_of(event@),
{
    if !is_change_kind(event.kind) || event.paths.len() == 0 {
        return Decision::Ignore;
    }
    let first = &event.paths[0];
    if !has_scss_extension(first) {
        Decision::Ignore
    } else if is_partial_path(first) {
        Decision::SkipPartial(first.duplicate())
    } else {
        Decision::Compile(first.duplicate())
    }
}

/// Where the compiled form of `source` goes, or none when `source` does not
/// lie under `watch_root`.
pub fn output_path(source: &FsPath, watch_root: &FsPath, output_root: &FsPath) -> (r: Option<FsPath>)
    ensures
        match r {
            Some(out) => output_path_of(source@, watch_root@, output_root@) == Some(out@),
            None => output_path_of(source@, watch_root@, output_root@) is None,
        },
{
    match source.strip_prefix(watch_root) {
        Some(rel) => {
            proof {
                reveal_strlit("css");
                assert("css"@ =~= css_text());
            }
            Some(output_root.join(&rel).with_extension("css"))
        },
        None => None,
    }
}

/// Only a create or modify event can lead to a compilation: every other kind
/// of event is ignored.
pub proof fn other_kinds_are_ignored(e: FsEventView)
    requires
        !is_change(e.kind),
    ensures
        decision_of(e) == DecisionView::Ignore,
{
}

/// A file whose extension is not `scss` is never compiled, whatever the event.
pub proof fn other_extensions_are_ignored(e: FsEventView)
    requires
        e.paths.len() > 0,
        extension_of(e.paths[0]) != Some(scss_text()),
    ensures
        decision_of(e) == DecisionView::Ignore,
{
}

/// A partial (file name starting with '_') is never compiled, whatever its
/// extension and the kind of event; so no output is ever written for it.
pub proof fn partials_are_never_compiled(e: FsEventView)
    requires
        e.paths.len() > 0,
        is_partial(e.paths[0]),
    ensures
        !(decision_of(e) is Compile),
        !is_compilable(e.paths[0]),
{
}

/// What is compiled is exactly the first path of a create or modify event,
/// and it is a compilable source.
pub proof fn compiled_sources_are_compilable(e: FsEventView)
    requires
        decision_of(e) is Compile,
    ensures
        is_change(e.kind),
        e.paths.len() > 0,
        decision_of(e) == DecisionView::Compile(e.paths[0]),
        is_compilable(e.paths[0]),
{
}

/// For a compilable source strictly under the watch root, the output path is
/// the output root, then the source's directories below the watch root, then
/// the source's file name with its extension replaced by `css`.
pub proof fn output_mirrors_source(source: PathView, watch_root: PathView, output_root: PathView)
    requires
        is_compilable(source),
        source.absolute == watch_root.absolute,
        watch_root.parts.len() < source.parts.len(),
        source.parts.subrange(0, watch_root.parts.len() as int) == watch_root.parts,
    ensures
        output_path_of(source, watch_root, output_root) == Some(PathView {
            absolute: output_root.absolute,
            parts: output_root.parts
                + source.parts.subrange(watch_root.parts.len() as int, source.parts.len() - 1)
                + seq![stem_of_name(source.parts.last()) + dot() + css_text()],
        }),
{
    let m = watch_root.parts.len() as int;
    let n = source.parts.len() as int;
    let rel = source.parts.subrange(m, n);
    let joined = PathView { absolute: output_root.absolute, parts: output_root.parts + rel };
    assert(strip_prefix_of(source, watch_root) == Some(PathView { absolute: false, parts: rel }));
    assert(joined.parts.last() == source.parts.last());
    assert(file_name_of(joined) == file_name_of(source));
    assert(joined.parts.drop_last().push(stem_of_name(source.parts.last()) + dot() + css_text()) =~= output_root.parts
        + source.parts.subrange(m, n - 1) + seq![stem_of_name(source.parts.last()) + dot() + css_text()]);
}

} // verus!
