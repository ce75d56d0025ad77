use vstd::prelude::*;
use crate::paths::{FsPath, parent_of};
use crate::events::output_path_of;

verus! {

/// Why a source that passed the filter gets no output path.
#[derive(Debug)]
pub enum ResolveError {
    /// The watch root could not be resolved; the text says why.
    WatchRoot(String),
    /// The changed file could not be resolved (gone again, unreadable); the
    /// text says why.
    Source(String),
    /// The resolved file does not lie under the resolved watch root.
    NotUnderRoot,
}

/// A compilation to run: the resolved source and where its output goes.
#[derive(Debug)]
pub struct Job {
    pub source: FsPath,
    pub target: FsPath,
}

/// What follows a compilation.
#[derive(Debug)]
pub enum CompileStep {
    /// Create `dir` (with its ancestors) if there is one, then write `css`
    /// to `target`, replacing what was there.
    Write { dir: Option<FsPath>, target: FsPath, css: String },
    /// The compiler refused `source`; `message` is its reason. Nothing is written.
    Report { source: FsPath, message: String },
}

/// Turns the resolved watch root and the resolved changed file into a job.
/// The watch root is looked at first: when it failed, the file's result does
/// not matter.
pub fn plan_job(
    watch_root: Result<FsPath, String>,
    source: Result<FsPath, String>,
    output_root: &FsPath,
) -> (r: Result<Job, ResolveError>)
    ensures
        watch_root is Err ==> r == Err::<Job, ResolveError>(ResolveError::WatchRoot(watch_root->Err_0)),
        watch_root is Ok && source is Err ==> r == Err::<Job, ResolveError>(ResolveError::Source(source->Err_0)),
        watch_root is Ok && source is Ok ==> match output_path_of(source->Ok_0@, watch_root->Ok_0@, output_root@) {
            Some(t) => r is Ok && r->Ok_0.source@ == source->Ok_0@ && r->Ok_0.target@ == t,
            None => r is Err && r->Err_0 is NotUnderRoot,
        },
{
    let root = match watch_root {
        Ok(p) => p,
        Err(m) => {
            return Err(ResolveError::WatchRoot(m));
        },
    };
    let file = match source {
        Ok(p) => p,
        Err(m) => {
            return Err(ResolveError::Source(m));
        },
    };
    match crate::events::output_path(&file, &root, output_root) {
        Some(target) => Ok(Job { source: file, target }),
        None => Err(ResolveError::NotUnderRoot),
    }
}

/// Decides what follows a compilation of `job.source`: the compiled text is
/// written, unchanged, to `job.target` inside its parent directory; a
/// compiler error is reported with the source and writes nothing.
pub fn after_compile(job: &Job, compiled: Result<String, String>) -> (r: CompileStep)
    ensures
        compiled is Ok ==> match r {
            CompileStep::Write { dir, target, css } => target@ == job.target@ && css == compiled->Ok_0
                && match dir {
                    Some(d) => parent_of(job.target@) == Some(d@),
                    None => parent_of(job.target@) is None,
                },
            CompileStep::Report { .. } => false,
        },
        compiled is Err ==> match r {
            CompileStep::Report { source, message } => source@ == job.source@ && message == compiled->Err_0,
            CompileStep::Write { .. } => false,
        },
{
    match compiled {
        Ok(css) => CompileStep::Write { dir: job.target.parent(), target: job.target.duplicate(), css },
        Err(message) => CompileStep::Report { source: job.source.duplicate(), message },
    }
}

} // verus!
