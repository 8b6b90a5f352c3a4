//! The installation's stages and the order in which they run.

use vstd::prelude::*;
use vstd::string::*;
use crate::text::concat3;

verus! {

/// A stage of an installation run. Components are processed one after the
/// other: component `i + 1` is downloaded only after component `i` has been
/// extracted.
#[derive(Debug, Clone, Copy, PartialEq, Eq)]
pub enum Stage {
    ResolvePath,
    Nuke,
    /// Download the artifact of the component with this index.
    Download(usize),
    /// Extract the artifact of the component with this index.
    Extract(usize),
    Finalize,
    Complete,
    Failed,
}

impl Stage {
    pub open spec fn is_terminal(self) -> bool {
        self is Complete || self is Failed
    }
}

/// The stage after `stage` with `n` components, when `stage` succeeded
/// (`ok`) or failed. Any failure ends the run; a finished run stays finished.
pub open spec fn next_spec(stage: Stage, ok: bool, n: usize) -> Stage {
    if stage.is_terminal() {
        stage
    } else if !ok {
        Stage::Failed
    } else {
        match stage {
            Stage::ResolvePath => Stage::Nuke,
            Stage::Nuke => if n > 0 { Stage::Download(0) } else { Stage::Finalize },
            Stage::Download(i) => Stage::Extract(i),
            Stage::Extract(i) => if i + 1 < n { Stage::Download((i + 1) as usize) } else { Stage::Finalize },
            Stage::Finalize => Stage::Complete,
            _ => stage,
        }
    }
}

pub fn next_stage(stage: Stage, ok: bool, n: usize) -> (r: Stage)
    ensures
        r == next_spec(stage, ok, n),
{
    match stage {
        Stage::Complete | Stage::Failed => stage,
        _ => if !ok {
            Stage::Failed
        } else {
            match stage {
                Stage::ResolvePath => Stage::Nuke,
                Stage::Nuke => if n > 0 { Stage::Download(0) } else { Stage::Finalize },
                Stage::Download(i) => Stage::Extract(i),
                Stage::Extract(i) => if i < n && i + 1 < n { Stage::Download(i + 1) } else { Stage::Finalize },
                Stage::Finalize => Stage::Complete,
                _ => stage,
            }
        },
    }
}

/// The stage reached after `k` successful stages with `n` components.
pub open spec fn run_spec(n: usize, k: nat) -> Stage
    decreases k,
{
    if k == 0 {
        Stage::ResolvePath
    } else {
        next_spec(run_spec(n, (k - 1) as nat), true, n)
    }
}

/// The same stage in closed form: resolve, remove, then a download and an
/// extraction per component, then one finalization.
pub open spec fn stage_at(n: usize, k: nat) -> Stage {
    if k == 0 {
        Stage::ResolvePath
    } else if k == 1 {
        Stage::Nuke
    } else if k < 2 * n + 2 {
        let j = k - 2;
        if j % 2 == 0 {
            Stage::Download((j / 2) as usize)
        } else {
            Stage::Extract((j / 2) as usize)
        }
    } else if k == 2 * n + 2 {
        Stage::Finalize
    } else {
        Stage::Complete
    }
}

/// A run in which every stage succeeds goes through the stages in closed
/// form; it finalizes exactly once, after the last component's extraction,
/// never once per component.
pub proof fn lemma_successful_run(n: usize, k: nat)
    ensures
        run_spec(n, k) == stage_at(n, k),
        run_spec(n, k) is Finalize <==> k == 2 * n + 2,
        run_spec(n, k) matches Stage::Extract(i) ==> i < n && k == 2 * i + 3,
        run_spec(n, k) matches Stage::Download(i) ==> i < n && k == 2 * i + 2,
    decreases k,
{
    if k > 0 {
        lemma_successful_run(n, (k - 1) as nat);
    }
}

/// The components of the application, in installation order.
pub fn components() -> (r: Vec<&'static str>)
    ensures
        r@.len() == 3,
        r@[0]@ == "kernel"@,
        r@[1]@ == "engine"@,
        r@[2]@ == "spatialshot"@,
{
    vec!["kernel", "engine", "spatialshot"]
}

/// The file name under the temporary directory that holds a component's
/// downloaded archive.
pub open spec fn temp_archive_name_spec(component: Seq<char>) -> Seq<char> {
    "spatialshot-"@ + component + ".zip"@
}

pub fn temp_archive_name(component: &str) -> (r: String)
    ensures
        r@ == temp_archive_name_spec(component@),
{
    concat3("spatialshot-", component, ".zip")
}

/// One installation run over a fixed, ordered list of components.
pub struct Installer {
    pub components: Vec<String>,
    pub stage: Stage,
}

impl Installer {
    pub fn new(components: Vec<String>) -> (r: Installer)
        ensures
            r.components@ == components@,
            r.stage == Stage::ResolvePath,
    {
        Installer { components, stage: Stage::ResolvePath }
    }

    /// Moves to the next stage after the current one succeeded or failed.
    pub fn advance(&mut self, ok: bool)
        ensures
            final(self).components@ == old(self).components@,
            final(self).stage == next_spec(old(self).stage, ok, old(self).components@.len() as usize),
    {
        self.stage = next_stage(self.stage, ok, self.components.len());
    }
}

} // verus!
