//! The per-file export job: the artifact planned for each listed grid — its
//! primary and fallback output paths and, when the grid decoded, its content
//! — and the two small state machines that own the job's error containment:
//! the per-file job states and the per-grid sink creation policy.

use vstd::prelude::*;
use crate::artifact::artifact_text;
use crate::artifact::render_artifact;
use crate::entry::VoxelEntry;
use crate::paths::fallback_output_path;
use crate::paths::grid_output_path;
use crate::paths::vdb_ext_spec;
use crate::paths::with_grid_ext;
use crate::textfmt::dec_nat;

verus! {

/// The planned export of one grid: where its artifact goes, where the
/// fallback artifact goes if the primary path cannot be created, and the
/// artifact's content — `None` when the grid could not be decoded, in which
/// case the grid is skipped and its siblings go on.
pub struct GridExport {
    pub name: String,
    pub primary_path: String,
    pub fallback_path: String,
    pub content: Option<String>,
}

/// What `export_grid` promises of its result: the primary path carries the
/// grid's name, the fallback path carries the grid's list index, and the
/// content is exactly the artifact text of the decoded entries when decoding
/// succeeded.
pub open spec fn grid_export_ok(
    g: GridExport,
    decoded: Option<Seq<VoxelEntry>>,
    base: Seq<char>,
    name: Seq<char>,
    index: int,
) -> bool {
    &&& g.name@ == name
    &&& g.primary_path@ == with_grid_ext(base, name)
    &&& g.fallback_path@ == with_grid_ext(base, dec_nat(index as nat))
    &&& (g.content is Some <==> decoded is Some)
    &&& (decoded matches Some(es) ==> g.content matches Some(c) && c@ == artifact_text(es))
}

/// Plans the export of one grid of a source file. `decoded` is the decoder's
/// outcome for this grid: the voxel entries it yielded, in order, or `None`
/// when the grid could not be read — the plan then carries no content and
/// the grid is skipped on its own, without failing its siblings.
pub fn export_grid(
    decoded: Option<&Vec<VoxelEntry>>,
    output_base: &str,
    name: &String,
    index: usize,
) -> (g: GridExport)
    requires
        vdb_ext_spec(output_base@),
    ensures
        grid_export_ok(
            g,
            match decoded {
                Some(es) => Some(es@),
                None => None,
            },
            output_base@,
            name@,
            index as int,
        ),
{
    let primary_path = grid_output_path(output_base, name.as_str());
    let fallback_path = fallback_output_path(output_base, index);
    let content = match decoded {
        Some(es) => Some(render_artifact(es)),
        None => None,
    };
    GridExport { name: name.clone(), primary_path, fallback_path, content }
}

/// Plans the output paths of every grid listed for one source file: the
/// artifact of the grid named `names[i]` goes to the path carrying that
/// name, and, should that path not be creatable, to the fallback path
/// carrying the index `i`.
pub fn plan_grid_outputs(names: &Vec<String>, output_base: &str) -> (r: Vec<(String, String)>)
    requires
        vdb_ext_spec(output_base@),
    ensures
        r@.len() == names@.len(),
        forall|i: int|
            0 <= i < names@.len() ==> (#[trigger] r@[i]).0@ == with_grid_ext(
                output_base@,
                names@[i]@,
            ) && r@[i].1@ == with_grid_ext(output_base@, dec_nat(i as nat)),
{
    let mut r: Vec<(String, String)> = Vec::new();
    let n = names.len();
    let mut i: usize = 0;
    while i < n
        invariant
            n == names@.len(),
            i <= n,
            r@.len() == i,
            vdb_ext_spec(output_base@),
            forall|j: int|
                0 <= j < i ==> (#[trigger] r@[j]).0@ == with_grid_ext(output_base@, names@[j]@)
                    && r@[j].1@ == with_grid_ext(output_base@, dec_nat(j as nat)),
        decreases n - i,
    {
        let primary = grid_output_path(output_base, names[i].as_str());
        let fallback = fallback_output_path(output_base, i);
        r.push((primary, fallback));
        i = i + 1;
    }
    r
}

/// The states of one source file's export job.
#[derive(Clone, Copy, Debug, PartialEq, Eq, Structural)]
pub enum JobState {
    /// Nothing done yet.
    Init,
    /// The output artifact's parent directory exists.
    DirectoryEnsured,
    /// The source stream parsed and its grid list is known.
    GridsListed,
    /// Every listed grid was attempted; per-grid failures do not leave this
    /// state.
    Done,
    /// The job stopped early: the parent directory could not be created, or
    /// the source stream did not parse for the grid-listing scan.
    Aborted,
}

/// What the runner observed while driving one job.
#[derive(Clone, Copy, Debug, PartialEq, Eq, Structural)]
pub enum JobEvent {
    /// Creating the artifact's parent directory succeeded / failed.
    DirEnsured,
    DirFailed,
    /// Opening the source stream and listing its grids succeeded / failed.
    GridsFound,
    ListingFailed,
    /// Every grid in the list was attempted, whether or not it succeeded.
    AllGridsAttempted,
}

/// The job's transition function. Directory failure aborts the whole file;
/// listing failure aborts the whole file; once the grids are listed the job
/// always runs to `Done`, per-grid failures notwithstanding. An event that
/// does not belong to the current state changes nothing.
pub open spec fn job_step_spec(s: JobState, e: JobEvent) -> JobState {
    match (s, e) {
        (JobState::Init, JobEvent::DirEnsured) => JobState::DirectoryEnsured,
        (JobState::Init, JobEvent::DirFailed) => JobState::Aborted,
        (JobState::DirectoryEnsured, JobEvent::GridsFound) => JobState::GridsListed,
        (JobState::DirectoryEnsured, JobEvent::ListingFailed) => JobState::Aborted,
        (JobState::GridsListed, JobEvent::AllGridsAttempted) => JobState::Done,
        (_, _) => s,
    }
}

/// Advances one job by one observed event.
pub fn job_step(s: JobState, e: JobEvent) -> (t: JobState)
    ensures
        t == job_step_spec(s, e),
{
    match (s, e) {
        (JobState::Init, JobEvent::DirEnsured) => JobState::DirectoryEnsured,
        (JobState::Init, JobEvent::DirFailed) => JobState::Aborted,
        (JobState::DirectoryEnsured, JobEvent::GridsFound) => JobState::GridsListed,
        (JobState::DirectoryEnsured, JobEvent::ListingFailed) => JobState::Aborted,
        (JobState::GridsListed, JobEvent::AllGridsAttempted) => JobState::Done,
        (_, _) => s,
    }
}

/// The creation policy of one grid's output sink.
#[derive(Clone, Copy, Debug, PartialEq, Eq, Structural)]
pub enum SinkPhase {
    /// Try to create the artifact at its primary path.
    TryPrimary,
    /// The primary path could not be created: try the fallback path once.
    TryFallback,
    /// A sink is open and rows may be written.
    Writing,
    /// Both paths failed; the grid is abandoned, its siblings are not.
    Abandoned,
}

/// The sink policy's transition function: one retry against the fallback
/// path, then give up on this one grid.
pub open spec fn sink_step_spec(p: SinkPhase, created: bool) -> SinkPhase {
    match p {
        SinkPhase::TryPrimary => if created {
            SinkPhase::Writing
        } else {
            SinkPhase::TryFallback
        },
        SinkPhase::TryFallback => if created {
            SinkPhase::Writing
        } else {
            SinkPhase::Abandoned
        },
        _ => p,
    }
}

/// Advances the sink policy by one creation attempt's outcome.
pub fn sink_step(p: SinkPhase, created: bool) -> (q: SinkPhase)
    ensures
        q == sink_step_spec(p, created),
{
    match p {
        SinkPhase::TryPrimary => if created {
            SinkPhase::Writing
        } else {
            SinkPhase::TryFallback
        },
        SinkPhase::TryFallback => if created {
            SinkPhase::Writing
        } else {
            SinkPhase::Abandoned
        },
        _ => p,
    }
}

/// The path the sink policy asks to create in phase `p`, given a grid's
/// primary and fallback output paths.
pub fn attempt_path<'a>(primary: &'a String, fallback: &'a String, p: SinkPhase) -> (r: Option<
    &'a String,
>)
    ensures
        p is TryPrimary ==> (r matches Some(s) && s@ == primary@),
        p is TryFallback ==> (r matches Some(s) && s@ == fallback@),
        p is Writing || p is Abandoned ==> r is None,
{
    match p {
        SinkPhase::TryPrimary => Some(primary),
        SinkPhase::TryFallback => Some(fallback),
        _ => None,
    }
}

} // verus!
