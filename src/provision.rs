//! The ordered steps that stage an instance, and what each step needs to
//! have happened before it.

use vstd::prelude::*;

use crate::artifacts::{ArtifactLocation, ArtifactRole};
use crate::layout::{
    artifact_file, artifact_file_spec, DATAPACKS_DIR, MODS_DIR, PROPERTIES_FILE,
};
use crate::packs::PackSource;

verus! {

/// The server configuration written into every instance: remote console on a
/// fixed port with a fixed password, no online authentication, no telemetry,
/// no structures, a flat world.
pub const SERVER_PROPERTIES: &'static str =
    "\nrcon.port=25575\nonline-mode=false\nbroadcast-rcon-to-ops=true\nenable-rcon=true\nrcon.password=packtest\nlevel-type=minecraft\\:flat\nsnooper-enabled=false\ngenerate-structures=false\n";

/// One step of staging an instance. Paths are relative to the instance root.
#[derive(Clone, Debug)]
pub enum Step {
    /// Create the directory and its parents; one that exists is no error.
    EnsureDir { path: String },
    /// Fetch `url` into the file `dest`.
    Download { role: ArtifactRole, url: String, dest: String },
    /// Copy the packs that `source` stands for into the datapack directory.
    CopyPacks { source: PackSource },
    /// Write `contents` to the file `path`.
    WriteFile { path: String, contents: String },
}

/// `d` is `dir` itself, or a directory that holds it.
pub open spec fn holds_dir(d: Seq<char>, dir: Seq<char>) -> bool {
    d.len() == 0 || d == dir || (dir.len() > d.len() && dir.subrange(0, d.len() as int) == d
        && dir[d.len() as int] == '/')
}

/// The directory that a step writes into, if it writes.
pub open spec fn target_dir(s: Step) -> Option<Seq<char>> {
    match s {
        Step::EnsureDir { .. } => None,
        Step::Download { .. } => Some(MODS_DIR@),
        Step::CopyPacks { .. } => Some(DATAPACKS_DIR@),
        Step::WriteFile { .. } => Some(Seq::<char>::empty()),
    }
}

/// Some step before position `j` creates `dir` (with its parents).
pub open spec fn ensured_before(steps: Seq<Step>, j: int, dir: Seq<char>) -> bool {
    exists|i: int|
        0 <= i < j && ((#[trigger] steps[i]) matches Step::EnsureDir { path } && holds_dir(
            dir,
            path@,
        ))
}

pub open spec fn is_download(s: Step, a: ArtifactLocation) -> bool {
    s matches Step::Download { role, url, dest } && role == a.role && url@ == a.url@ && dest@
        == artifact_file_spec(a.role)
}

pub open spec fn is_copy_of(s: Step, p: PackSource) -> bool {
    s matches Step::CopyPacks { source } && source.is_literal() == p.is_literal() && source.text()
        == p.text()
}

/// `steps` stages an instance: the mods directory, the two downloads into it,
/// the datapack directory, one copy step per pack source in order, and last
/// the server configuration.
pub open spec fn is_provision_plan(
    a: ArtifactLocation,
    b: ArtifactLocation,
    sources: Seq<PackSource>,
    steps: Seq<Step>,
) -> bool {
    let n = sources.len() as int;
    &&& steps.len() == n + 5
    &&& steps[0] matches Step::EnsureDir { path } && path@ == MODS_DIR@
    &&& is_download(steps[1], a)
    &&& is_download(steps[2], b)
    &&& steps[3] matches Step::EnsureDir { path } && path@ == DATAPACKS_DIR@
    &&& forall|k: int| 0 <= k < n ==> is_copy_of(#[trigger] steps[4 + k], sources[k])
    &&& steps[n + 4] matches Step::WriteFile { path, contents } && path@ == PROPERTIES_FILE@
        && contents@ == SERVER_PROPERTIES@
}

fn download_step(a: &ArtifactLocation) -> (r: Step)
    ensures
        is_download(r, *a),
{
    Step::Download {
        role: a.role,
        url: a.url.clone(),
        dest: String::from_str(artifact_file(a.role)),
    }
}

/// The steps that stage an instance for the two artifacts and the pack
/// sources, in the order they must run.
pub fn provision_steps(
    packtest: &ArtifactLocation,
    fabric_api: &ArtifactLocation,
    sources: &Vec<PackSource>,
) -> (r: Vec<Step>)
    ensures
        is_provision_plan(*packtest, *fabric_api, sources@, r@),
{
    let mut steps: Vec<Step> = Vec::new();
    steps.push(Step::EnsureDir { path: String::from_str(MODS_DIR) });
    steps.push(download_step(packtest));
    steps.push(download_step(fabric_api));
    steps.push(Step::EnsureDir { path: String::from_str(DATAPACKS_DIR) });
    let mut i: usize = 0;
    while i < sources.len()
        invariant
            i <= sources@.len(),
            steps@.len() == 4 + i,
            steps@[0] matches Step::EnsureDir { path } && path@ == MODS_DIR@,
            is_download(steps@[1], *packtest),
            is_download(steps@[2], *fabric_api),
            steps@[3] matches Step::EnsureDir { path } && path@ == DATAPACKS_DIR@,
            forall|k: int| 0 <= k < i ==> is_copy_of(#[trigger] steps@[4 + k], sources@[k]),
        decreases sources@.len() - i,
    {
        let source = match &sources[i] {
            PackSource::Pattern(p) => PackSource::Pattern(p.clone()),
            PackSource::Literal(p) => PackSource::Literal(p.clone()),
        };
        steps.push(Step::CopyPacks { source });
        i = i + 1;
    }
    steps.push(
        Step::WriteFile {
            path: String::from_str(PROPERTIES_FILE),
            contents: String::from_str(SERVER_PROPERTIES),
        },
    );
    steps
}

/// Every directory of the layout is created before anything is written into
/// it: each step that writes has, earlier in the plan, a step that creates its
/// target directory or a directory below it.
pub proof fn lemma_dirs_before_writes(
    a: ArtifactLocation,
    b: ArtifactLocation,
    sources: Seq<PackSource>,
    steps: Seq<Step>,
    j: int,
)
    requires
        is_provision_plan(a, b, sources, steps),
        0 <= j < steps.len(),
        target_dir(steps[j]) is Some,
    ensures
        ensured_before(steps, j, target_dir(steps[j])->0),
{
    let n = sources.len() as int;
    if j == 1 || j == 2 {
        assert(holds_dir(MODS_DIR@, MODS_DIR@));
        assert(steps[0] matches Step::EnsureDir { path } && holds_dir(MODS_DIR@, path@));
    } else if 4 <= j < n + 4 {
        assert(is_copy_of(steps[4 + (j - 4)], sources[j - 4]));
        assert(steps[3] matches Step::EnsureDir { path } && holds_dir(DATAPACKS_DIR@, path@));
    } else if j == n + 4 {
        assert(steps[0] matches Step::EnsureDir { path } && holds_dir(
            Seq::<char>::empty(),
            path@,
        ));
    } else {
        assert(j == 0 || j == 3);
    }
}

} // verus!
