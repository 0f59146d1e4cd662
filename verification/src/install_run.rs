//! Whole runs of the installer, and what holds of them.
//!
//! A run is the sequence of exchanges between the installer and its driver.
//! To say what a run does to the machine it runs on, this module carries a
//! small model of that machine: which components are installed, and whether
//! a temporary download file lies around.  The model says how each action
//! changes it and which observations it can give rise to; downloads and
//! extractions may go either way.  The theorems hold of every run that the
//! model allows.
use crate::installer::{
    answers_to, initial, installation_state_of, outcome_of, pending_action, step,
    step_keeps_well_formed, step_makes_progress, steps_left, well_formed, Action, ComponentShape,
    InstallErrorView, InstallationState, InstallerView, ObservationView,
};
use vstd::prelude::*;

verus! {

/// The part of the machine that the installer's decisions depend on.
pub struct Disk {
    /// The installation state of each component, in manifest order.  The
    /// components have install directories of their own: what is done to one
    /// leaves the others as they are.
    pub states: Seq<InstallationState>,
    /// Whether a temporary download file exists.
    pub archive: bool,
}

/// One exchange: what the driver reported, and the disk as the action left it.
pub struct Exchange {
    pub observation: ObservationView,
    pub disk: Disk,
}

/// Whether two disks agree on every component but the given one.
pub open spec fn same_but_at(before: Disk, after: Disk, component: int) -> bool {
    &&& after.states.len() == before.states.len()
    &&& forall|i: int|
        0 <= i < before.states.len() && i != component ==> after.states[i] == before.states[i]
}

/// Whether performing `action` on `before` can leave the disk as `after` and
/// be reported as `observation`.
///
/// A probe tells the truth and changes nothing.  Deleting or extracting an
/// install directory may or may not work, but touches no other component.
/// A download touches no component; what it leaves in the temporary file is
/// open.  Deleting the temporary file removes it.
pub open spec fn answers(
    shapes: Seq<ComponentShape>,
    before: Disk,
    action: Action,
    observation: ObservationView,
    after: Disk,
) -> bool {
    &&& answers_to(action, observation)
    &&& match action {
        Action::Inspect { component } | Action::Verify { component } => {
            &&& observation matches ObservationView::Probed { directory, marker }
            &&& installation_state_of(directory, marker, shapes[component as int].marker_specified)
                == before.states[component as int]
            &&& after == before
        },
        Action::RemoveDirectory { component } | Action::Extract { component } => {
            &&& same_but_at(before, after, component as int)
            &&& after.archive == before.archive
        },
        Action::Download { .. } => after.states == before.states,
        Action::DiscardDownload { .. } | Action::DeleteArchive { .. } => {
            &&& after.states == before.states
            &&& !after.archive
        },
        Action::ListDirectory { .. } => after == before,
        Action::Finish => false,
    }
}

/// Whether `trace` is a run that can take place from state `m` on disk `disk`.
pub open spec fn possible(m: InstallerView, disk: Disk, trace: Seq<Exchange>) -> bool
    decreases trace.len(),
{
    trace.len() == 0 || {
        &&& answers(m.shapes, disk, pending_action(m), trace[0].observation, trace[0].disk)
        &&& possible(step(m, trace[0].observation), trace[0].disk, trace.drop_first())
    }
}

/// The installer's state after the run `trace` from state `m`.
pub open spec fn state_after(m: InstallerView, trace: Seq<Exchange>) -> InstallerView
    decreases trace.len(),
{
    if trace.len() == 0 {
        m
    } else {
        state_after(step(m, trace[0].observation), trace.drop_first())
    }
}

/// The disk after the run `trace` that began on `disk`.
pub open spec fn disk_after(disk: Disk, trace: Seq<Exchange>) -> Disk {
    if trace.len() == 0 {
        disk
    } else {
        trace.last().disk
    }
}

/// The number of downloads that the run `trace` from state `m` asks for.
pub open spec fn downloads(m: InstallerView, trace: Seq<Exchange>) -> nat
    decreases trace.len(),
{
    if trace.len() == 0 {
        0
    } else {
        let here: nat = if pending_action(m) is Download {
            1
        } else {
            0
        };
        here + downloads(step(m, trace[0].observation), trace.drop_first())
    }
}

/// Whether every component is installed on `disk`.
pub open spec fn all_installed(disk: Disk) -> bool {
    forall|i: int| 0 <= i < disk.states.len() ==> disk.states[i] is Installed
}

/// What state and disk have in common throughout a run: the components
/// before the current one are installed.
pub open spec fn in_step(m: InstallerView, disk: Disk) -> bool {
    &&& well_formed(m)
    &&& disk.states.len() == m.shapes.len()
    &&& forall|i: int| 0 <= i < m.component ==> disk.states[i] is Installed
}

/// A temporary file exists only between a download and its deletion.
pub open spec fn archive_accounted(m: InstallerView, disk: Disk) -> bool {
    disk.archive ==> m.phase is Discarding || m.phase is Extracting || m.phase is Cleaning
}

/// A run never changes the shapes it works on, and keeps the state well formed.
pub proof fn run_keeps_shapes(m: InstallerView, trace: Seq<Exchange>)
    requires
        well_formed(m),
    ensures
        state_after(m, trace).shapes == m.shapes,
        well_formed(state_after(m, trace)),
    decreases trace.len(),
{
    if trace.len() > 0 {
        step_keeps_well_formed(m, trace[0].observation);
        run_keeps_shapes(step(m, trace[0].observation), trace.drop_first());
    }
}

proof fn run_stays_in_step(m: InstallerView, disk: Disk, trace: Seq<Exchange>)
    requires
        in_step(m, disk),
        possible(m, disk, trace),
    ensures
        in_step(state_after(m, trace), disk_after(disk, trace)),
    decreases trace.len(),
{
    if trace.len() > 0 {
        step_keeps_well_formed(m, trace[0].observation);
        run_stays_in_step(step(m, trace[0].observation), trace[0].disk, trace.drop_first());
    }
}

proof fn run_accounts_for_archive(m: InstallerView, disk: Disk, trace: Seq<Exchange>)
    requires
        well_formed(m),
        archive_accounted(m, disk),
        possible(m, disk, trace),
    ensures
        archive_accounted(state_after(m, trace), disk_after(disk, trace)),
    decreases trace.len(),
{
    if trace.len() > 0 {
        step_keeps_well_formed(m, trace[0].observation);
        run_accounts_for_archive(step(m, trace[0].observation), trace[0].disk, trace.drop_first());
    }
}

proof fn run_on_installed_disk(m: InstallerView, disk: Disk, trace: Seq<Exchange>)
    requires
        in_step(m, disk),
        all_installed(disk),
        m.phase is Inspecting || m.phase is Done,
        possible(m, disk, trace),
    ensures
        downloads(m, trace) == 0,
        state_after(m, trace).phase is Inspecting || state_after(m, trace).phase is Done,
        disk_after(disk, trace) == disk,
    decreases trace.len(),
{
    if trace.len() > 0 {
        step_keeps_well_formed(m, trace[0].observation);
        run_on_installed_disk(step(m, trace[0].observation), trace[0].disk, trace.drop_first());
    }
}

/// Every run comes to an end: no run that can take place is longer than
/// the bound that the state it starts from gives.
pub proof fn run_is_bounded(m: InstallerView, disk: Disk, trace: Seq<Exchange>)
    requires
        well_formed(m),
        possible(m, disk, trace),
    ensures
        trace.len() <= steps_left(m),
    decreases trace.len(),
{
    if trace.len() > 0 {
        step_makes_progress(m, trace[0].observation);
        step_keeps_well_formed(m, trace[0].observation);
        run_is_bounded(step(m, trace[0].observation), trace[0].disk, trace.drop_first());
    }
}

/// A run that ends well has made sure of every component: each is installed
/// on the disk it leaves, and the count it reports is their number.
pub proof fn successful_run_installs_everything(
    shapes: Seq<ComponentShape>,
    disk: Disk,
    trace: Seq<Exchange>,
)
    requires
        shapes.len() <= usize::MAX,
        disk.states.len() == shapes.len(),
        possible(initial(shapes), disk, trace),
        state_after(initial(shapes), trace).phase is Done,
    ensures
        all_installed(disk_after(disk, trace)),
        outcome_of(state_after(initial(shapes), trace)) == Some(
            Ok::<nat, InstallErrorView>(shapes.len()),
        ),
{
    run_stays_in_step(initial(shapes), disk, trace);
    run_keeps_shapes(initial(shapes), trace);
}

/// However a run ends, once it has ended no temporary file is left behind,
/// provided none lay around when it began.
pub proof fn finished_run_leaves_no_archive(
    shapes: Seq<ComponentShape>,
    disk: Disk,
    trace: Seq<Exchange>,
)
    requires
        shapes.len() <= usize::MAX,
        !disk.archive,
        possible(initial(shapes), disk, trace),
        outcome_of(state_after(initial(shapes), trace)) is Some,
    ensures
        !disk_after(disk, trace).archive,
{
    run_accounts_for_archive(initial(shapes), disk, trace);
}

/// Installing twice in a row: where the first run ended well with `count`
/// components, a second run over the same components on the disk that the
/// first one left asks for no download at all, changes nothing on the disk,
/// and, once it has ended, reports `count` again.
pub proof fn second_run_downloads_nothing(
    shapes: Seq<ComponentShape>,
    disk: Disk,
    first: Seq<Exchange>,
    second: Seq<Exchange>,
    count: nat,
)
    requires
        shapes.len() <= usize::MAX,
        disk.states.len() == shapes.len(),
        possible(initial(shapes), disk, first),
        outcome_of(state_after(initial(shapes), first)) == Some(
            Ok::<nat, InstallErrorView>(count),
        ),
        possible(initial(shapes), disk_after(disk, first), second),
        outcome_of(state_after(initial(shapes), second)) is Some,
    ensures
        downloads(initial(shapes), second) == 0,
        outcome_of(state_after(initial(shapes), second)) == Some(
            Ok::<nat, InstallErrorView>(count),
        ),
        disk_after(disk_after(disk, first), second) == disk_after(disk, first),
{
    successful_run_installs_everything(shapes, disk, first);
    run_stays_in_step(initial(shapes), disk, first);
    let between = disk_after(disk, first);
    run_on_installed_disk(initial(shapes), between, second);
    run_stays_in_step(initial(shapes), between, second);
    run_keeps_shapes(initial(shapes), second);
}

} // verus!
