//! The component installer as a state machine.
//!
//! The installer never touches the disk or the network itself.  It tells its
//! driver what to do next (an [`Action`]) and is told what came of it (an
//! [`Observation`]).  Every decision—skip, heal, fall back to the next
//! mirror, give up—is taken here, by [`step`], the transition function that
//! [`Installer::advance`] implements.
use crate::text::texts;
use vstd::prelude::*;

verus! {

/// What the disk says about one component.
#[derive(Clone, Copy, Debug, PartialEq, Eq, Structural)]
pub enum InstallationState {
    /// The install directory does not exist.
    Absent,
    /// The install directory exists but the verification marker does not.
    Partial,
    /// The verification marker is there.
    Installed,
}

/// Derives the installation state from two existence checks.
///
/// Where the component names a verification marker, only the marker proves an
/// installation; where it names none, the directory alone does.
pub open spec fn installation_state_of(
    directory: bool,
    marker: bool,
    marker_specified: bool,
) -> InstallationState {
    if !directory {
        InstallationState::Absent
    } else if marker_specified && !marker {
        InstallationState::Partial
    } else {
        InstallationState::Installed
    }
}

/// Executable form of [`installation_state_of`].
pub fn installation_state(directory: bool, marker: bool, marker_specified: bool) -> (state:
    InstallationState)
    ensures
        state == installation_state_of(directory, marker, marker_specified),
{
    if !directory {
        InstallationState::Absent
    } else if marker_specified && !marker {
        InstallationState::Partial
    } else {
        InstallationState::Installed
    }
}

/// What the driver saw of one download attempt.
#[derive(Clone, Copy, Debug, PartialEq, Eq, Structural)]
pub struct DownloadReport {
    /// The request and the streaming of the body went through without a
    /// transport error.
    pub transport_ok: bool,
    /// The HTTP status of the response (meaningless after a transport error).
    pub status: u16,
    /// The length the server announced, if it announced one.
    pub declared_length: Option<u64>,
    /// The number of bytes written to the temporary file.
    pub received_length: u64,
}

/// Why a download attempt does not count.
#[derive(Clone, Copy, Debug, PartialEq, Eq, Structural)]
pub enum DownloadFailure {
    /// Connecting, sending or reading failed.
    Transport,
    /// The server answered with a status outside 200..=299.
    Status { status: u16 },
    /// Fewer or more bytes arrived than the server announced.
    LengthMismatch { declared: u64, received: u64 },
}

/// The verdict on a download report: `None` for a good download, else the
/// first reason, in the order transport, status, length.
pub open spec fn download_failure_of(report: DownloadReport) -> Option<DownloadFailure> {
    if !report.transport_ok {
        Some(DownloadFailure::Transport)
    } else if report.status < 200 || report.status > 299 {
        Some(DownloadFailure::Status { status: report.status })
    } else if report.declared_length is Some && report.declared_length->0
        != report.received_length {
        Some(
            DownloadFailure::LengthMismatch {
                declared: report.declared_length->0,
                received: report.received_length,
            },
        )
    } else {
        None
    }
}

/// Executable form of [`download_failure_of`].
pub fn download_failure(report: DownloadReport) -> (verdict: Option<DownloadFailure>)
    ensures
        verdict == download_failure_of(report),
{
    if !report.transport_ok {
        return Some(DownloadFailure::Transport);
    }
    if report.status < 200 || report.status > 299 {
        return Some(DownloadFailure::Status { status: report.status });
    }
    match report.declared_length {
        Some(declared) => {
            if declared != report.received_length {
                Some(
                    DownloadFailure::LengthMismatch {
                        declared,
                        received: report.received_length,
                    },
                )
            } else {
                None
            }
        },
        None => None,
    }
}

/// What the installer needs to know of a manifest entry to take its decisions.
#[derive(Clone, Copy, Debug, PartialEq, Eq, Structural)]
pub struct ComponentShape {
    /// The number of mirror URLs.
    pub mirrors: usize,
    /// Whether the entry names a verification marker.
    pub marker_specified: bool,
}

/// Why an installation run was abandoned.
#[derive(Clone, Copy, Debug, PartialEq, Eq, Structural)]
pub enum FailureKind {
    /// Every mirror of the component failed.
    MirrorsExhausted,
    /// The archive was fetched but could not be extracted.
    ExtractionFailed,
    /// After extraction the verification marker was still missing.
    VerificationFailed,
}

/// Where the installer stands with the current component.
#[derive(Clone, Copy, Debug, PartialEq, Eq, Structural)]
pub enum Phase {
    /// Waiting to learn the component's installation state.
    Inspecting,
    /// Waiting for a corrupt partial install to be deleted.
    Purging,
    /// Waiting for the download from the current mirror.
    Downloading,
    /// Waiting for the partial file of a failed download to be deleted.
    Discarding,
    /// Waiting for the archive to be extracted into the install directory.
    Extracting,
    /// Waiting for the archive to be deleted after extraction.
    Cleaning { extracted: bool },
    /// Waiting for the check of the verification marker.
    Verifying,
    /// Waiting for the listing of an install directory that failed the check.
    Listing,
    /// Waiting for the install directory of a failed component to be deleted.
    Withdrawing { cause: FailureKind },
    /// Every component is installed.
    Done,
    /// The run was abandoned.
    Failed { cause: FailureKind },
}

/// What the driver has to do next.
#[derive(Clone, Copy, Debug, PartialEq, Eq, Structural)]
pub enum Action {
    /// Check whether the install directory and the verification marker exist;
    /// answer with [`Observation::Probed`].
    Inspect { component: usize },
    /// Delete the install directory recursively; answer with
    /// [`Observation::Removed`].
    RemoveDirectory { component: usize },
    /// Fetch the given mirror into the temporary file; answer with
    /// [`Observation::Downloaded`].
    Download { component: usize, mirror: usize },
    /// Delete the temporary file of the failed download; answer with
    /// [`Observation::Discarded`].
    DiscardDownload { component: usize },
    /// Create the install directory and extract the temporary file into it;
    /// answer with [`Observation::Extracted`].
    Extract { component: usize },
    /// Delete the temporary file; answer with [`Observation::ArchiveDeleted`].
    DeleteArchive { component: usize },
    /// Check the directory and the marker again; answer with
    /// [`Observation::Probed`].
    Verify { component: usize },
    /// List the install directory; answer with [`Observation::Listed`].
    ListDirectory { component: usize },
    /// Nothing: the run is over.
    Finish,
}

/// What the driver reports back.
#[derive(Debug)]
pub enum Observation {
    /// Whether the install directory and the verification marker exist.
    Probed { directory: bool, marker: bool },
    /// The directory is gone (or could not be deleted: the later check of the
    /// marker decides).
    Removed,
    /// How the download went.
    Downloaded { report: DownloadReport },
    /// The partial download is deleted.
    Discarded,
    /// Whether the extraction tool reported success.
    Extracted { ok: bool },
    /// The archive is deleted.
    ArchiveDeleted,
    /// The names found in the install directory.
    Listed { names: Vec<String> },
}

/// An [`Observation`] as a mathematical value.
pub enum ObservationView {
    Probed { directory: bool, marker: bool },
    Removed,
    Downloaded { report: DownloadReport },
    Discarded,
    Extracted { ok: bool },
    ArchiveDeleted,
    Listed { names: Seq<Seq<char>> },
}

impl View for Observation {
    type V = ObservationView;

    open spec fn view(&self) -> ObservationView {
        match *self {
            Observation::Probed { directory, marker } => ObservationView::Probed {
                directory,
                marker,
            },
            Observation::Removed => ObservationView::Removed,
            Observation::Downloaded { report } => ObservationView::Downloaded { report },
            Observation::Discarded => ObservationView::Discarded,
            Observation::Extracted { ok } => ObservationView::Extracted { ok },
            Observation::ArchiveDeleted => ObservationView::ArchiveDeleted,
            Observation::Listed { names } => ObservationView::Listed { names: texts(names@) },
        }
    }
}

/// The installer's state as a mathematical value.
pub struct InstallerView {
    /// One shape per manifest entry, in manifest order.
    pub shapes: Seq<ComponentShape>,
    /// The index of the component being handled.
    pub component: nat,
    /// The index of the mirror being tried.
    pub mirror: nat,
    pub phase: Phase,
    /// The number of components found or made installed so far.
    pub installed: nat,
    /// The failed downloads of the current component, in mirror order.
    pub failures: Seq<DownloadFailure>,
    /// The listing taken of a directory that failed verification.
    pub listing: Seq<Seq<char>>,
}

/// Why an installation run failed, as a mathematical value.
pub enum InstallErrorView {
    MirrorsExhausted { component: nat, failures: Seq<DownloadFailure> },
    ExtractionFailed { component: nat },
    VerificationFailed { component: nat, listing: Seq<Seq<char>> },
}

/// The state in which a run over `shapes` begins.
pub open spec fn initial(shapes: Seq<ComponentShape>) -> InstallerView {
    InstallerView {
        shapes,
        component: 0,
        mirror: 0,
        phase: if shapes.len() == 0 {
            Phase::Done
        } else {
            Phase::Inspecting
        },
        installed: 0,
        failures: Seq::empty(),
        listing: Seq::empty(),
    }
}

/// The invariant of the installer's state.
pub open spec fn well_formed(m: InstallerView) -> bool {
    &&& m.component <= m.shapes.len()
    &&& m.installed == m.component
    &&& (m.phase is Done <==> m.component == m.shapes.len())
    &&& (m.phase is Downloading || m.phase is Discarding ==> m.mirror
        < m.shapes[m.component as int].mirrors)
    &&& (m.phase is Downloading ==> m.failures.len() == m.mirror)
    &&& (m.phase is Discarding ==> m.failures.len() == m.mirror + 1)
    &&& (m.phase == (Phase::Failed { cause: FailureKind::MirrorsExhausted }) ==> m.failures.len()
        == m.shapes[m.component as int].mirrors)
    &&& m.phase != (Phase::Withdrawing { cause: FailureKind::MirrorsExhausted })
    &&& m.failures.len() <= usize::MAX
    &&& m.shapes.len() <= usize::MAX
}

/// The state after the current component has been found or made installed.
pub open spec fn component_installed(m: InstallerView) -> InstallerView {
    InstallerView {
        component: m.component + 1,
        installed: m.installed + 1,
        mirror: 0,
        phase: if m.component + 1 < m.shapes.len() {
            Phase::Inspecting
        } else {
            Phase::Done
        },
        failures: Seq::empty(),
        ..m
    }
}

/// The state in which the download of the current component begins: at the
/// first mirror, or failed at once where the entry has none.
pub open spec fn download_begun(m: InstallerView) -> InstallerView {
    InstallerView {
        mirror: 0,
        failures: Seq::empty(),
        phase: if m.shapes[m.component as int].mirrors == 0 {
            Phase::Failed { cause: FailureKind::MirrorsExhausted }
        } else {
            Phase::Downloading
        },
        ..m
    }
}

/// The transition function: the state that follows `m` when the driver
/// reports `observation`.
///
/// An observation that does not answer the pending action leaves the state
/// as it is, and so does any observation once the run is over.
pub open spec fn step(m: InstallerView, observation: ObservationView) -> InstallerView {
    match (m.phase, observation) {
        (Phase::Inspecting, ObservationView::Probed { directory, marker }) => {
            match installation_state_of(
                directory,
                marker,
                m.shapes[m.component as int].marker_specified,
            ) {
                InstallationState::Installed => component_installed(m),
                InstallationState::Partial => InstallerView { phase: Phase::Purging, ..m },
                InstallationState::Absent => download_begun(m),
            }
        },
        (Phase::Purging, ObservationView::Removed) => download_begun(m),
        (Phase::Downloading, ObservationView::Downloaded { report }) => {
            match download_failure_of(report) {
                None => InstallerView { phase: Phase::Extracting, ..m },
                Some(failure) => InstallerView {
                    phase: Phase::Discarding,
                    failures: m.failures.push(failure),
                    ..m
                },
            }
        },
        (Phase::Discarding, ObservationView::Discarded) => {
            if m.mirror + 1 < m.shapes[m.component as int].mirrors {
                InstallerView { mirror: m.mirror + 1, phase: Phase::Downloading, ..m }
            } else {
                InstallerView { phase: Phase::Failed { cause: FailureKind::MirrorsExhausted }, ..m }
            }
        },
        (Phase::Extracting, ObservationView::Extracted { ok }) => InstallerView {
            phase: Phase::Cleaning { extracted: ok },
            ..m
        },
        (Phase::Cleaning { extracted }, ObservationView::ArchiveDeleted) => {
            if extracted {
                InstallerView { phase: Phase::Verifying, ..m }
            } else {
                InstallerView {
                    phase: Phase::Withdrawing { cause: FailureKind::ExtractionFailed },
                    ..m
                }
            }
        },
        (Phase::Verifying, ObservationView::Probed { directory, marker }) => {
            match installation_state_of(
                directory,
                marker,
                m.shapes[m.component as int].marker_specified,
            ) {
                InstallationState::Installed => component_installed(m),
                _ => InstallerView { phase: Phase::Listing, ..m },
            }
        },
        (Phase::Listing, ObservationView::Listed { names }) => InstallerView {
            phase: Phase::Withdrawing { cause: FailureKind::VerificationFailed },
            listing: names,
            ..m
        },
        (Phase::Withdrawing { cause }, ObservationView::Removed) => InstallerView {
            phase: Phase::Failed { cause },
            ..m
        },
        _ => m,
    }
}

/// What the driver has to do in state `m`.
pub open spec fn pending_action(m: InstallerView) -> Action {
    let component = m.component as usize;
    match m.phase {
        Phase::Inspecting => Action::Inspect { component },
        Phase::Purging => Action::RemoveDirectory { component },
        Phase::Downloading => Action::Download { component, mirror: m.mirror as usize },
        Phase::Discarding => Action::DiscardDownload { component },
        Phase::Extracting => Action::Extract { component },
        Phase::Cleaning { .. } => Action::DeleteArchive { component },
        Phase::Verifying => Action::Verify { component },
        Phase::Listing => Action::ListDirectory { component },
        Phase::Withdrawing { .. } => Action::RemoveDirectory { component },
        Phase::Done => Action::Finish,
        Phase::Failed { .. } => Action::Finish,
    }
}

/// How the run ended: `None` while it is under way, the number of installed
/// components once all are installed, or the reason why it was abandoned.
pub open spec fn outcome_of(m: InstallerView) -> Option<Result<nat, InstallErrorView>> {
    match m.phase {
        Phase::Done => Some(Ok(m.installed)),
        Phase::Failed { cause } => Some(
            Err(
                match cause {
                    FailureKind::MirrorsExhausted => InstallErrorView::MirrorsExhausted {
                        component: m.component,
                        failures: m.failures,
                    },
                    FailureKind::ExtractionFailed => InstallErrorView::ExtractionFailed {
                        component: m.component,
                    },
                    FailureKind::VerificationFailed => InstallErrorView::VerificationFailed {
                        component: m.component,
                        listing: m.listing,
                    },
                },
            ),
        ),
        _ => None,
    }
}

/// A step keeps the invariant and never touches the shapes.
pub proof fn step_keeps_well_formed(m: InstallerView, observation: ObservationView)
    requires
        well_formed(m),
    ensures
        well_formed(step(m, observation)),
        step(m, observation).shapes == m.shapes,
{
}

/// Healing a partial install: a component whose directory is there while
/// its verification marker is missing is not taken for installed.  The
/// installer has the directory deleted and then starts over with the first
/// mirror; the count of installed components stays as it was.
pub proof fn partial_install_is_reinstalled(m: InstallerView)
    requires
        well_formed(m),
        m.phase is Inspecting,
        m.shapes[m.component as int].marker_specified,
    ensures
        ({
            let component = m.component as usize;
            let found = step(m, ObservationView::Probed { directory: true, marker: false });
            let purged = step(found, ObservationView::Removed);
            &&& pending_action(found) == Action::RemoveDirectory { component }
            &&& found.installed == m.installed
            &&& purged.installed == m.installed
            &&& purged.component == m.component
            &&& m.shapes[m.component as int].mirrors > 0 ==> pending_action(purged)
                == Action::Download { component, mirror: 0 }
            &&& m.shapes[m.component as int].mirrors == 0 ==> outcome_of(purged) == Some(
                Err::<nat, InstallErrorView>(
                    InstallErrorView::MirrorsExhausted {
                        component: m.component,
                        failures: Seq::empty(),
                    },
                ),
            )
        }),
{
}

/// Mirror fallback: when the download from a mirror fails and another
/// mirror is left, the partial file is deleted and the next mirror is
/// tried; when that download is good, the archive is extracted and
/// deleted, the marker is checked, and the component counts as installed.
pub proof fn failed_mirror_gives_way_to_next(
    m: InstallerView,
    bad: DownloadReport,
    good: DownloadReport,
    directory: bool,
    marker: bool,
)
    requires
        well_formed(m),
        m.phase is Downloading,
        m.mirror + 1 < m.shapes[m.component as int].mirrors,
        download_failure_of(bad) is Some,
        download_failure_of(good) is None,
        installation_state_of(directory, marker, m.shapes[m.component as int].marker_specified)
            is Installed,
    ensures
        ({
            let component = m.component as usize;
            let failed = step(m, ObservationView::Downloaded { report: bad });
            let discarded = step(failed, ObservationView::Discarded);
            let fetched = step(discarded, ObservationView::Downloaded { report: good });
            let extracted = step(fetched, ObservationView::Extracted { ok: true });
            let cleaned = step(extracted, ObservationView::ArchiveDeleted);
            let verified = step(cleaned, ObservationView::Probed { directory, marker });
            &&& pending_action(failed) == Action::DiscardDownload { component }
            &&& pending_action(discarded) == Action::Download {
                component,
                mirror: (m.mirror + 1) as usize,
            }
            &&& pending_action(fetched) == Action::Extract { component }
            &&& pending_action(extracted) == Action::DeleteArchive { component }
            &&& pending_action(cleaned) == Action::Verify { component }
            &&& verified.installed == m.installed + 1
            &&& verified.component == m.component + 1
            &&& !(verified.phase is Failed)
        }),
{
}

/// When the last mirror has failed too, the run is abandoned, and the error
/// holds one failure for each mirror of the component.
pub proof fn exhausted_mirrors_are_all_reported(m: InstallerView)
    requires
        well_formed(m),
        outcome_of(m) matches Some(Err(InstallErrorView::MirrorsExhausted { .. })),
    ensures
        outcome_of(m) matches Some(Err(InstallErrorView::MirrorsExhausted { component, failures }))
            && component < m.shapes.len() && failures.len() == m.shapes[component as int].mirrors,
{
}

/// Whether an observation is of the kind that answers an action.
pub open spec fn answers_to(action: Action, observation: ObservationView) -> bool {
    match action {
        Action::Inspect { .. } | Action::Verify { .. } => observation is Probed,
        Action::RemoveDirectory { .. } => observation is Removed,
        Action::Download { .. } => observation is Downloaded,
        Action::DiscardDownload { .. } => observation is Discarded,
        Action::Extract { .. } => observation is Extracted,
        Action::DeleteArchive { .. } => observation is ArchiveDeleted,
        Action::ListDirectory { .. } => observation is Listed,
        Action::Finish => false,
    }
}

/// The most exchanges that the components from index `from` on can take:
/// for each, eight and two for every mirror.
pub open spec fn budget_from(shapes: Seq<ComponentShape>, from: nat) -> nat
    decreases shapes.len() - from,
{
    if from >= shapes.len() {
        0
    } else {
        2 * (shapes[from as int].mirrors as nat) + 8 + budget_from(shapes, from + 1)
    }
}

/// An upper bound on the exchanges that are left in a run.
pub open spec fn steps_left(m: InstallerView) -> nat {
    let rest = budget_from(m.shapes, m.component + 1);
    let mirrors = m.shapes[m.component as int].mirrors as nat;
    let untried = (mirrors - m.mirror) as nat;
    match m.phase {
        Phase::Inspecting => 2 * mirrors + 8 + rest,
        Phase::Purging => 2 * mirrors + 7 + rest,
        Phase::Downloading => 2 * untried + 6 + rest,
        Phase::Discarding => 2 * untried + 5 + rest,
        Phase::Extracting => 5 + rest,
        Phase::Cleaning { .. } => 4 + rest,
        Phase::Verifying => 3 + rest,
        Phase::Listing => 2,
        Phase::Withdrawing { .. } => 1,
        Phase::Done => 0,
        Phase::Failed { .. } => 0,
    }
}

/// Every answer brings the run nearer to its end, and anything that is no
/// answer to the pending action changes nothing.  So a driver that answers
/// each action is done after at most `steps_left(initial(shapes))`
/// exchanges.
pub proof fn step_makes_progress(m: InstallerView, observation: ObservationView)
    requires
        well_formed(m),
    ensures
        answers_to(pending_action(m), observation) ==> steps_left(step(m, observation))
            < steps_left(m),
        !answers_to(pending_action(m), observation) ==> step(m, observation) == m,
        steps_left(m) == 0 <==> outcome_of(m) is Some,
{
}

/// Why an installation run failed.
#[derive(Debug)]
pub enum InstallError {
    /// Every mirror of the component failed; `failures` has one entry per
    /// mirror, in mirror order.
    MirrorsExhausted { component: usize, failures: Vec<DownloadFailure> },
    /// The archive of the component could not be extracted.
    ExtractionFailed { component: usize },
    /// The verification marker was missing after extraction; `listing` is
    /// what the install directory held instead.
    VerificationFailed { component: usize, listing: Vec<String> },
}

impl View for InstallError {
    type V = InstallErrorView;

    open spec fn view(&self) -> InstallErrorView {
        match *self {
            InstallError::MirrorsExhausted { component, failures } => {
                InstallErrorView::MirrorsExhausted {
                    component: component as nat,
                    failures: failures@,
                }
            },
            InstallError::ExtractionFailed { component } => InstallErrorView::ExtractionFailed {
                component: component as nat,
            },
            InstallError::VerificationFailed { component, listing } => {
                InstallErrorView::VerificationFailed {
                    component: component as nat,
                    listing: texts(listing@),
                }
            },
        }
    }
}

/// The installer: the state of one installation run.
pub struct Installer {
    shapes: Vec<ComponentShape>,
    component: usize,
    mirror: usize,
    phase: Phase,
    failures: Vec<DownloadFailure>,
    listing: Vec<String>,
}

impl View for Installer {
    type V = InstallerView;

    closed spec fn view(&self) -> InstallerView {
        InstallerView {
            shapes: self.shapes@,
            component: self.component as nat,
            mirror: self.mirror as nat,
            phase: self.phase,
            installed: self.component as nat,
            failures: self.failures@,
            listing: texts(self.listing@),
        }
    }
}

impl Installer {
    #[verifier::type_invariant]
    spec fn sound(&self) -> bool {
        well_formed(self@)
    }

    /// Begins a run over the components of the given shapes.
    pub fn new(shapes: Vec<ComponentShape>) -> (installer: Installer)
        ensures
            installer@ == initial(shapes@),
    {
        let phase = if shapes.len() == 0 {
            Phase::Done
        } else {
            Phase::Inspecting
        };
        let installer = Installer {
            shapes,
            component: 0,
            mirror: 0,
            phase,
            failures: Vec::new(),
            listing: Vec::new(),
        };
        assert(texts(installer.listing@) =~= Seq::empty());
        installer
    }

    /// What the driver has to do next.
    pub fn pending(&self) -> (action: Action)
        ensures
            action == pending_action(self@),
            well_formed(self@),
    {
        proof {
            use_type_invariant(self);
        }
        let component = self.component;
        match self.phase {
            Phase::Inspecting => Action::Inspect { component },
            Phase::Purging => Action::RemoveDirectory { component },
            Phase::Downloading => Action::Download { component, mirror: self.mirror },
            Phase::Discarding => Action::DiscardDownload { component },
            Phase::Extracting => Action::Extract { component },
            Phase::Cleaning { .. } => Action::DeleteArchive { component },
            Phase::Verifying => Action::Verify { component },
            Phase::Listing => Action::ListDirectory { component },
            Phase::Withdrawing { .. } => Action::RemoveDirectory { component },
            Phase::Done => Action::Finish,
            Phase::Failed { .. } => Action::Finish,
        }
    }

    /// Whether the run is over.
    pub fn is_finished(&self) -> (finished: bool)
        ensures
            finished == outcome_of(self@).is_some(),
    {
        match self.phase {
            Phase::Done => true,
            Phase::Failed { .. } => true,
            _ => false,
        }
    }

    fn with_component_installed(self) -> (next: Installer)
        requires
            self@.phase is Inspecting || self@.phase is Verifying,
        ensures
            next@ == component_installed(self@),
    {
        proof {
            use_type_invariant(&self);
        }
        let phase = if self.component + 1 < self.shapes.len() {
            Phase::Inspecting
        } else {
            Phase::Done
        };
        Installer {
            shapes: self.shapes,
            component: self.component + 1,
            mirror: 0,
            phase,
            failures: Vec::new(),
            listing: self.listing,
        }
    }

    fn with_download_begun(self) -> (next: Installer)
        requires
            self@.phase is Inspecting || self@.phase is Purging,
        ensures
            next@ == download_begun(self@),
    {
        proof {
            use_type_invariant(&self);
        }
        let phase = if self.shapes[self.component].mirrors == 0 {
            Phase::Failed { cause: FailureKind::MirrorsExhausted }
        } else {
            Phase::Downloading
        };
        Installer {
            shapes: self.shapes,
            component: self.component,
            mirror: 0,
            phase,
            failures: Vec::new(),
            listing: self.listing,
        }
    }

    fn with_phase(self, phase: Phase) -> (next: Installer)
        requires
            !(phase is Done),
            !(phase is Downloading),
            !(phase is Discarding),
            phase != (Phase::Failed { cause: FailureKind::MirrorsExhausted }),
            phase != (Phase::Withdrawing { cause: FailureKind::MirrorsExhausted }),
            !(self@.phase is Done),
        ensures
            next@ == (InstallerView { phase, ..self@ }),
    {
        proof {
            use_type_invariant(&self);
        }
        Installer {
            shapes: self.shapes,
            component: self.component,
            mirror: self.mirror,
            phase,
            failures: self.failures,
            listing: self.listing,
        }
    }

    /// Takes the driver's report and moves to the next state.
    pub fn advance(self, observation: Observation) -> (next: Installer)
        ensures
            next@ == step(self@, observation@),
            well_formed(next@),
    {
        proof {
            use_type_invariant(&self);
            step_keeps_well_formed(self@, observation@);
        }
        match (self.phase, observation) {
            (Phase::Inspecting, Observation::Probed { directory, marker }) => {
                let specified = self.shapes[self.component].marker_specified;
                match installation_state(directory, marker, specified) {
                    InstallationState::Installed => self.with_component_installed(),
                    InstallationState::Partial => self.with_phase(Phase::Purging),
                    InstallationState::Absent => self.with_download_begun(),
                }
            },
            (Phase::Purging, Observation::Removed) => self.with_download_begun(),
            (Phase::Downloading, Observation::Downloaded { report }) => {
                match download_failure(report) {
                    None => self.with_phase(Phase::Extracting),
                    Some(failure) => {
                        let mut failures = self.failures;
                        failures.push(failure);
                        Installer {
                            shapes: self.shapes,
                            component: self.component,
                            mirror: self.mirror,
                            phase: Phase::Discarding,
                            failures,
                            listing: self.listing,
                        }
                    },
                }
            },
            (Phase::Discarding, Observation::Discarded) => {
                if self.mirror + 1 < self.shapes[self.component].mirrors {
                    Installer {
                        shapes: self.shapes,
                        component: self.component,
                        mirror: self.mirror + 1,
                        phase: Phase::Downloading,
                        failures: self.failures,
                        listing: self.listing,
                    }
                } else {
                    Installer {
                        shapes: self.shapes,
                        component: self.component,
                        mirror: self.mirror,
                        phase: Phase::Failed { cause: FailureKind::MirrorsExhausted },
                        failures: self.failures,
                        listing: self.listing,
                    }
                }
            },
            (Phase::Extracting, Observation::Extracted { ok }) => self.with_phase(
                Phase::Cleaning { extracted: ok },
            ),
            (Phase::Cleaning { extracted }, Observation::ArchiveDeleted) => {
                if extracted {
                    self.with_phase(Phase::Verifying)
                } else {
                    self.with_phase(Phase::Withdrawing { cause: FailureKind::ExtractionFailed })
                }
            },
            (Phase::Verifying, Observation::Probed { directory, marker }) => {
                let specified = self.shapes[self.component].marker_specified;
                match installation_state(directory, marker, specified) {
                    InstallationState::Installed => self.with_component_installed(),
                    _ => self.with_phase(Phase::Listing),
                }
            },
            (Phase::Listing, Observation::Listed { names }) => Installer {
                shapes: self.shapes,
                component: self.component,
                mirror: self.mirror,
                phase: Phase::Withdrawing { cause: FailureKind::VerificationFailed },
                failures: self.failures,
                listing: names,
            },
            (Phase::Withdrawing { cause }, Observation::Removed) => self.with_phase(
                Phase::Failed { cause },
            ),
            _ => self,
        }
    }

    /// How the run ended, or `None` while it is still under way.
    pub fn into_outcome(self) -> (outcome: Option<Result<usize, InstallError>>)
        ensures
            match outcome {
                None => outcome_of(self@) is None,
                Some(Ok(installed)) => outcome_of(self@) == Some(
                    Ok::<nat, InstallErrorView>(installed as nat),
                ),
                Some(Err(error)) => outcome_of(self@) == Some(
                    Err::<nat, InstallErrorView>(error@),
                ),
            },
    {
        match self.phase {
            Phase::Done => Some(Ok(self.component)),
            Phase::Failed { cause } => Some(
                Err(
                    match cause {
                        FailureKind::MirrorsExhausted => InstallError::MirrorsExhausted {
                            component: self.component,
                            failures: self.failures,
                        },
                        FailureKind::ExtractionFailed => InstallError::ExtractionFailed {
                            component: self.component,
                        },
                        FailureKind::VerificationFailed => InstallError::VerificationFailed {
                            component: self.component,
                            listing: self.listing,
                        },
                    },
                ),
            ),
            _ => None,
        }
    }
}

} // verus!
