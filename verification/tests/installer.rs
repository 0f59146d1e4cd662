use runtime_supervisor::installer::{
    download_failure, installation_state, Action, ComponentShape, DownloadFailure, DownloadReport,
    InstallError, InstallationState, Installer, Observation,
};

/// A stand-in for the machine: which component directories and markers
/// exist, whether a temporary file lies around, and how each mirror behaves.
struct FakeMachine {
    directories: Vec<bool>,
    markers: Vec<bool>,
    archive: bool,
    /// For each component, for each mirror: does the download succeed?
    mirrors: Vec<Vec<bool>>,
    /// For each component: does the extraction produce the marker?
    extraction_gives_marker: Vec<bool>,
    extraction_succeeds: Vec<bool>,
    downloads: usize,
    removed: Vec<usize>,
    used_mirrors: Vec<(usize, usize)>,
}

fn good_report() -> DownloadReport {
    DownloadReport { transport_ok: true, status: 200, declared_length: Some(10), received_length: 10 }
}

fn bad_report() -> DownloadReport {
    DownloadReport { transport_ok: true, status: 503, declared_length: None, received_length: 0 }
}

fn perform(machine: &mut FakeMachine, action: Action) -> Observation {
    match action {
        Action::Inspect { component } | Action::Verify { component } => Observation::Probed {
            directory: machine.directories[component],
            marker: machine.markers[component],
        },
        Action::RemoveDirectory { component } => {
            machine.directories[component] = false;
            machine.markers[component] = false;
            machine.removed.push(component);
            Observation::Removed
        }
        Action::Download { component, mirror } => {
            machine.downloads += 1;
            machine.archive = true;
            machine.used_mirrors.push((component, mirror));
            let report = if machine.mirrors[component][mirror] { good_report() } else { bad_report() };
            Observation::Downloaded { report }
        }
        Action::DiscardDownload { .. } => {
            machine.archive = false;
            Observation::Discarded
        }
        Action::Extract { component } => {
            machine.directories[component] = true;
            machine.markers[component] = machine.extraction_gives_marker[component];
            Observation::Extracted { ok: machine.extraction_succeeds[component] }
        }
        Action::DeleteArchive { .. } => {
            machine.archive = false;
            Observation::ArchiveDeleted
        }
        Action::ListDirectory { .. } => Observation::Listed {
            names: vec!["README.txt".to_string(), "chrome-win".to_string()],
        },
        Action::Finish => unreachable!("a finished run asks for nothing"),
    }
}

fn run(shapes: &[ComponentShape], machine: &mut FakeMachine) -> Result<usize, InstallError> {
    let mut installer = Installer::new(shapes.to_vec());
    let mut exchanges = 0;
    while !installer.is_finished() {
        let observation = perform(machine, installer.pending());
        installer = installer.advance(observation);
        exchanges += 1;
        assert!(exchanges < 1000, "the run must come to an end");
    }
    assert_eq!(installer.pending(), Action::Finish);
    installer.into_outcome().expect("a finished run has an outcome")
}

fn two_components() -> Vec<ComponentShape> {
    vec![
        ComponentShape { mirrors: 2, marker_specified: true },
        ComponentShape { mirrors: 2, marker_specified: true },
    ]
}

fn empty_machine() -> FakeMachine {
    FakeMachine {
        directories: vec![false, false],
        markers: vec![false, false],
        archive: false,
        mirrors: vec![vec![true, true], vec![true, true]],
        extraction_gives_marker: vec![true, true],
        extraction_succeeds: vec![true, true],
        downloads: 0,
        removed: vec![],
        used_mirrors: vec![],
    }
}

#[test]
fn fresh_install_downloads_every_component() {
    let mut machine = empty_machine();
    let installed = run(&two_components(), &mut machine).expect("the run succeeds");
    assert_eq!(installed, 2);
    assert_eq!(machine.downloads, 2);
    assert_eq!(machine.markers, vec![true, true]);
    assert!(!machine.archive);
}

#[test]
fn second_run_downloads_nothing_and_reports_the_same_count() {
    let mut machine = empty_machine();
    let first = run(&two_components(), &mut machine).expect("the first run succeeds");
    let downloads_after_first = machine.downloads;
    let second = run(&two_components(), &mut machine).expect("the second run succeeds");
    assert_eq!(first, second);
    assert_eq!(machine.downloads, downloads_after_first);
    assert!(machine.removed.is_empty());
}

#[test]
fn partial_install_is_deleted_and_reinstalled() {
    let mut machine = empty_machine();
    machine.directories[0] = true;
    machine.markers[0] = false;
    let installed = run(&two_components(), &mut machine).expect("the run succeeds");
    assert_eq!(installed, 2);
    assert_eq!(machine.removed, vec![0]);
    assert_eq!(machine.used_mirrors, vec![(0, 0), (1, 0)]);
    assert_eq!(machine.markers, vec![true, true]);
}

#[test]
fn partial_install_asks_for_removal_first() {
    let installer = Installer::new(vec![ComponentShape { mirrors: 1, marker_specified: true }]);
    assert_eq!(installer.pending(), Action::Inspect { component: 0 });
    let installer = installer.advance(Observation::Probed { directory: true, marker: false });
    assert_eq!(installer.pending(), Action::RemoveDirectory { component: 0 });
    let installer = installer.advance(Observation::Removed);
    assert_eq!(installer.pending(), Action::Download { component: 0, mirror: 0 });
}

#[test]
fn failing_first_mirror_falls_back_to_second() {
    let mut machine = empty_machine();
    machine.mirrors = vec![vec![false, true], vec![true, true]];
    let installed = run(&two_components(), &mut machine).expect("the run succeeds");
    assert_eq!(installed, 2);
    assert_eq!(machine.used_mirrors, vec![(0, 0), (0, 1), (1, 0)]);
    assert!(!machine.archive, "no temporary file is left behind");
}

#[test]
fn mirror_fallback_step_by_step() {
    let installer = Installer::new(vec![ComponentShape { mirrors: 2, marker_specified: true }]);
    let installer = installer.advance(Observation::Probed { directory: false, marker: false });
    assert_eq!(installer.pending(), Action::Download { component: 0, mirror: 0 });
    let installer = installer.advance(Observation::Downloaded { report: bad_report() });
    assert_eq!(installer.pending(), Action::DiscardDownload { component: 0 });
    let installer = installer.advance(Observation::Discarded);
    assert_eq!(installer.pending(), Action::Download { component: 0, mirror: 1 });
    let installer = installer.advance(Observation::Downloaded { report: good_report() });
    assert_eq!(installer.pending(), Action::Extract { component: 0 });
    let installer = installer.advance(Observation::Extracted { ok: true });
    assert_eq!(installer.pending(), Action::DeleteArchive { component: 0 });
    let installer = installer.advance(Observation::ArchiveDeleted);
    assert_eq!(installer.pending(), Action::Verify { component: 0 });
    let installer = installer.advance(Observation::Probed { directory: true, marker: true });
    assert!(installer.is_finished());
    assert!(matches!(installer.into_outcome(), Some(Ok(1))));
}

#[test]
fn exhausted_mirrors_abort_the_run() {
    let mut machine = empty_machine();
    machine.mirrors = vec![vec![true, true], vec![false, false]];
    let error = run(&two_components(), &mut machine).expect_err("the second component fails");
    match error {
        InstallError::MirrorsExhausted { component, failures } => {
            assert_eq!(component, 1);
            assert_eq!(
                failures,
                vec![
                    DownloadFailure::Status { status: 503 },
                    DownloadFailure::Status { status: 503 }
                ]
            );
        }
        other => panic!("unexpected error {:?}", other),
    }
    assert!(!machine.archive);
    assert_eq!(machine.markers, vec![true, false]);
}

#[test]
fn component_without_mirrors_fails_at_once() {
    let installer = Installer::new(vec![ComponentShape { mirrors: 0, marker_specified: true }]);
    let installer = installer.advance(Observation::Probed { directory: false, marker: false });
    assert!(installer.is_finished());
    match installer.into_outcome() {
        Some(Err(InstallError::MirrorsExhausted { component, failures })) => {
            assert_eq!(component, 0);
            assert!(failures.is_empty());
        }
        other => panic!("unexpected outcome {:?}", other),
    }
}

#[test]
fn failed_extraction_withdraws_the_directory() {
    let mut machine = empty_machine();
    machine.extraction_succeeds[0] = false;
    let error = run(&two_components(), &mut machine).expect_err("the extraction fails");
    assert!(matches!(error, InstallError::ExtractionFailed { component: 0 }));
    assert_eq!(machine.removed, vec![0]);
    assert!(!machine.directories[0]);
    assert!(!machine.archive);
}

#[test]
fn missing_marker_after_extraction_is_fatal_and_listed() {
    let mut machine = empty_machine();
    machine.extraction_gives_marker[1] = false;
    let error = run(&two_components(), &mut machine).expect_err("the verification fails");
    match error {
        InstallError::VerificationFailed { component, listing } => {
            assert_eq!(component, 1);
            assert_eq!(listing, vec!["README.txt".to_string(), "chrome-win".to_string()]);
        }
        other => panic!("unexpected error {:?}", other),
    }
    assert_eq!(machine.removed, vec![1]);
    assert!(!machine.directories[1], "the unverified directory is deleted");
    assert!(!machine.archive);
}

#[test]
fn empty_manifest_is_done_at_once() {
    let installer = Installer::new(vec![]);
    assert!(installer.is_finished());
    assert_eq!(installer.pending(), Action::Finish);
    assert!(matches!(installer.into_outcome(), Some(Ok(0))));
}

#[test]
fn running_installer_has_no_outcome() {
    let installer = Installer::new(vec![ComponentShape { mirrors: 1, marker_specified: true }]);
    assert!(!installer.is_finished());
    assert!(installer.into_outcome().is_none());
}

#[test]
fn observation_that_is_no_answer_changes_nothing() {
    let installer = Installer::new(vec![ComponentShape { mirrors: 1, marker_specified: true }]);
    let installer = installer.advance(Observation::Removed);
    assert_eq!(installer.pending(), Action::Inspect { component: 0 });
    let installer = installer.advance(Observation::Downloaded { report: good_report() });
    assert_eq!(installer.pending(), Action::Inspect { component: 0 });
    let installer = installer.advance(Observation::Probed { directory: true, marker: true });
    assert!(installer.is_finished());
    let installer = installer.advance(Observation::Probed { directory: false, marker: false });
    assert!(matches!(installer.into_outcome(), Some(Ok(1))));
}

#[test]
fn directory_alone_proves_a_component_without_marker() {
    assert_eq!(installation_state(true, false, false), InstallationState::Installed);
    let installer = Installer::new(vec![ComponentShape { mirrors: 1, marker_specified: false }]);
    let installer = installer.advance(Observation::Probed { directory: true, marker: false });
    assert!(matches!(installer.into_outcome(), Some(Ok(1))));
}

#[test]
fn installation_state_follows_directory_and_marker() {
    assert_eq!(installation_state(false, false, true), InstallationState::Absent);
    assert_eq!(installation_state(false, true, true), InstallationState::Absent);
    assert_eq!(installation_state(true, false, true), InstallationState::Partial);
    assert_eq!(installation_state(true, true, true), InstallationState::Installed);
    assert_eq!(installation_state(false, false, false), InstallationState::Absent);
    assert_eq!(installation_state(true, true, false), InstallationState::Installed);
}

#[test]
fn download_verdicts() {
    assert_eq!(download_failure(good_report()), None);
    assert_eq!(
        download_failure(DownloadReport {
            transport_ok: true,
            status: 299,
            declared_length: None,
            received_length: 7
        }),
        None
    );
    assert_eq!(
        download_failure(DownloadReport {
            transport_ok: false,
            status: 200,
            declared_length: Some(1),
            received_length: 1
        }),
        Some(DownloadFailure::Transport)
    );
    assert_eq!(
        download_failure(DownloadReport {
            transport_ok: true,
            status: 404,
            declared_length: Some(1),
            received_length: 0
        }),
        Some(DownloadFailure::Status { status: 404 })
    );
    assert_eq!(
        download_failure(DownloadReport {
            transport_ok: true,
            status: 199,
            declared_length: None,
            received_length: 0
        }),
        Some(DownloadFailure::Status { status: 199 })
    );
    assert_eq!(
        download_failure(DownloadReport {
            transport_ok: true,
            status: 300,
            declared_length: None,
            received_length: 0
        }),
        Some(DownloadFailure::Status { status: 300 })
    );
    assert_eq!(
        download_failure(DownloadReport {
            transport_ok: true,
            status: 200,
            declared_length: Some(100),
            received_length: 40
        }),
        Some(DownloadFailure::LengthMismatch { declared: 100, received: 40 })
    );
}
