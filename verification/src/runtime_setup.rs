//! Making sure that the system has an interpreter: on Windows, where none
//! answers, the installer that ships with the application is started.
//!
//! Each function takes what the caller found out in the step before and
//! says what to do next.
use crate::resolver::{
    join, joined, location_of, resolve_location, separator_of, version_query,
    version_query_of,
};
use crate::spawn::{command, plain_command, Platform, SpawnSpec, SpawnSpecView};
use crate::text::texts;
use vstd::prelude::*;
use vstd::string::StringExecFns;

verus! {

/// What the caller has to do next.
#[derive(Debug)]
pub enum SetupStep {
    /// Run the query and report whether it ran and ended well; go on with
    /// [`after_probe`].
    ProbeInterpreter { query: SpawnSpec },
    /// Check which of the candidates exist; go on with [`after_locate`].
    LocateInstaller { candidates: Vec<String> },
    /// Run the command, wait for it, and report how it went; go on with
    /// [`after_installer`].
    RunInstaller { command: SpawnSpec },
    /// Nothing more: this is the result to show.
    Finished { result: Result<String, String> },
}

/// A [`SetupStep`] as a mathematical value.
pub enum SetupStepView {
    ProbeInterpreter { query: SpawnSpecView },
    LocateInstaller { candidates: Seq<Seq<char>> },
    RunInstaller { command: SpawnSpecView },
    Finished { result: Result<Seq<char>, Seq<char>> },
}

impl View for SetupStep {
    type V = SetupStepView;

    open spec fn view(&self) -> SetupStepView {
        match *self {
            SetupStep::ProbeInterpreter { query } => SetupStepView::ProbeInterpreter {
                query: query@,
            },
            SetupStep::LocateInstaller { candidates } => SetupStepView::LocateInstaller {
                candidates: texts(candidates@),
            },
            SetupStep::RunInstaller { command } => SetupStepView::RunInstaller {
                command: command@,
            },
            SetupStep::Finished { result } => SetupStepView::Finished {
                result: match result {
                    Ok(message) => Ok(message@),
                    Err(message) => Err(message@),
                },
            },
        }
    }
}

/// The bare name of the interpreter.
pub open spec fn interpreter_name() -> Seq<char> {
    "node"@
}

/// The file name of the installer that ships with the application.
pub open spec fn installer_name() -> Seq<char> {
    "node-installer.msi"@
}

/// The first step: on Windows the interpreter is asked for its version; on
/// other systems there is nothing to check.
pub open spec fn first_step(platform: Platform) -> SetupStepView {
    match platform {
        Platform::Windows => SetupStepView::ProbeInterpreter {
            query: version_query_of(interpreter_name()),
        },
        _ => SetupStepView::Finished {
            result: Ok("Node.js check is only available on Windows"@),
        },
    }
}

/// Begins the check.
pub fn begin_setup(platform: Platform) -> (step: SetupStep)
    ensures
        step@ == first_step(platform),
{
    match platform {
        Platform::Windows => SetupStep::ProbeInterpreter { query: version_query("node") },
        _ => SetupStep::Finished {
            result: Ok(String::from_str("Node.js check is only available on Windows")),
        },
    }
}

/// The places where the installer is looked for: in the application's
/// directory, then in its `resources`, then in its `binaries` directory.
pub open spec fn installer_candidates_of(app_dir: Seq<char>) -> Seq<Seq<char>> {
    let separator = separator_of(Platform::Windows);
    seq![
        joined(app_dir, seq![installer_name()], separator),
        joined(app_dir, seq!["resources"@, installer_name()], separator),
        joined(app_dir, seq!["binaries"@, installer_name()], separator),
    ]
}

/// The step after the probe: an interpreter that answered ends the check;
/// else the installer is looked for, which needs the application's
/// directory.
pub open spec fn step_after_probe(answered: bool, app_dir: Option<Seq<char>>) -> SetupStepView {
    if answered {
        SetupStepView::Finished { result: Ok("Node.js already installed"@) }
    } else {
        match app_dir {
            Some(dir) => SetupStepView::LocateInstaller {
                candidates: installer_candidates_of(dir),
            },
            None => SetupStepView::Finished { result: Err("Failed to get app directory"@) },
        }
    }
}

fn below(app_dir: &str, directory: &str) -> (path: String)
    ensures
        path@ == joined(
            app_dir@,
            seq![directory@, installer_name()],
            separator_of(Platform::Windows),
        ),
{
    let mut segments: Vec<String> = Vec::new();
    segments.push(directory.to_owned());
    segments.push(String::from_str("node-installer.msi"));
    assert(texts(segments@) =~= seq![directory@, installer_name()]);
    join(Platform::Windows, app_dir, &segments)
}

/// Takes the result of the probe; `app_dir` is the directory of the running
/// executable, where it is known.
pub fn after_probe(answered: bool, app_dir: &Option<String>) -> (step: SetupStep)
    ensures
        step@ == step_after_probe(
            answered,
            match *app_dir {
                Some(dir) => Some(dir@),
                None => None,
            },
        ),
{
    if answered {
        return SetupStep::Finished { result: Ok(String::from_str("Node.js already installed")) };
    }
    match app_dir {
        Some(dir) => {
            let mut alone: Vec<String> = Vec::new();
            alone.push(String::from_str("node-installer.msi"));
            assert(texts(alone@) =~= seq![installer_name()]);
            let mut candidates: Vec<String> = Vec::new();
            candidates.push(join(Platform::Windows, dir.as_str(), &alone));
            candidates.push(below(dir.as_str(), "resources"));
            candidates.push(below(dir.as_str(), "binaries"));
            assert(texts(candidates@) =~= installer_candidates_of(dir@));
            SetupStep::LocateInstaller { candidates }
        },
        None => SetupStep::Finished {
            result: Err(String::from_str("Failed to get app directory")),
        },
    }
}

/// The command that runs an installer package with a progress display and
/// all features selected.
pub open spec fn installer_command_of(installer: Seq<char>) -> SpawnSpecView {
    plain_command("msiexec"@, seq!["/i"@, installer, "/qb"@, "ADDLOCAL=ALL"@])
}

/// The step after the search for the installer: the first candidate that
/// exists is run; where none exists the user is told to install by hand.
pub open spec fn step_after_locate(candidates: Seq<Seq<char>>, found: Seq<bool>) -> SetupStepView {
    match location_of(candidates, found) {
        Ok(installer) => SetupStepView::RunInstaller { command: installer_command_of(installer) },
        Err(_) => SetupStepView::Finished {
            result: Err(
                "Node.js installer not found. Please install Node.js 18+ manually from https://nodejs.org"@,
            ),
        },
    }
}

/// Takes the result of the search for the installer.
pub fn after_locate(candidates: Vec<String>, found: &Vec<bool>) -> (step: SetupStep)
    ensures
        step@ == step_after_locate(texts(candidates@), found@),
{
    match resolve_location(candidates, found) {
        Ok(installer) => {
            let mut args: Vec<String> = Vec::new();
            args.push(String::from_str("/i"));
            args.push(installer);
            args.push(String::from_str("/qb"));
            args.push(String::from_str("ADDLOCAL=ALL"));
            assert(texts(args@) =~= seq!["/i"@, installer@, "/qb"@, "ADDLOCAL=ALL"@]);
            SetupStep::RunInstaller { command: command(String::from_str("msiexec"), args) }
        },
        Err(_) => SetupStep::Finished {
            result: Err(
                String::from_str(
                    "Node.js installer not found. Please install Node.js 18+ manually from https://nodejs.org",
                ),
            ),
        },
    }
}

/// What the user is told after the installer ran: `ran` is whether it ended
/// well, or the system's reason why it could not be started.
pub open spec fn result_after_installer(ran: Result<bool, String>) -> Result<
    Seq<char>,
    Seq<char>,
> {
    match ran {
        Ok(true) => Ok(
            "Node.js installation started. Please restart the application after installation completes."@,
        ),
        Ok(false) => Err(
            "Installation was cancelled or failed. Please install Node.js manually from https://nodejs.org"@,
        ),
        Err(reason) => Err("Failed to launch installer: "@ + reason@),
    }
}

/// Takes the result of the installer run.
pub fn after_installer(ran: Result<bool, String>) -> (result: Result<String, String>)
    ensures
        match result {
            Ok(message) => result_after_installer(ran) == Ok::<Seq<char>, Seq<char>>(message@),
            Err(message) => result_after_installer(ran) == Err::<Seq<char>, Seq<char>>(message@),
        },
{
    match ran {
        Ok(true) => Ok(
            String::from_str(
                "Node.js installation started. Please restart the application after installation completes.",
            ),
        ),
        Ok(false) => Err(
            String::from_str(
                "Installation was cancelled or failed. Please install Node.js manually from https://nodejs.org",
            ),
        ),
        Err(reason) => {
            let mut message = String::from_str("Failed to launch installer: ");
            message.append(reason.as_str());
            Err(message)
        },
    }
}

} // verus!
