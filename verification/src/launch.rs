//! The launch orchestrator: from resolved paths to the command that starts
//! the automation runtime, and the commands that open other applications.
use crate::encoding::{
    base64_standard, encodable, encode_payload, split_whitespace, whitespace_words,
};
use crate::resolver::{
    join, joined, list_separator_of, render_search_list, search_list, separator_of,
    ResolvedPaths, ResolvedPathsView,
};
use crate::spawn::{
    bindings, command, plain_command, EnvVar, Platform, SpawnSpec, SpawnSpecView,
};
use crate::text::{as_text, decimal, push_decimal, texts};
use vstd::prelude::*;
use vstd::string::StringExecFns;
use vstd::string::StringSliceAdditionalSpecFns;

verus! {

/// The application path under which the automation runtime is requested.
pub open spec fn automation_name() -> Seq<char> {
    "playwright"@
}

/// Whether a request to open `app_path` asks for the automation runtime
/// rather than for an application of that name.
pub fn is_automation_request(app_path: &str) -> (automation: bool)
    ensures
        automation == (app_path@ == automation_name()),
{
    app_path.to_owned() == String::from_str("playwright")
}

/// The file name of the launcher: on Windows a program of its own, elsewhere
/// a script for the interpreter.
pub open spec fn launcher_name_of(platform: Platform) -> Seq<char> {
    match platform {
        Platform::Windows => "launch_playwright.exe"@,
        Platform::MacOs => "launch_playwright.js"@,
        Platform::Linux => "launch_playwright.cjs"@,
    }
}

/// The file name of the launcher.
pub fn launcher_name(platform: Platform) -> (name: String)
    ensures
        name@ == launcher_name_of(platform),
{
    match platform {
        Platform::Windows => String::from_str("launch_playwright.exe"),
        Platform::MacOs => String::from_str("launch_playwright.js"),
        Platform::Linux => String::from_str("launch_playwright.cjs"),
    }
}

/// The places where the launcher is looked for, in order.
///
/// On Windows `base` is the directory of the running executable, and the
/// launcher lies in it or in its `binaries` or `resources` directory.
/// Elsewhere `base` is the working directory, and the launcher lies in its
/// `scripts` directory or in that of its parent, where it has one.
pub open spec fn launcher_candidates_of(
    platform: Platform,
    base: Seq<char>,
    parent: Option<Seq<char>>,
) -> Seq<Seq<char>> {
    let separator = separator_of(platform);
    let name = launcher_name_of(platform);
    match platform {
        Platform::Windows => seq![
            joined(base, seq![name], separator),
            joined(base, seq!["binaries"@, name], separator),
            joined(base, seq!["resources"@, name], separator),
        ],
        _ => match parent {
            Some(above) => seq![
                joined(base, seq!["scripts"@, name], separator),
                joined(above, seq!["scripts"@, name], separator),
            ],
            None => seq![joined(base, seq!["scripts"@, name], separator)],
        },
    }
}

fn two_segments(first: &str, second: String) -> (segments: Vec<String>)
    ensures
        texts(segments@) == seq![first@, second@],
{
    let mut segments: Vec<String> = Vec::new();
    segments.push(first.to_owned());
    segments.push(second);
    segments
}

/// Composes the places where the launcher is looked for.
pub fn launcher_candidates(platform: Platform, base: &str, parent: &Option<String>) -> (candidates:
    Vec<String>)
    ensures
        texts(candidates@) == launcher_candidates_of(
            platform,
            base@,
            match *parent {
                Some(above) => Some(above@),
                None => None,
            },
        ),
{
    let mut candidates: Vec<String> = Vec::new();
    match platform {
        Platform::Windows => {
            let mut alone: Vec<String> = Vec::new();
            alone.push(launcher_name(platform));
            assert(texts(alone@) =~= seq![launcher_name_of(platform)]);
            candidates.push(join(platform, base, &alone));
            candidates.push(join(platform, base, &two_segments("binaries", launcher_name(platform))));
            candidates.push(
                join(platform, base, &two_segments("resources", launcher_name(platform))),
            );
        },
        _ => {
            candidates.push(join(platform, base, &two_segments("scripts", launcher_name(platform))));
            match parent {
                Some(above) => {
                    candidates.push(
                        join(
                            platform,
                            above.as_str(),
                            &two_segments("scripts", launcher_name(platform)),
                        ),
                    );
                },
                None => {},
            }
        },
    }
    candidates
}

/// The environment of the launched process: the search path with the
/// runtime's directory in front, the module search path, and the directory
/// of the component cache.
pub open spec fn launch_environment(platform: Platform, paths: ResolvedPathsView) -> Seq<
    (Seq<char>, Seq<char>),
> {
    seq![
        ("PATH"@, paths.enhanced_search_path),
        ("NODE_PATH"@, search_list(paths.module_search_path, list_separator_of(platform))),
        ("PLAYWRIGHT_BROWSERS_PATH"@, paths.cache_directory),
    ]
}

/// The command that starts the automation runtime on an encoded payload.
///
/// On Windows the launcher is run directly, without a console window;
/// elsewhere the interpreter runs it.  The payload is the last argument.
/// The process works in the cache directory, which is writable, and never
/// in the application's own directory.
pub open spec fn automation_command_of(
    platform: Platform,
    paths: ResolvedPathsView,
    launcher: Seq<char>,
    encoded_payload: Seq<char>,
) -> SpawnSpecView {
    match platform {
        Platform::Windows => SpawnSpecView {
            program: launcher,
            args: seq![encoded_payload],
            env: launch_environment(platform, paths),
            working_dir: Some(paths.cache_directory),
            hide_window: true,
        },
        _ => SpawnSpecView {
            program: paths.interpreter_executable,
            args: seq![launcher, encoded_payload],
            env: launch_environment(platform, paths),
            working_dir: Some(paths.cache_directory),
            hide_window: false,
        },
    }
}

/// Composes the command that starts the automation runtime, given the
/// payload as it goes on the command line.
pub fn automation_command(
    platform: Platform,
    paths: &ResolvedPaths,
    launcher: String,
    encoded_payload: String,
) -> (spec: SpawnSpec)
    ensures
        spec@ == automation_command_of(platform, paths@, launcher@, encoded_payload@),
{
    let mut env: Vec<EnvVar> = Vec::new();
    env.push(EnvVar { name: String::from_str("PATH"), value: paths.enhanced_search_path.clone() });
    env.push(
        EnvVar {
            name: String::from_str("NODE_PATH"),
            value: render_search_list(platform, &paths.module_search_path),
        },
    );
    env.push(
        EnvVar {
            name: String::from_str("PLAYWRIGHT_BROWSERS_PATH"),
            value: paths.cache_directory.clone(),
        },
    );
    assert(bindings(env@) =~= launch_environment(platform, paths@));
    let mut args: Vec<String> = Vec::new();
    match platform {
        Platform::Windows => {
            args.push(encoded_payload);
            assert(texts(args@) =~= seq![encoded_payload@]);
            SpawnSpec {
                program: launcher,
                args,
                env,
                working_dir: Some(paths.cache_directory.clone()),
                hide_window: true,
            }
        },
        _ => {
            args.push(launcher);
            args.push(encoded_payload);
            assert(texts(args@) =~= seq![launcher@, encoded_payload@]);
            SpawnSpec {
                program: paths.interpreter_executable.clone(),
                args,
                env,
                working_dir: Some(paths.cache_directory.clone()),
                hide_window: false,
            }
        },
    }
}

/// Why a launch could not be prepared.
#[derive(Clone, Copy, Debug, PartialEq, Eq, Structural)]
pub enum LaunchError {
    /// The payload is too long to be encoded.
    PayloadTooLarge,
}

/// Prepares the launch of the automation runtime on `payload`: the payload
/// is encoded as standard base64, so that no shell or quoting can harm it,
/// and becomes the last argument of the command.
pub fn automation_launch(
    platform: Platform,
    paths: &ResolvedPaths,
    launcher: String,
    payload: &str,
) -> (launch: Result<SpawnSpec, LaunchError>)
    ensures
        match launch {
            Ok(spec) => encodable(payload.spec_bytes().len()) && spec@ == automation_command_of(
                platform,
                paths@,
                launcher@,
                base64_standard(payload.spec_bytes()),
            ),
            Err(error) => !encodable(payload.spec_bytes().len()) && error
                == LaunchError::PayloadTooLarge,
        },
{
    match encode_payload(payload) {
        Some(encoded) => Ok(automation_command(platform, paths, launcher, encoded)),
        None => Err(LaunchError::PayloadTooLarge),
    }
}

/// The command that opens an application with the given arguments: on
/// macOS through the system's `open`, elsewhere the application itself.
pub open spec fn application_command_of(
    platform: Platform,
    app_path: Seq<char>,
    words: Seq<Seq<char>>,
) -> SpawnSpecView {
    match platform {
        Platform::MacOs => plain_command("open"@, seq!["-a"@, app_path, "--args"@] + words),
        _ => plain_command(app_path, words),
    }
}

/// Composes the command that opens an application, given its arguments word
/// by word.
pub fn application_command(platform: Platform, app_path: &str, words: Vec<String>) -> (spec:
    SpawnSpec)
    ensures
        spec@ == application_command_of(platform, app_path@, texts(words@)),
{
    match platform {
        Platform::MacOs => {
            let mut args: Vec<String> = Vec::new();
            args.push(String::from_str("-a"));
            args.push(app_path.to_owned());
            args.push(String::from_str("--args"));
            let mut words = words;
            let ghost tail = texts(words@);
            args.append(&mut words);
            assert(texts(args@) =~= seq!["-a"@, app_path@, "--args"@] + tail);
            command(String::from_str("open"), args)
        },
        _ => command(app_path.to_owned(), words),
    }
}

/// Composes the command that opens an application, given its arguments as
/// one string: the words of the string are the arguments.
pub fn open_application(platform: Platform, app_path: &str, arguments: &str) -> (spec: SpawnSpec)
    ensures
        spec@ == application_command_of(platform, app_path@, whitespace_words(arguments@)),
{
    application_command(platform, app_path, split_whitespace(arguments))
}

/// How a process that was waited for ended.
#[derive(Clone, Copy, Debug, PartialEq, Eq, Structural)]
pub struct ExitReport {
    pub success: bool,
    /// The exit code; `None` where the process was ended by a signal.
    pub code: Option<i32>,
}

/// An integer in decimal, with a minus sign where it is negative.
pub open spec fn signed_decimal(value: int) -> Seq<char> {
    if value < 0 {
        seq!['-'] + as_text(decimal((-value) as nat))
    } else {
        as_text(decimal(value as nat))
    }
}

/// What is reported when an opened application ends badly.
pub open spec fn open_failure_message(code: Option<i32>) -> Seq<char> {
    match code {
        Some(value) => "failed to open app: exit code Some("@ + signed_decimal(value as int)
            + ")"@,
        None => "failed to open app: exit code None"@,
    }
}

/// Judges the end of an opened application: a failure is reported with the
/// exit code.
pub fn open_result(exit: ExitReport) -> (result: Result<(), String>)
    ensures
        result is Ok <==> exit.success,
        result matches Err(message) ==> message@ == open_failure_message(exit.code),
{
    if exit.success {
        return Ok(());
    }
    match exit.code {
        Some(value) => {
            let mut message = String::from_str("failed to open app: exit code Some(");
            if value < 0 {
                proof {
                    reveal_strlit("-");
                }
                message.append("-");
                let magnitude: u64 = (-(value as i64)) as u64;
                push_decimal(&mut message, magnitude);
                assert(message@ =~= "failed to open app: exit code Some("@ + signed_decimal(
                    value as int,
                ));
            } else {
                push_decimal(&mut message, value as u64);
            }
            message.append(")");
            Err(message)
        },
        None => Err(String::from_str("failed to open app: exit code None")),
    }
}

} // verus!
