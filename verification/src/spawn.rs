//! Process-spawn specifications: what to run, with which arguments, in which
//! environment.  The library composes them; the caller hands them to the
//! operating system.
use crate::text::texts;
use vstd::prelude::*;

verus! {

/// The operating system family the host application runs on.
#[derive(Clone, Copy, Debug, PartialEq, Eq, Structural)]
pub enum Platform {
    Windows,
    MacOs,
    Linux,
}

/// One environment variable to set for a child process.
#[derive(Debug)]
pub struct EnvVar {
    pub name: String,
    pub value: String,
}

/// Everything needed to start a child process.
#[derive(Debug)]
pub struct SpawnSpec {
    /// The executable: a path, or a bare name to be found on the search path.
    pub program: String,
    /// The arguments, in order.
    pub args: Vec<String>,
    /// Environment variables to set on top of the inherited environment.
    pub env: Vec<EnvVar>,
    /// The working directory; `None` keeps the caller's.
    pub working_dir: Option<String>,
    /// Whether to keep the child from opening a console window (Windows).
    pub hide_window: bool,
}

/// The name and value of each variable of a sequence.
pub open spec fn bindings(vars: Seq<EnvVar>) -> Seq<(Seq<char>, Seq<char>)> {
    vars.map_values(|v: EnvVar| (v.name@, v.value@))
}

/// A [`SpawnSpec`] as a mathematical value.
pub struct SpawnSpecView {
    pub program: Seq<char>,
    pub args: Seq<Seq<char>>,
    pub env: Seq<(Seq<char>, Seq<char>)>,
    pub working_dir: Option<Seq<char>>,
    pub hide_window: bool,
}

impl View for SpawnSpec {
    type V = SpawnSpecView;

    open spec fn view(&self) -> SpawnSpecView {
        SpawnSpecView {
            program: self.program@,
            args: texts(self.args@),
            env: bindings(self.env@),
            working_dir: match self.working_dir {
                Some(dir) => Some(dir@),
                None => None,
            },
            hide_window: self.hide_window,
        }
    }
}

/// A command with arguments only: inherited environment and working
/// directory, no hidden window.
pub open spec fn plain_command(program: Seq<char>, args: Seq<Seq<char>>) -> SpawnSpecView {
    SpawnSpecView { program, args, env: Seq::empty(), working_dir: None, hide_window: false }
}

/// Builds a command with arguments only.
pub fn command(program: String, args: Vec<String>) -> (spec: SpawnSpec)
    ensures
        spec@ == plain_command(program@, texts(args@)),
{
    let spec = SpawnSpec { program, args, env: Vec::new(), working_dir: None, hide_window: false };
    assert(bindings(spec.env@) =~= Seq::empty());
    spec
}

} // verus!
