//! The rebuild runner's side of the library: which command rebuilds the
//! bundle, and what the way that command ended means.

use crate::boundary::{lossy_text, text_of};
use vstd::prelude::*;
use vstd::utf8::{decode_utf8, valid_utf8};

verus! {

/// A program with the arguments it is started with.
#[derive(Debug, Clone, PartialEq, Eq)]
pub struct BuildCommand {
    /// The name of the program.
    pub program: &'static str,
    /// Its arguments, in order.
    pub arguments: Vec<&'static str>,
}

/// The texts of a list of arguments.
pub open spec fn texts(arguments: Seq<&'static str>) -> Seq<Seq<char>> {
    arguments.map_values(|a: &'static str| a@)
}

/// The arguments of a build for the web, without the choice of profile.
pub open spec fn web_build_arguments() -> Seq<Seq<char>> {
    seq!["build"@, "--target"@, "web"@]
}

/// The arguments of a build of a project: a build for the web, optimised
/// where it is for production.
pub open spec fn project_build_arguments(production: bool) -> Seq<Seq<char>> {
    if production {
        web_build_arguments().push("--release"@)
    } else {
        web_build_arguments()
    }
}

/// The arguments of the rebuild that follows a change: a build for the web
/// into the directory `pkg` under the artifact name `bahlilui_docs`.
pub open spec fn rebuild_arguments() -> Seq<Seq<char>> {
    web_build_arguments() + seq!["--out-dir"@, "pkg"@, "--out-name"@, "bahlilui_docs"@]
}

/// The command that builds a project, for development or for production.
pub fn build_command(production: bool) -> (command: BuildCommand)
    ensures
        command.program@ == "wasm-pack"@,
        command.arguments@.len() == project_build_arguments(production).len(),
        texts(command.arguments@) == project_build_arguments(production),
{
    let mut arguments: Vec<&'static str> = vec!["build", "--target", "web"];
    if production {
        arguments.push("--release");
    }
    assert(texts(arguments@) =~= project_build_arguments(production));
    BuildCommand { program: "wasm-pack", arguments }
}

/// The command that rebuilds the bundle after a change.
pub fn rebuild_command() -> (command: BuildCommand)
    ensures
        command.program@ == "wasm-pack"@,
        command.arguments@.len() == rebuild_arguments().len(),
        texts(command.arguments@) == rebuild_arguments(),
{
    let arguments: Vec<&'static str> = vec![
        "build",
        "--target",
        "web",
        "--out-dir",
        "pkg",
        "--out-name",
        "bahlilui_docs",
    ];
    assert(texts(arguments@) =~= rebuild_arguments());
    BuildCommand { program: "wasm-pack", arguments }
}

/// How a run of the build command ended.
#[derive(Debug, Clone, PartialEq, Eq)]
pub enum CommandOutcome {
    /// The command ran and exited: its exit code, absent where a signal
    /// ended it, and what it wrote to standard error.
    Exited { code: Option<i32>, stderr: Vec<u8> },
    /// The command could not be started.
    LaunchFailed { reason: String },
}

impl CommandOutcome {
    /// The build succeeded: the command ran and exited with code 0.
    pub open spec fn succeeded(&self) -> bool {
        match self {
            CommandOutcome::Exited { code, .. } => *code == Some(0i32),
            CommandOutcome::LaunchFailed { .. } => false,
        }
    }

    /// What there is to report of a failure: the text of standard error, or
    /// why the command did not start. Nothing after a success.
    pub open spec fn diagnostics(&self) -> Seq<char> {
        match self {
            CommandOutcome::Exited { code, stderr } => if *code == Some(0i32) {
                Seq::<char>::empty()
            } else {
                lossy_text(stderr@)
            },
            CommandOutcome::LaunchFailed { reason } => reason@,
        }
    }
}

/// The result of one rebuild.
#[derive(Debug, Clone, PartialEq, Eq)]
pub struct BuildResult {
    /// Whether the bundle was rebuilt.
    pub success: bool,
    /// The diagnostic text of a failed build; empty after a success.
    pub diagnostics: String,
}

impl BuildResult {
    /// The result that stands for `outcome`. Every way a run can end has
    /// one: a nonzero exit, an exit by signal and a failed launch are all
    /// failures.
    pub fn of(outcome: &CommandOutcome) -> (result: BuildResult)
        ensures
            result.success == outcome.succeeded(),
            result.diagnostics@ == outcome.diagnostics(),
            valid_utf8(outcome->stderr@) && outcome is Exited && !outcome.succeeded()
                ==> result.diagnostics@ == decode_utf8(outcome->stderr@),
    {
        match outcome {
            CommandOutcome::Exited { code, stderr } => {
                let success = match code {
                    Some(c) => *c == 0,
                    None => false,
                };
                if success {
                    BuildResult { success: true, diagnostics: String::new() }
                } else {
                    BuildResult { success: false, diagnostics: text_of(stderr.as_slice()) }
                }
            },
            CommandOutcome::LaunchFailed { reason } => BuildResult {
                success: false,
                diagnostics: reason.clone(),
            },
        }
    }
}

} // verus!
