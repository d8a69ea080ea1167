//! The decisions of the command-line tool: when a command is refused, and
//! what it says then.

use crate::scaffold::{
    directory_paths, file_texts, project_directories, project_files, ProjectFile,
};
use vstd::prelude::*;
use vstd::string::StringExecFns;

verus! {

/// Why a command was refused or failed.
#[derive(Debug, Clone, PartialEq, Eq)]
pub enum CliError {
    /// A new project was asked for where a directory of that name exists.
    DirectoryExists { name: String },
    /// The development server was started outside a project.
    NotAProject,
    /// The build before the development server failed.
    InitialBuildFailed,
    /// The production build failed.
    BuildFailed,
}

impl CliError {
    /// What the error says.
    pub open spec fn text(&self) -> Seq<char> {
        match self {
            CliError::DirectoryExists { name } => "Directory "@ + name@ + " already exists"@,
            CliError::NotAProject => "Not in a BahlilUI project directory"@,
            CliError::InitialBuildFailed => "Initial build failed"@,
            CliError::BuildFailed => "Build failed"@,
        }
    }

    /// The message to show for the error.
    pub fn message(&self) -> (message: String)
        ensures
            message@ == self.text(),
    {
        match self {
            CliError::DirectoryExists { name } => {
                let mut message = String::from_str("Directory ");
                message.append(name.as_str());
                message.append(" already exists");
                message
            },
            CliError::NotAProject => String::from_str("Not in a BahlilUI project directory"),
            CliError::InitialBuildFailed => String::from_str("Initial build failed"),
            CliError::BuildFailed => String::from_str("Build failed"),
        }
    }
}

/// What to create for a new project.
#[derive(Debug, Clone, PartialEq, Eq)]
pub struct ProjectPlan {
    /// The directories, relative to the project's root, parents first.
    pub directories: Vec<&'static str>,
    /// The files, in the order in which they are written.
    pub files: Vec<ProjectFile>,
}

/// Plans the project `name`. `exists` says whether something of that name
/// is already there: then nothing is planned.
pub fn plan_new_project(name: &str, exists: bool) -> (plan: Result<ProjectPlan, CliError>)
    ensures
        match plan {
            Ok(p) => {
                &&& !exists
                &&& p.directories@.len() == directory_paths().len()
                &&& p.files@.len() == file_texts(name@).len()
                &&& p.directories@.map_values(|d: &'static str| d@) == directory_paths()
                &&& p.files@.map_values(|f: ProjectFile| (f.path@, f.contents@)) == file_texts(
                    name@,
                )
            },
            Err(e) => {
                &&& exists
                &&& e matches CliError::DirectoryExists { name: taken } && taken@ == name@
            },
        },
{
    if exists {
        Err(CliError::DirectoryExists { name: String::from_str(name) })
    } else {
        Ok(ProjectPlan { directories: project_directories(), files: project_files(name) })
    }
}

/// Whether the development server may start here: a project has a manifest
/// and a content directory.
pub fn check_project_directory(has_manifest: bool, has_contents: bool) -> (checked: Result<
    (),
    CliError,
>)
    ensures
        has_manifest && has_contents ==> checked.is_ok(),
        !(has_manifest && has_contents) ==> checked matches Err(CliError::NotAProject),
{
    if !has_manifest || !has_contents {
        Err(CliError::NotAProject)
    } else {
        Ok(())
    }
}

/// The verdict on the build that precedes the development server.
pub fn check_initial_build(succeeded: bool) -> (checked: Result<(), CliError>)
    ensures
        succeeded ==> checked.is_ok(),
        !succeeded ==> checked matches Err(CliError::InitialBuildFailed),
{
    if succeeded {
        Ok(())
    } else {
        Err(CliError::InitialBuildFailed)
    }
}

/// The verdict on a production build.
pub fn check_build(succeeded: bool) -> (checked: Result<(), CliError>)
    ensures
        succeeded ==> checked.is_ok(),
        !succeeded ==> checked matches Err(CliError::BuildFailed),
{
    if succeeded {
        Ok(())
    } else {
        Err(CliError::BuildFailed)
    }
}

} // verus!
