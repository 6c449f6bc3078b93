//! Profiles: where their result is exported to, and what their steps are.

use crate::context::RunContext;
use crate::error::{ErrorView, RglError, RglResult};
use crate::execution::{Execution, RunView, Status};
use crate::paths::{join, joined, with_suffix};
use std::collections::HashMap;
use vstd::prelude::*;

verus! {

/// A named pipeline: where its result goes, and its steps in the order in
/// which they run.
#[derive(Debug, PartialEq, Eq)]
pub struct Profile {
    pub export: Export,
    pub filters: Vec<FilterRunner>,
}

/// Where the result of a profile is exported to.
#[derive(Debug, PartialEq, Eq)]
pub struct Export {
    pub target: String,
}

/// One step of a profile: a filter to run, or another profile to run in its
/// place.
#[derive(Debug, PartialEq, Eq)]
pub enum FilterRunner {
    Filter {
        filter_name: String,
        arguments: Option<Vec<String>>,
        settings: Option<HashMap<String, serde_json::Value>>,
    },
    ProfileFilter { profile_name: String },
}

/// The directories that a build is exported to.
#[derive(Debug, PartialEq, Eq)]
pub struct ExportPaths {
    /// Where the behavior pack goes.
    pub bp: String,
    /// Where the resource pack goes.
    pub rp: String,
    /// The directory to create first, where it does not exist yet.
    pub create_dir: Option<String>,
}

/// The mathematical content of an [`ExportPaths`].
pub ghost struct ExportPathsView {
    pub bp: Seq<char>,
    pub rp: Seq<char>,
    pub create_dir: Option<Seq<char>>,
}

impl View for ExportPaths {
    type V = ExportPathsView;

    open spec fn view(&self) -> ExportPathsView {
        ExportPathsView {
            bp: self.bp@,
            rp: self.rp@,
            create_dir: match self.create_dir {
                Some(dir) => Some(dir@),
                None => None,
            },
        }
    }
}

/// The error for a directory lookup that failed with `message`.
pub open spec fn lookup_failure(message: Seq<char>) -> ErrorView {
    ErrorView::Wrap { message }
}

/// Where the profile with export target `target` exports a pack named `name`.
///
/// `mojang_dir` is the data directory of the game, or the message of the
/// failure to find it. The target `development` exports below that
/// directory and fails where it was not found. The target `local` exports
/// to `build/BP` and `build/RP` and wants `build` to exist. Every other
/// target is an error that names it.
pub open spec fn export_paths(
    target: Seq<char>,
    name: Seq<char>,
    mojang_dir: Result<String, String>,
) -> Result<ExportPathsView, ErrorView> {
    if target == "development"@ {
        match mojang_dir {
            Ok(dir) => Ok(
                ExportPathsView {
                    bp: joined(joined(dir@, "development_behavior_packs"@), name + "_bp"@),
                    rp: joined(joined(dir@, "development_resource_packs"@), name + "_rp"@),
                    create_dir: None,
                },
            ),
            Err(message) => Err(lookup_failure(message@)),
        }
    } else if target == "local"@ {
        Ok(
            ExportPathsView {
                bp: joined("build"@, "BP"@),
                rp: joined("build"@, "RP"@),
                create_dir: Some("build"@),
            },
        )
    } else {
        Err(ErrorView::InvalidExportTarget { target })
    }
}

/// The directory that the profile with export target `target` is built in:
/// for `development` the directory `.regolith` of the game's data directory,
/// for every other target `.regolith/tmp` of the project.
pub open spec fn temp_dir(target: Seq<char>, mojang_dir: Result<String, String>) -> Result<
    Seq<char>,
    ErrorView,
> {
    if target == "development"@ {
        match mojang_dir {
            Ok(dir) => Ok(joined(dir@, ".regolith"@)),
            Err(message) => Err(lookup_failure(message@)),
        }
    } else {
        Ok(joined(".regolith"@, "tmp"@))
    }
}

/// The content of the export paths, or of the error in their place.
pub open spec fn export_view(paths: RglResult<ExportPaths>) -> Result<ExportPathsView, ErrorView> {
    match paths {
        Ok(paths) => Ok(paths@),
        Err(error) => Err(error@),
    }
}

/// The content of a path, or of the error in its place.
pub open spec fn path_view(path: RglResult<String>) -> Result<Seq<char>, ErrorView> {
    match path {
        Ok(path) => Ok(path@),
        Err(error) => Err(error@),
    }
}

/// Whether `text` reads exactly as `word`.
fn reads(text: &String, word: &str) -> (same: bool)
    ensures
        same == (text@ == word@),
{
    let other = word.to_owned();
    *text == other
}

impl Profile {
    /// Begins a run of this profile in the working directory `temp`, with
    /// the filters and profiles of `context`. No step is taken yet: the run
    /// that comes back is asked for one action after the other.
    pub fn run<'a>(&'a self, context: &'a RunContext, temp: &str) -> (run: Execution<'a>)
        ensures
            run.context() == *context,
            run@ == (RunView {
                root: context.root(),
                temp: temp@,
                pending: self.filters@,
                status: Status::Ready,
            }),
    {
        Execution::start(self, context, temp)
    }

    /// The directories that a pack named `name` is exported to, and the
    /// directory to create for them. Nothing is created here.
    pub fn get_export_paths(&self, name: &str, mojang_dir: &Result<String, String>) -> (paths:
        RglResult<ExportPaths>)
        ensures
            export_view(paths) == export_paths(self.export.target@, name@, *mojang_dir),
    {
        if reads(&self.export.target, "development") {
            match mojang_dir {
                Ok(dir) => {
                    let behavior = join(dir.as_str(), "development_behavior_packs");
                    let resource = join(dir.as_str(), "development_resource_packs");
                    let bp = join(behavior.as_str(), with_suffix(name, "_bp").as_str());
                    let rp = join(resource.as_str(), with_suffix(name, "_rp").as_str());
                    Ok(ExportPaths { bp, rp, create_dir: None })
                },
                Err(message) => Err(RglError::Wrap { message: message.clone() }),
            }
        } else if reads(&self.export.target, "local") {
            Ok(
                ExportPaths {
                    bp: join("build", "BP"),
                    rp: join("build", "RP"),
                    create_dir: Some("build".to_owned()),
                },
            )
        } else {
            Err(RglError::InvalidExportTarget { target: self.export.target.clone() })
        }
    }

    /// The directory that the profile is built in.
    pub fn get_temp_dir(&self, mojang_dir: &Result<String, String>) -> (dir: RglResult<String>)
        ensures
            path_view(dir) == temp_dir(self.export.target@, *mojang_dir),
    {
        if reads(&self.export.target, "development") {
            match mojang_dir {
                Ok(dir) => Ok(join(dir.as_str(), ".regolith")),
                Err(message) => Err(RglError::Wrap { message: message.clone() }),
            }
        } else {
            Ok(join(".regolith", "tmp"))
        }
    }
}

} // verus!
