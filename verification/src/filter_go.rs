//! The runtime adapter for filters written in Go.

use crate::error::{ErrorView, RglError, RglResult};
use crate::filter::{plan_view, CopyView, FileCopy, Invocation, InvocationView, Probe};
use crate::paths::{join, joined};
use crate::subprocess::{env_outcome, CommandView, Subprocess};
use crate::text::texts;
use vstd::prelude::*;

verus! {

/// A filter run by `go run`: its name and the path of its entry script.
#[derive(Debug, PartialEq, Eq)]
pub struct FilterGo {
    pub name: String,
    pub script: String,
}

/// The copy of the lock file `file` from the directory of the script into
/// the working directory of the run.
pub open spec fn lock_file_copy(script_dir: Seq<char>, temp: Seq<char>, file: Seq<char>)
    -> CopyView {
    CopyView { label: file, from: joined(script_dir, file), to: joined(temp, file) }
}

/// The command that fetches the modules a Go filter depends on.
pub open spec fn go_install_command(filter_dir: Seq<char>) -> CommandView {
    CommandView {
        command: "go"@,
        arguments: seq!["mod"@, "download"@],
        working_dir: Some(filter_dir),
        environment: Seq::empty(),
    }
}

/// The command that runs a Go filter, before its environment is set up.
pub open spec fn go_run_command(script: Seq<char>, temp: Seq<char>, run_args: Seq<Seq<char>>)
    -> CommandView {
    CommandView {
        command: "go"@,
        arguments: seq!["run"@, script] + run_args,
        working_dir: Some(temp),
        environment: Seq::empty(),
    }
}

/// The plan of one run of the Go filter `name` with entry script `script`.
///
/// A script that could not be made absolute makes the definition invalid.
/// Otherwise `go.mod` and `go.sum` are copied, as far as they can be, from
/// beside the script into `temp`, and the absolute script is run there with
/// `run_args`.
pub open spec fn go_run_plan(
    name: Seq<char>,
    script: Seq<char>,
    temp: Seq<char>,
    run_args: Seq<Seq<char>>,
    probe: Probe,
) -> Result<InvocationView, ErrorView> {
    match probe.script {
        None => Err(
            ErrorView::InvalidFilterDefinition {
                filter_name: name,
                cause: Box::new(ErrorView::PathNotExists { path: script }),
            },
        ),
        Some(resolved) => match env_outcome(
            go_run_command(resolved.path@, temp, run_args),
            probe.root_dir,
            probe.filter_dir,
        ) {
            Err(error) => Err(error),
            Ok(process) => Ok(
                InvocationView {
                    copies: seq![
                        lock_file_copy(resolved.dir@, temp, "go.mod"@),
                        lock_file_copy(resolved.dir@, temp, "go.sum"@),
                    ],
                    process,
                    filter_name: name,
                },
            ),
        },
    }
}

impl FilterGo {
    pub fn new(name: &str, script: &str) -> (filter: Self)
        ensures
            filter.name@ == name@,
            filter.script@ == script@,
    {
        Self { name: name.to_owned(), script: script.to_owned() }
    }

    /// The command that fetches the filter's modules, to be launched with its
    /// output captured in the filter's source directory.
    pub fn install_dependencies(&self, filter_dir: &str) -> (process: Subprocess)
        ensures
            process@ == go_install_command(filter_dir@),
    {
        let mut process = Subprocess::new("go");
        process.arg("mod").arg("download").current_dir(filter_dir);
        assert(process@.arguments =~= seq!["mod"@, "download"@]);
        process
    }

    /// Plans one run of the filter in the working directory `temp`.
    pub fn run(&self, temp: &str, run_args: &Vec<String>, probe: Probe) -> (plan: RglResult<
        Invocation,
    >)
        ensures
            plan_view(plan) == go_run_plan(self.name@, self.script@, temp@, texts(run_args@), probe),
    {
        let resolved = match probe.script {
            Some(resolved) => resolved,
            None => {
                let cause = RglError::PathNotExists { path: self.script.clone() };
                assert(cause@ == ErrorView::PathNotExists { path: self.script@ });
                return Err(
                    RglError::InvalidFilterDefinition {
                        filter_name: self.name.clone(),
                        cause: Box::new(cause),
                    },
                );
            },
        };
        let mut copies: Vec<FileCopy> = Vec::new();
        copies.push(lock_file(resolved.dir.as_str(), temp, "go.mod"));
        copies.push(lock_file(resolved.dir.as_str(), temp, "go.sum"));
        let mut process = Subprocess::new("go");
        process.arg("run").arg(resolved.path.as_str()).args(run_args).current_dir(temp);
        assert(process@ == go_run_command(resolved.path@, temp@, texts(run_args@))) by {
            assert(process@.arguments =~= seq!["run"@, resolved.path@] + texts(run_args@));
        }
        process.setup_env(probe.root_dir, probe.filter_dir)?;
        let plan = Invocation { copies, process, filter_name: self.name.clone() };
        assert(plan@.copies =~= seq![
            lock_file_copy(resolved.dir@, temp@, "go.mod"@),
            lock_file_copy(resolved.dir@, temp@, "go.sum"@),
        ]);
        Ok(plan)
    }
}

/// Builds the copy of one lock file.
fn lock_file(script_dir: &str, temp: &str, file: &str) -> (copy: FileCopy)
    ensures
        copy@ == lock_file_copy(script_dir@, temp@, file@),
{
    FileCopy { label: file.to_owned(), from: join(script_dir, file), to: join(temp, file) }
}

} // verus!
