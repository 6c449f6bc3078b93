//! The runtime adapter for filters written for Node.js.

use crate::error::{ErrorView, RglResult};
use crate::filter::{plan_view, Invocation, InvocationView, Probe};
use crate::subprocess::{env_outcome, CommandView, Subprocess};
use crate::text::texts;
use vstd::prelude::*;

verus! {

/// A filter run by `node`: the directory that holds its sources and the path
/// of its entry script.
#[derive(Debug, PartialEq, Eq)]
pub struct FilterNode {
    pub filter_dir: String,
    pub script: String,
}

/// The name under which the package manager of Node.js is started.
pub open spec fn npm_program(windows: bool) -> Seq<char> {
    if windows {
        "npm.cmd"@
    } else {
        "npm"@
    }
}

/// The command that fetches the packages a Node.js filter depends on.
pub open spec fn node_install_command(filter_dir: Seq<char>, windows: bool) -> CommandView {
    CommandView {
        command: npm_program(windows),
        arguments: seq!["i"@, "--no-fund"@, "--no-audit"@],
        working_dir: Some(filter_dir),
        environment: Seq::empty(),
    }
}

/// The command that runs a Node.js filter, before its environment is set up.
pub open spec fn node_run_command(script: Seq<char>, temp: Seq<char>, run_args: Seq<Seq<char>>)
    -> CommandView {
    CommandView {
        command: "node"@,
        arguments: seq![script] + run_args,
        working_dir: Some(temp),
        environment: Seq::empty(),
    }
}

/// The plan of one run of the Node.js filter `filter_name`: the script, as
/// it is written in the definition, is run in `temp` with `run_args`.
/// Nothing is copied.
pub open spec fn node_run_plan(
    filter_name: Seq<char>,
    script: Seq<char>,
    temp: Seq<char>,
    run_args: Seq<Seq<char>>,
    probe: Probe,
) -> Result<InvocationView, ErrorView> {
    match env_outcome(node_run_command(script, temp, run_args), probe.root_dir, probe.filter_dir) {
        Err(error) => Err(error),
        Ok(process) => Ok(InvocationView { copies: Seq::empty(), process, filter_name }),
    }
}

impl FilterNode {
    pub fn new(filter_dir: String, script: String) -> (filter: Self)
        ensures
            filter.filter_dir == filter_dir,
            filter.script == script,
    {
        Self { filter_dir, script }
    }

    /// Plans one run of the filter, known as `filter_name`, in the working
    /// directory `temp`.
    pub fn run(&self, filter_name: &str, temp: &str, run_args: &Vec<String>, probe: Probe) -> (plan:
        RglResult<Invocation>)
        ensures
            plan_view(plan) == node_run_plan(
                filter_name@,
                self.script@,
                temp@,
                texts(run_args@),
                probe,
            ),
    {
        let mut process = Subprocess::new("node");
        process.arg(self.script.as_str()).args(run_args).current_dir(temp);
        assert(process@ == node_run_command(self.script@, temp@, texts(run_args@))) by {
            assert(process@.arguments =~= seq![self.script@] + texts(run_args@));
        }
        process.setup_env(probe.root_dir, probe.filter_dir)?;
        let plan = Invocation { copies: Vec::new(), process, filter_name: filter_name.to_owned() };
        assert(plan@.copies =~= Seq::empty());
        Ok(plan)
    }

    /// The command that fetches the filter's packages, to be launched with
    /// its output captured. `windows` says whether the command will run on
    /// Windows, where the package manager goes by another name.
    pub fn install_dependencies(&self, windows: bool) -> (process: Subprocess)
        ensures
            process@ == node_install_command(self.filter_dir@, windows),
    {
        let npm = if windows {
            "npm.cmd"
        } else {
            "npm"
        };
        let mut process = Subprocess::new(npm);
        process.arg("i").arg("--no-fund").arg("--no-audit").current_dir(self.filter_dir.as_str());
        assert(process@.arguments =~= seq!["i"@, "--no-fund"@, "--no-audit"@]);
        process
    }
}

} // verus!
