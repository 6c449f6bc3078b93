//! The runtime adapter for filters written for Deno.

use crate::error::{ErrorView, RglResult};
use crate::filter::{plan_view, FilterContext, Invocation, InvocationView, Probe};
use crate::paths::{join, joined};
use crate::subprocess::{env_outcome, CommandView, Subprocess};
use crate::text::texts;
use vstd::prelude::*;

verus! {

/// A filter run by `deno run`: the path of its entry script, relative to the
/// directory that holds the filter's sources.
#[derive(Debug, PartialEq, Eq)]
pub struct FilterDeno {
    pub script: String,
}

/// The command that runs a Deno filter, before its environment is set up.
pub open spec fn deno_run_command(
    dir: Seq<char>,
    script: Seq<char>,
    temp: Seq<char>,
    run_args: Seq<Seq<char>>,
) -> CommandView {
    CommandView {
        command: "deno"@,
        arguments: seq!["run"@, "-A"@, joined(dir, script)] + run_args,
        working_dir: Some(temp),
        environment: Seq::empty(),
    }
}

/// The plan of one run of the Deno filter `filter_name`: the script, looked
/// up in the filter's source directory, is run with all permissions in
/// `temp` with `run_args`. Nothing is copied.
pub open spec fn deno_run_plan(
    filter_name: Seq<char>,
    dir: Seq<char>,
    script: Seq<char>,
    temp: Seq<char>,
    run_args: Seq<Seq<char>>,
    probe: Probe,
) -> Result<InvocationView, ErrorView> {
    match env_outcome(
        deno_run_command(dir, script, temp, run_args),
        probe.root_dir,
        probe.filter_dir,
    ) {
        Err(error) => Err(error),
        Ok(process) => Ok(InvocationView { copies: Seq::empty(), process, filter_name }),
    }
}

impl FilterDeno {
    /// Plans one run of the filter in the working directory `temp`.
    pub fn run(
        &self,
        context: &FilterContext,
        temp: &str,
        run_args: &Vec<String>,
        probe: Probe,
    ) -> (plan: RglResult<Invocation>)
        ensures
            plan_view(plan) == deno_run_plan(
                context.name@,
                context.dir@,
                self.script@,
                temp@,
                texts(run_args@),
                probe,
            ),
    {
        let script = join(context.dir.as_str(), self.script.as_str());
        let mut process = Subprocess::new("deno");
        process.arg("run").arg("-A").arg(script.as_str()).args(run_args).current_dir(temp);
        assert(process@ == deno_run_command(context.dir@, self.script@, temp@, texts(run_args@)))
            by {
            assert(process@.arguments =~= seq!["run"@, "-A"@, script@] + texts(run_args@));
        }
        process.setup_env(probe.root_dir, probe.filter_dir)?;
        let plan = Invocation { copies: Vec::new(), process, filter_name: context.name.clone() };
        assert(plan@.copies =~= Seq::empty());
        Ok(plan)
    }
}

} // verus!
