//! What every filter runtime has in common: the definition a filter is
//! loaded from, what must be known before it starts, the plan of one run and
//! the outcome of it.

use crate::error::{ErrorView, RglError, RglResult};
use crate::filter_deno::{deno_run_plan, FilterDeno};
use crate::filter_go::{go_install_command, go_run_plan, FilterGo};
use crate::filter_node::{node_install_command, node_run_plan, FilterNode};
use crate::subprocess::{launch_failure, CommandView, Launch, Output, Subprocess};
use crate::text::texts;
use vstd::prelude::*;

verus! {

/// The name of a filter and the directory that holds its sources.
#[derive(Debug, PartialEq, Eq)]
pub struct FilterContext {
    pub name: String,
    pub dir: String,
}

/// A script path made absolute, with the directory that holds the script.
#[derive(Debug, PartialEq, Eq)]
pub struct ResolvedScript {
    pub path: String,
    pub dir: String,
}

/// What the caller found on disk before a filter is started.
///
/// The two directories are the project root and the filter's source
/// directory, each made absolute, or the message of the failure to do so.
/// `script` is the filter's script made absolute, where the filter asked for
/// that and the script exists.
#[derive(Debug, PartialEq, Eq)]
pub struct Probe {
    pub root_dir: Result<String, String>,
    pub filter_dir: Result<String, String>,
    pub script: Option<ResolvedScript>,
}

/// One file to copy before a filter starts. A copy that fails is worth a
/// warning that names `label`, and nothing more.
#[derive(Debug, PartialEq, Eq)]
pub struct FileCopy {
    pub label: String,
    pub from: String,
    pub to: String,
}

/// The plan of one run of a filter.
#[derive(Debug, PartialEq, Eq)]
pub struct Invocation {
    /// Files to copy first, in this order, without regard to failures.
    pub copies: Vec<FileCopy>,
    /// The command to launch then, streaming its output.
    pub process: Subprocess,
    /// The filter that is run, to be named where its program ends with a
    /// failing exit status.
    pub filter_name: String,
}

/// The mathematical content of a [`FileCopy`].
pub ghost struct CopyView {
    pub label: Seq<char>,
    pub from: Seq<char>,
    pub to: Seq<char>,
}

/// The mathematical content of an [`Invocation`].
pub ghost struct InvocationView {
    pub copies: Seq<CopyView>,
    pub process: CommandView,
    pub filter_name: Seq<char>,
}

impl View for FileCopy {
    type V = CopyView;

    open spec fn view(&self) -> CopyView {
        CopyView { label: self.label@, from: self.from@, to: self.to@ }
    }
}

impl View for Invocation {
    type V = InvocationView;

    open spec fn view(&self) -> InvocationView {
        InvocationView {
            copies: self.copies@.map_values(|copy: FileCopy| copy@),
            process: self.process@,
            filter_name: self.filter_name@,
        }
    }
}

/// The content of the plan of a run, or of the error that stands in its place.
pub open spec fn plan_view(plan: RglResult<Invocation>) -> Result<InvocationView, ErrorView> {
    match plan {
        Ok(invocation) => Ok(invocation@),
        Err(error) => Err(error@),
    }
}

/// The content of an outcome: nothing, or the error.
pub open spec fn outcome_view(outcome: RglResult<()>) -> Result<(), ErrorView> {
    match outcome {
        Ok(_) => Ok(()),
        Err(error) => Err(error@),
    }
}

/// The outcome of a run of the filter `filter_name`: a program that could
/// not be started or waited for is a subprocess error; one that ended with a
/// failing exit status is a failed run of the filter; one that ended with
/// success is a success.
pub open spec fn run_outcome(filter_name: Seq<char>, launch: Launch) -> Result<(), ErrorView> {
    match launch {
        Launch::SpawnFailed(message) => Err(launch_failure(message@)),
        Launch::WaitFailed(message) => Err(launch_failure(message@)),
        Launch::Completed(output) => if output.success {
            Ok(())
        } else {
            Err(ErrorView::FilterRunFailed { filter_name })
        },
    }
}

/// The labels of the copies that failed, in the order of the plan. `copied`
/// says of each copy of the plan whether it succeeded; a copy without a
/// report counts as made.
pub open spec fn failed_labels(copies: Seq<CopyView>, copied: Seq<bool>) -> Seq<Seq<char>>
    decreases copies.len(),
{
    if copies.len() == 0 {
        Seq::empty()
    } else {
        let rest = failed_labels(copies.drop_last(), copied);
        let last = copies.len() - 1;
        if last < copied.len() && !copied[last] {
            rest.push(copies[last].label)
        } else {
            rest
        }
    }
}

impl Invocation {
    /// The outcome of this run, given how the launch of its program went and
    /// which of its copies were made. The copies do not bear on it: a run
    /// whose program succeeded has succeeded, though no file was copied.
    pub fn finish(&self, copied: &Vec<bool>, launch: Launch) -> (done: RglResult<()>)
        ensures
            outcome_view(done) == run_outcome(self@.filter_name, launch),
    {
        let output = self.process.run(launch)?;
        if output.success {
            Ok(())
        } else {
            Err(RglError::FilterRunFailed { filter_name: self.filter_name.clone() })
        }
    }

    /// The labels of the copies that failed, for the warnings that they are
    /// worth.
    pub fn warnings(&self, copied: &Vec<bool>) -> (labels: Vec<String>)
        ensures
            texts(labels@) == failed_labels(self@.copies, copied@),
    {
        let mut labels: Vec<String> = Vec::new();
        let mut i: usize = 0;
        assert(self@.copies.take(0) =~= Seq::empty());
        while i < self.copies.len()
            invariant
                i <= self.copies.len(),
                texts(labels@) == failed_labels(self@.copies.take(i as int), copied@),
            decreases self.copies.len() - i,
        {
            let ghost before = labels@;
            assert(self@.copies.take(i + 1).drop_last() =~= self@.copies.take(i as int));
            if i < copied.len() && !copied[i] {
                labels.push(self.copies[i].label.clone());
                assert(texts(labels@) =~= texts(before).push(
                    self.copies[i as int].label@,
                ));
            }
            i += 1;
        }
        assert(self@.copies.take(i as int) =~= self@.copies);
        labels
    }
}

/// The runtimes that a filter can be written for.
#[derive(Debug, Clone, Copy, PartialEq, Eq)]
pub enum Runtime {
    Deno,
    Go,
    Node,
}

/// The runtime that the project configuration calls `name`, if it is one.
pub open spec fn runtime_named(name: Seq<char>) -> Option<Runtime> {
    if name == "deno"@ {
        Some(Runtime::Deno)
    } else if name == "go"@ {
        Some(Runtime::Go)
    } else if name == "nodejs"@ {
        Some(Runtime::Node)
    } else {
        None
    }
}

impl Runtime {
    /// The runtime that the project configuration calls `name`: `deno`, `go`
    /// or `nodejs`. Any other name is no runtime.
    pub fn parse(name: &str) -> (runtime: Option<Runtime>)
        ensures
            runtime == runtime_named(name@),
    {
        let name = name.to_owned();
        if name == "deno".to_owned() {
            Some(Runtime::Deno)
        } else if name == "go".to_owned() {
            Some(Runtime::Go)
        } else if name == "nodejs".to_owned() {
            Some(Runtime::Node)
        } else {
            None
        }
    }
}

/// One reusable transformation, as the project configuration declares it: the
/// runtime it is written for, the path of its entry script and the directory
/// that holds its sources.
#[derive(Debug, PartialEq, Eq)]
pub struct FilterDefinition {
    pub runtime: Runtime,
    pub script: String,
    pub filter_dir: String,
}

/// A filter ready to run: the adapter of its runtime.
#[derive(Debug, PartialEq, Eq)]
pub enum Filter {
    Deno(FilterDeno),
    Go(FilterGo),
    Node(FilterNode),
}

/// The mathematical content of a [`Filter`].
pub ghost enum FilterView {
    Deno { script: Seq<char> },
    Go { name: Seq<char>, script: Seq<char> },
    Node { filter_dir: Seq<char>, script: Seq<char> },
}

impl View for Filter {
    type V = FilterView;

    open spec fn view(&self) -> FilterView {
        match self {
            Filter::Deno(deno) => FilterView::Deno { script: deno.script@ },
            Filter::Go(go) => FilterView::Go { name: go.name@, script: go.script@ },
            Filter::Node(node) => FilterView::Node {
                filter_dir: node.filter_dir@,
                script: node.script@,
            },
        }
    }
}

/// The paths that must be looked up on disk before a filter is started.
#[derive(Debug, PartialEq, Eq)]
pub struct ProbeRequest {
    /// The filter's source directory, to be made absolute.
    pub filter_dir: String,
    /// The script to be made absolute, where the runtime wants one.
    pub script: Option<String>,
}

/// The adapter that runs the filter `filter_name` declared with runtime
/// `runtime`, script `script` and source directory `filter_dir`.
pub open spec fn adapter_for(
    runtime: Runtime,
    script: Seq<char>,
    filter_dir: Seq<char>,
    filter_name: Seq<char>,
) -> FilterView {
    match runtime {
        Runtime::Deno => FilterView::Deno { script },
        Runtime::Go => FilterView::Go { name: filter_name, script },
        Runtime::Node => FilterView::Node { filter_dir, script },
    }
}

/// The directory that is made absolute for the variable `FILTER_DIR` of a
/// filter whose context names the directory `context_dir`.
pub open spec fn probed_dir(filter: FilterView, context_dir: Seq<char>) -> Seq<char> {
    match filter {
        FilterView::Node { filter_dir, .. } => filter_dir,
        _ => context_dir,
    }
}

/// The script that is made absolute before a run: that of a Go filter, and
/// of no other.
pub open spec fn probed_script(filter: FilterView) -> Option<Seq<char>> {
    match filter {
        FilterView::Go { script, .. } => Some(script),
        _ => None,
    }
}

/// The plan of one run of `filter`, whatever its runtime, in the context of
/// the given name and source directory.
pub open spec fn run_plan(
    filter: FilterView,
    context_name: Seq<char>,
    context_dir: Seq<char>,
    temp: Seq<char>,
    run_args: Seq<Seq<char>>,
    probe: Probe,
) -> Result<InvocationView, ErrorView> {
    match filter {
        FilterView::Deno { script } => deno_run_plan(
            context_name,
            context_dir,
            script,
            temp,
            run_args,
            probe,
        ),
        FilterView::Go { name, script } => go_run_plan(name, script, temp, run_args, probe),
        FilterView::Node { script, .. } => node_run_plan(
            context_name,
            script,
            temp,
            run_args,
            probe,
        ),
    }
}

/// The command that fetches what `filter` depends on, where its runtime has
/// such a command.
pub open spec fn install_command(filter: FilterView, context_dir: Seq<char>, windows: bool)
    -> Option<CommandView> {
    match filter {
        FilterView::Deno { .. } => None,
        FilterView::Go { .. } => Some(go_install_command(context_dir)),
        FilterView::Node { filter_dir, .. } => Some(node_install_command(filter_dir, windows)),
    }
}

/// The outcome of the installation of the dependencies of `filter_name`: a
/// command that could not be run is a failed installation of that filter,
/// caused by the subprocess error; a command that ran is a success.
pub open spec fn install_outcome(filter_name: Seq<char>, launch: Result<Output, String>)
    -> Result<(), ErrorView> {
    match launch {
        Ok(_) => Ok(()),
        Err(message) => Err(
            ErrorView::DependencyInstallFailed {
                filter_name,
                cause: Box::new(launch_failure(message@)),
            },
        ),
    }
}

/// The script of a definition as its runtime wants it: for Deno the name of
/// the script within the filter's source directory, for every other runtime
/// the path of the script as the configuration gives it.
pub open spec fn script_for(runtime: Runtime, script_path: Seq<char>, script_name: Seq<char>)
    -> Seq<char> {
    match runtime {
        Runtime::Deno => script_name,
        _ => script_path,
    }
}

impl FilterDefinition {
    /// The definition of a filter of the project whose script is configured
    /// as `script_path`, that is the file `script_name` of the directory
    /// `script_dir`. That directory is the filter's source directory.
    pub fn from_parts(runtime: Runtime, script_path: String, script_dir: String, script_name: String)
        -> (definition: Self)
        ensures
            definition.runtime == runtime,
            definition.script@ == script_for(runtime, script_path@, script_name@),
            definition.filter_dir@ == script_dir@,
    {
        let script = match runtime {
            Runtime::Deno => script_name,
            _ => script_path,
        };
        FilterDefinition { runtime, script, filter_dir: script_dir }
    }

    /// The adapter that runs this definition under the name `filter_name`.
    pub fn to_filter(&self, filter_name: &str) -> (filter: Filter)
        ensures
            filter@ == adapter_for(self.runtime, self.script@, self.filter_dir@, filter_name@),
    {
        match self.runtime {
            Runtime::Deno => Filter::Deno(FilterDeno { script: self.script.clone() }),
            Runtime::Go => Filter::Go(FilterGo::new(filter_name, self.script.as_str())),
            Runtime::Node => Filter::Node(
                FilterNode::new(self.filter_dir.clone(), self.script.clone()),
            ),
        }
    }

    /// The name and source directory that this definition runs with under
    /// the name `filter_name`.
    pub fn context(&self, filter_name: &str) -> (context: FilterContext)
        ensures
            context.name@ == filter_name@,
            context.dir@ == self.filter_dir@,
    {
        FilterContext { name: filter_name.to_owned(), dir: self.filter_dir.clone() }
    }
}

impl Filter {
    /// The paths to look up on disk before this filter is started.
    pub fn probe_request(&self, context: &FilterContext) -> (request: ProbeRequest)
        ensures
            request.filter_dir@ == probed_dir(self@, context.dir@),
            match request.script {
                Some(script) => probed_script(self@) == Some(script@),
                None => probed_script(self@) is None,
            },
    {
        match self {
            Filter::Deno(_) => ProbeRequest { filter_dir: context.dir.clone(), script: None },
            Filter::Go(go) => ProbeRequest {
                filter_dir: context.dir.clone(),
                script: Some(go.script.clone()),
            },
            Filter::Node(node) => ProbeRequest { filter_dir: node.filter_dir.clone(), script: None },
        }
    }

    /// Plans one run of this filter in the working directory `temp`, with
    /// `run_args` after the script, given what `probe` found on disk.
    pub fn run(
        &self,
        context: &FilterContext,
        temp: &str,
        run_args: &Vec<String>,
        probe: Probe,
    ) -> (plan: RglResult<Invocation>)
        ensures
            plan_view(plan) == run_plan(
                self@,
                context.name@,
                context.dir@,
                temp@,
                texts(run_args@),
                probe,
            ),
    {
        match self {
            Filter::Deno(deno) => deno.run(context, temp, run_args, probe),
            Filter::Go(go) => go.run(temp, run_args, probe),
            Filter::Node(node) => node.run(context.name.as_str(), temp, run_args, probe),
        }
    }

    /// The command that fetches what this filter depends on, to be launched
    /// once, with its output captured, before the filter is first run.
    pub fn install_dependencies(&self, context: &FilterContext, windows: bool) -> (command: Option<
        Subprocess,
    >)
        ensures
            match command {
                Some(process) => install_command(self@, context.dir@, windows) == Some(process@),
                None => install_command(self@, context.dir@, windows) is None,
            },
    {
        match self {
            Filter::Deno(_) => None,
            Filter::Go(go) => Some(go.install_dependencies(context.dir.as_str())),
            Filter::Node(node) => Some(node.install_dependencies(windows)),
        }
    }
}

/// The outcome of the installation of the dependencies of `filter_name`,
/// given how the launch of `process` went.
pub fn finish_install(filter_name: &str, process: &Subprocess, launch: Result<Output, String>)
    -> (done: RglResult<()>)
    ensures
        outcome_view(done) == install_outcome(filter_name@, launch),
{
    match process.run_silent(launch) {
        Ok(_) => Ok(()),
        Err(cause) => Err(
            RglError::DependencyInstallFailed {
                filter_name: filter_name.to_owned(),
                cause: Box::new(cause),
            },
        ),
    }
}

} // verus!
