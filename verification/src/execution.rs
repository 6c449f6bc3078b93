//! The run of a profile, one decision at a time.
//!
//! A run never starts a program. It says what to do next ([`Action`]), is
//! told how a filter went, and goes on from there. Between two filters it
//! holds the steps that are still to come: those of the profile that is
//! being expanded, then those of the profile that referred to it, and so on.

use crate::context::RunContext;
use crate::error::{ErrorView, RglError, RglResult};
use crate::filter::{adapter_for, Filter, FilterContext, FilterView};
use crate::json::{json_error_message, settings_to_json};
use crate::profile::{FilterRunner, Profile};
use crate::text::{append_texts, texts};
use std::collections::HashMap;
use vstd::prelude::*;

verus! {

/// One filter to run now.
#[derive(Debug, PartialEq, Eq)]
pub struct FilterJob {
    pub filter_name: String,
    /// The adapter to run the filter with.
    pub filter: Filter,
    /// The name and source directory of the filter.
    pub context: FilterContext,
    /// The arguments that follow the script on the command line.
    pub run_args: Vec<String>,
    /// The working directory of the run.
    pub temp: String,
}

/// What the caller of a run is to do next.
#[derive(Debug, PartialEq, Eq)]
pub enum Action {
    /// Run this filter, then report how it went.
    RunFilter(FilterJob),
    /// Nothing: the run has entered the nested profile of this name.
    EnterProfile { profile_name: String },
    /// Nothing more: every step has been run.
    Finished,
    /// Nothing more: the run has failed with this error.
    Failed(RglError),
}

/// The mathematical content of a [`FilterJob`].
pub ghost struct JobView {
    pub filter_name: Seq<char>,
    pub filter: FilterView,
    pub context_name: Seq<char>,
    pub context_dir: Seq<char>,
    pub run_args: Seq<Seq<char>>,
    pub temp: Seq<char>,
}

/// The mathematical content of an [`Action`].
pub ghost enum ActionView {
    RunFilter(JobView),
    EnterProfile { profile_name: Seq<char> },
    Finished,
    Failed(ErrorView),
}

impl View for FilterJob {
    type V = JobView;

    open spec fn view(&self) -> JobView {
        JobView {
            filter_name: self.filter_name@,
            filter: self.filter@,
            context_name: self.context.name@,
            context_dir: self.context.dir@,
            run_args: texts(self.run_args@),
            temp: self.temp@,
        }
    }
}

impl View for Action {
    type V = ActionView;

    open spec fn view(&self) -> ActionView {
        match self {
            Action::RunFilter(job) => ActionView::RunFilter(job@),
            Action::EnterProfile { profile_name } => ActionView::EnterProfile {
                profile_name: profile_name@,
            },
            Action::Finished => ActionView::Finished,
            Action::Failed(error) => ActionView::Failed(error@),
        }
    }
}

/// Where a run stands.
pub ghost enum Status {
    /// The next step can be taken.
    Ready,
    /// The filter of this name is running; the run waits for its result.
    Running { filter_name: Seq<char> },
    /// Every step has been run.
    Finished,
    /// The run has failed.
    Failed,
}

/// The mathematical content of a run: the profile it was asked for, its
/// working directory, the steps still to come, in order, and where it stands.
pub ghost struct RunView {
    pub root: Seq<char>,
    pub temp: Seq<char>,
    pub pending: Seq<FilterRunner>,
    pub status: Status,
}

/// The arguments of a filter as sequences of characters.
pub open spec fn arguments_view(arguments: Option<Vec<String>>) -> Option<Seq<Seq<char>>> {
    match arguments {
        Some(list) => Some(texts(list@)),
        None => None,
    }
}

/// The arguments that a filter is run with: its settings as one JSON text,
/// where it has settings, then its own arguments in the order in which they
/// are declared.
pub open spec fn run_args(serialized: Option<Seq<char>>, arguments: Option<Seq<Seq<char>>>) -> Seq<
    Seq<char>,
> {
    let first = match serialized {
        Some(json) => seq![json],
        None => Seq::empty(),
    };
    let rest = match arguments {
        Some(list) => list,
        None => Seq::empty(),
    };
    first + rest
}

/// Builds the arguments that a filter is run with from its serialized
/// settings and its own arguments.
pub fn build_run_args(serialized: Option<String>, arguments: &Option<Vec<String>>) -> (args: Vec<
    String,
>)
    ensures
        texts(args@) == run_args(
            match serialized {
                Some(json) => Some(json@),
                None => None,
            },
            arguments_view(*arguments),
        ),
{
    let mut args: Vec<String> = Vec::new();
    assert(texts(args@) =~= Seq::empty());
    if let Some(json) = serialized {
        args.push(json);
        assert(texts(args@) =~= seq![json@]);
    }
    if let Some(list) = arguments {
        append_texts(&mut args, list);
    } else {
        assert(texts(args@) + Seq::<Seq<char>>::empty() =~= texts(args@));
    }
    args
}

/// What the encoder made of the settings of a step: nothing where the step
/// has no settings, else the text or the message of the failure.
pub open spec fn encoded(
    settings: Option<HashMap<String, serde_json::Value>>,
    serialized: Option<Result<Seq<char>, Seq<char>>>,
) -> Result<Option<Seq<char>>, Seq<char>> {
    match settings {
        None => Ok(None),
        Some(_) => match serialized {
            Some(Ok(json)) => Ok(Some(json)),
            Some(Err(message)) => Err(message),
            None => Ok(None),
        },
    }
}

/// Whether `serialized` answers what the next step of `pending` asks of the
/// encoder: a step with settings must come with their encoding.
pub open spec fn answers(
    pending: Seq<FilterRunner>,
    serialized: Option<Result<Seq<char>, Seq<char>>>,
) -> bool {
    pending.len() > 0 ==> (pending[0] matches FilterRunner::Filter { settings: Some(_), .. }
        ==> serialized is Some)
}

/// One step of a run that is ready: the state after it and what the caller
/// is to do.
///
/// With no step left the run is finished. A filter step fails the run where
/// the context does not know the filter, or where the settings could not be
/// encoded; else the filter is to be run, with its settings and arguments,
/// in the working directory of the run. A step that names the profile the
/// run was asked for fails the run as circular; one that names an unknown
/// profile fails it too; any other puts the steps of that profile before
/// those that are left.
pub open spec fn advance_spec(
    context: RunContext,
    run: RunView,
    serialized: Option<Result<Seq<char>, Seq<char>>>,
) -> (RunView, ActionView) {
    if run.pending.len() == 0 {
        (RunView { status: Status::Finished, ..run }, ActionView::Finished)
    } else {
        let rest = run.pending.skip(1);
        match run.pending[0] {
            FilterRunner::Filter { filter_name, arguments, settings } => {
                if !context.filters().contains_key(filter_name@) {
                    (
                        RunView { status: Status::Failed, pending: rest, ..run },
                        ActionView::Failed(ErrorView::UnknownFilter { filter_name: filter_name@ }),
                    )
                } else {
                    match encoded(settings, serialized) {
                        Err(message) => (
                            RunView { status: Status::Failed, pending: rest, ..run },
                            ActionView::Failed(ErrorView::Wrap { message }),
                        ),
                        Ok(json) => {
                            let definition = context.filters()[filter_name@];
                            (
                                RunView {
                                    status: Status::Running { filter_name: filter_name@ },
                                    pending: rest,
                                    ..run
                                },
                                ActionView::RunFilter(
                                    JobView {
                                        filter_name: filter_name@,
                                        filter: adapter_for(
                                            definition.runtime,
                                            definition.script@,
                                            definition.filter_dir@,
                                            filter_name@,
                                        ),
                                        context_name: filter_name@,
                                        context_dir: definition.filter_dir@,
                                        run_args: run_args(json, arguments_view(arguments)),
                                        temp: run.temp,
                                    },
                                ),
                            )
                        },
                    }
                }
            },
            FilterRunner::ProfileFilter { profile_name } => {
                if profile_name@ == run.root {
                    (
                        RunView { status: Status::Failed, pending: rest, ..run },
                        ActionView::Failed(
                            ErrorView::CircularProfileReference { profile_name: profile_name@ },
                        ),
                    )
                } else if !context.known_profiles().contains_key(profile_name@) {
                    (
                        RunView { status: Status::Failed, pending: rest, ..run },
                        ActionView::Failed(
                            ErrorView::UnknownProfile { profile_name: profile_name@ },
                        ),
                    )
                } else {
                    (
                        RunView {
                            pending: context.known_profiles()[profile_name@].filters@ + rest,
                            ..run
                        },
                        ActionView::EnterProfile { profile_name: profile_name@ },
                    )
                }
            },
        }
    }
}

/// The state of a run after the filter it waits for has reported `result`,
/// and what the run then reports: a success readies the next step, a failure
/// fails the run with the error of the filter wrapped under its name.
pub open spec fn complete_spec(run: RunView, result: RglResult<()>) -> (RunView, Result<
    (),
    ErrorView,
>) {
    match result {
        Ok(_) => (RunView { status: Status::Ready, ..run }, Ok(())),
        Err(cause) => (
            RunView { status: Status::Failed, ..run },
            Err(
                ErrorView::FilterFailed {
                    filter_name: run.status->filter_name,
                    cause: Box::new(cause@),
                },
            ),
        ),
    }
}

/// The encoding of settings, or the message of the failure, as sequences of
/// characters.
pub open spec fn serialized_view(serialized: Option<Result<String, String>>) -> Option<
    Result<Seq<char>, Seq<char>>,
> {
    match serialized {
        Some(Ok(json)) => Some(Ok(json@)),
        Some(Err(message)) => Some(Err(message@)),
        None => None,
    }
}

/// The steps of one profile of which some are done.
struct Frame<'a> {
    steps: &'a Vec<FilterRunner>,
    next: usize,
}

/// Where a run stands, as it is stored.
enum Stage {
    Ready,
    Running { filter_name: String },
    Finished,
    Failed,
}

/// The run of a profile.
pub struct Execution<'a> {
    context: &'a RunContext,
    root: String,
    temp: String,
    /// The profiles being expanded, the innermost last.
    stack: Vec<Frame<'a>>,
    stage: Stage,
}

/// The steps of `frame` that are still to come.
spec fn remaining(frame: Frame) -> Seq<FilterRunner> {
    if frame.next <= frame.steps@.len() {
        frame.steps@.skip(frame.next as int)
    } else {
        Seq::empty()
    }
}

/// The steps of all of `stack` that are still to come, those of the
/// innermost profile first.
spec fn flatten(stack: Seq<Frame>) -> Seq<FilterRunner>
    decreases stack.len(),
{
    if stack.len() == 0 {
        Seq::empty()
    } else {
        remaining(stack.last()) + flatten(stack.drop_last())
    }
}

/// Whether the innermost profile of `stack` has a step left.
spec fn top_unfinished(stack: Seq<Frame>) -> bool {
    stack.last().next < stack.last().steps@.len()
}

impl<'a> Execution<'a> {
    /// The context that the run looks filters and profiles up in.
    pub closed spec fn context(&self) -> RunContext {
        *self.context
    }

    /// The content of the run. The context that it looks names up in is not
    /// part of it: [`Execution::context`] gives that.
    pub closed spec fn view(&self) -> RunView {
        RunView {
            root: self.root@,
            temp: self.temp@,
            pending: flatten(self.stack@),
            status: match self.stage {
                Stage::Ready => Status::Ready,
                Stage::Running { filter_name } => Status::Running { filter_name: filter_name@ },
                Stage::Finished => Status::Finished,
                Stage::Failed => Status::Failed,
            },
        }
    }

    /// A run of `profile` in the working directory `temp`, before its first
    /// step.
    pub fn start(profile: &'a Profile, context: &'a RunContext, temp: &str) -> (run: Self)
        ensures
            run.context() == *context,
            run@ == (RunView {
                root: context.root(),
                temp: temp@,
                pending: profile.filters@,
                status: Status::Ready,
            }),
    {
        let mut stack: Vec<Frame<'a>> = Vec::new();
        stack.push(Frame { steps: &profile.filters, next: 0 });
        assert(flatten(stack@) =~= profile.filters@) by {
            assert(stack@.drop_last() =~= Seq::empty());
            assert(flatten(stack@.drop_last()) =~= Seq::empty());
        }
        Execution {
            context,
            root: context.root_profile().clone(),
            temp: temp.to_owned(),
            stack,
            stage: Stage::Ready,
        }
    }

    /// Whether the next step can be taken.
    pub fn is_ready(&self) -> (ready: bool)
        ensures
            ready == (self@.status is Ready),
    {
        match self.stage {
            Stage::Ready => true,
            _ => false,
        }
    }

    /// Drops the profiles that have no step left, the innermost first.
    fn leave_finished(&mut self)
        ensures
            final(self)@ == old(self)@,
            final(self).context() == old(self).context(),
            final(self).stack@.len() > 0 ==> top_unfinished(final(self).stack@),
    {
        loop
            invariant
                self@ == old(self)@,
                self.context() == old(self).context(),
            ensures
                self.stack@.len() > 0 ==> top_unfinished(self.stack@),
            decreases self.stack@.len(),
        {
            let depth = self.stack.len();
            if depth == 0 {
                break ;
            }
            let top = &self.stack[depth - 1];
            if top.next < top.steps.len() {
                break ;
            }
            proof {
                assert(remaining(self.stack@.last()) =~= Seq::empty());
                assert(flatten(self.stack@) =~= flatten(self.stack@.drop_last()));
            }
            let ghost before = self.stack@;
            self.stack.pop();
            assert(self.stack@ =~= before.drop_last());
        }
    }

    /// The settings of the next step, where it is a filter with settings.
    pub fn next_settings(&self) -> (settings: Option<&'a HashMap<String, serde_json::Value>>)
        ensures
            settings is Some <==> self@.pending.len() > 0 && (self@.pending[0] matches FilterRunner::Filter {
                settings: Some(_),
                ..
            }),
            settings matches Some(map) ==> (self@.pending[0] matches FilterRunner::Filter {
                settings: Some(own),
                ..
            } && own == *map),
    {
        let mut depth = self.stack.len();
        assert(self.stack@.take(depth as int) =~= self.stack@);
        while depth > 0
            invariant
                depth <= self.stack@.len(),
                flatten(self.stack@.take(depth as int)) == flatten(self.stack@),
            decreases depth,
        {
            let top = &self.stack[depth - 1];
            let ghost frames = self.stack@.take(depth as int);
            assert(frames.last() == self.stack@[depth - 1]);
            if top.next < top.steps.len() {
                assert(flatten(frames)[0] == top.steps@[top.next as int]);
                return match &top.steps[top.next] {
                    FilterRunner::Filter { settings: Some(map), .. } => Some(map),
                    _ => None,
                };
            }
            assert(remaining(frames.last()) =~= Seq::empty());
            assert(frames.drop_last() =~= self.stack@.take(depth - 1));
            assert(flatten(frames) =~= flatten(frames.drop_last()));
            depth -= 1;
        }
        assert(self.stack@.take(0) =~= Seq::empty());
        None
    }

    /// Takes the next step of the run, with the settings of that step
    /// serialized by the caller: their JSON text, or the message of the
    /// failure to encode them.
    pub fn advance_with(&mut self, serialized: Option<Result<String, String>>) -> (action: Action)
        requires
            old(self)@.status is Ready,
            answers(old(self)@.pending, serialized_view(serialized)),
        ensures
            final(self).context() == old(self).context(),
            (final(self)@, action@) == advance_spec(
                old(self).context(),
                old(self)@,
                serialized_view(serialized),
            ),
    {
        self.leave_finished();
        let depth = self.stack.len();
        if depth == 0 {
            self.stage = Stage::Finished;
            return Action::Finished;
        }
        let ghost before = self.stack@;
        let ghost pending = self@.pending;
        assert(top_unfinished(before));
        let top = self.stack.pop().unwrap();
        assert(top == before.last());
        let count = top.steps.len();
        assert(top.next < count);
        let step = &top.steps[top.next];
        self.stack.push(Frame { steps: top.steps, next: top.next + 1 });
        proof {
            assert(self.stack@.drop_last() =~= before.drop_last());
            assert(remaining(self.stack@.last()) =~= remaining(before.last()).skip(1));
            assert(pending[0] == *step);
            assert(flatten(self.stack@) =~= pending.skip(1));
        }
        match step {
            FilterRunner::Filter { filter_name, arguments, settings } => {
                let definition = match self.context.get_filter_def(filter_name.as_str()) {
                    Ok(definition) => definition,
                    Err(error) => {
                        self.stage = Stage::Failed;
                        return Action::Failed(error);
                    },
                };
                let json = match settings {
                    None => None,
                    Some(_) => match serialized {
                        Some(Ok(json)) => Some(json),
                        Some(Err(message)) => {
                            self.stage = Stage::Failed;
                            return Action::Failed(RglError::Wrap { message });
                        },
                        None => None,
                    },
                };
                let job = FilterJob {
                    filter_name: filter_name.clone(),
                    filter: definition.to_filter(filter_name.as_str()),
                    context: definition.context(filter_name.as_str()),
                    run_args: build_run_args(json, arguments),
                    temp: self.temp.clone(),
                };
                self.stage = Stage::Running { filter_name: filter_name.clone() };
                Action::RunFilter(job)
            },
            FilterRunner::ProfileFilter { profile_name } => {
                if *profile_name == self.root {
                    self.stage = Stage::Failed;
                    return Action::Failed(
                        RglError::CircularProfileReference { profile_name: profile_name.clone() },
                    );
                }
                let profile = match self.context.get_profile(profile_name.as_str()) {
                    Ok(profile) => profile,
                    Err(error) => {
                        self.stage = Stage::Failed;
                        return Action::Failed(error);
                    },
                };
                let ghost outer = self.stack@;
                self.stack.push(Frame { steps: &profile.filters, next: 0 });
                proof {
                    assert(self.stack@.drop_last() =~= outer);
                    assert(remaining(self.stack@.last()) =~= profile.filters@);
                }
                Action::EnterProfile { profile_name: profile_name.clone() }
            },
        }
    }

    /// Takes the next step of the run. The settings of a filter are encoded
    /// as JSON on the way, and the step is the one that `advance_spec` gives
    /// for their text; which text the encoder writes is all that this call
    /// leaves open.
    pub fn advance(&mut self) -> (action: Action)
        requires
            old(self)@.status is Ready,
        ensures
            final(self).context() == old(self).context(),
            exists|json: Seq<char>|
                (final(self)@, action@) == #[trigger] advance_spec(
                    old(self).context(),
                    old(self)@,
                    Some(Ok(json)),
                ),
    {
        let serialized = match self.next_settings() {
            None => None,
            Some(settings) => match settings_to_json(settings) {
                Ok(json) => Some(Ok(json)),
                Err(error) => Some(Err(json_error_message(&error))),
            },
        };
        proof {
            let json = match serialized_view(serialized) {
                Some(Ok(json)) => json,
                _ => Seq::empty(),
            };
            assert(advance_spec(self.context(), self@, serialized_view(serialized))
                == advance_spec(self.context(), self@, Some(Ok(json))));
        }
        self.advance_with(serialized)
    }

    /// Tells the run how the filter it waits for went. An error fails the
    /// run and comes back wrapped under the name of the filter.
    pub fn complete(&mut self, result: RglResult<()>) -> (outcome: RglResult<()>)
        requires
            old(self)@.status is Running,
        ensures
            final(self).context() == old(self).context(),
            (final(self)@, crate::filter::outcome_view(outcome)) == complete_spec(old(self)@, result),
    {
        match result {
            Ok(_) => {
                self.stage = Stage::Ready;
                Ok(())
            },
            Err(cause) => {
                let filter_name = match &self.stage {
                    Stage::Running { filter_name } => filter_name.clone(),
                    _ => String::new(),
                };
                self.stage = Stage::Failed;
                Err(RglError::FilterFailed { filter_name, cause: Box::new(cause) })
            },
        }
    }

    /// Whether the run waits for the result of a filter.
    pub fn is_running(&self) -> (running: bool)
        ensures
            running == (self@.status is Running),
    {
        match self.stage {
            Stage::Running { .. } => true,
            _ => false,
        }
    }
}

} // verus!
