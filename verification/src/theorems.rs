//! What holds of every run and of every profile, proved from the definitions
//! that the contracts of this crate are stated with.

use crate::context::RunContext;
use crate::error::ErrorView;
use crate::execution::{
    advance_spec, arguments_view, complete_spec, run_args, ActionView, RunView, Status,
};
use crate::filter::{adapter_for, run_outcome, run_plan, Probe, Runtime};
use crate::profile::{export_paths, ExportPathsView, FilterRunner};
use crate::subprocess::{Launch, Output};
use vstd::prelude::*;

verus! {

/// The run `run` with `pending` as the steps still to come.
pub open spec fn with_pending(run: RunView, pending: Seq<FilterRunner>) -> RunView {
    RunView { pending, ..run }
}

/// Where a run gets to by itself: the state and the action of the first step
/// that is not the entry into a nested profile, within `fuel` entries.
pub open spec fn settle(
    context: RunContext,
    run: RunView,
    serialized: Option<Result<Seq<char>, Seq<char>>>,
    fuel: nat,
) -> (RunView, ActionView)
    decreases fuel,
{
    let next = advance_spec(context, run, serialized);
    if fuel > 0 && next.1 is EnterProfile {
        settle(context, next.0, serialized, (fuel - 1) as nat)
    } else {
        next
    }
}

/// Whether the run of `steps` comes to its end without a filter and without
/// a failure: every step is a nested profile, known, other than `root`, and
/// quiet in turn, `depth` bounding how deep the profiles nest.
pub open spec fn quiet(context: RunContext, root: Seq<char>, steps: Seq<FilterRunner>, depth: nat)
    -> bool
    decreases depth, steps.len(),
{
    if steps.len() == 0 {
        true
    } else {
        match steps[0] {
            FilterRunner::Filter { .. } => false,
            FilterRunner::ProfileFilter { profile_name } => {
                &&& profile_name@ != root
                &&& context.known_profiles().contains_key(profile_name@)
                &&& depth > 0
                &&& quiet(
                    context,
                    root,
                    context.known_profiles()[profile_name@].filters@,
                    (depth - 1) as nat,
                )
                &&& quiet(context, root, steps.skip(1), depth)
            },
        }
    }
}

/// How many nested profiles the run of the quiet `steps` enters.
pub open spec fn quiet_entries(context: RunContext, steps: Seq<FilterRunner>, depth: nat) -> nat
    decreases depth, steps.len(),
{
    if steps.len() == 0 || depth == 0 {
        0
    } else {
        match steps[0] {
            FilterRunner::Filter { .. } => 0,
            FilterRunner::ProfileFilter { profile_name } => 1 + quiet_entries(
                context,
                context.known_profiles()[profile_name@].filters@,
                (depth - 1) as nat,
            ) + quiet_entries(context, steps.skip(1), depth),
        }
    }
}

/// Whether the run of `steps` comes upon a reference to `root` before any
/// filter and any other failure: the first step names `root`, or a known
/// profile whose own run does, or a quiet profile after which the rest does.
pub open spec fn circular(
    context: RunContext,
    root: Seq<char>,
    steps: Seq<FilterRunner>,
    depth: nat,
) -> bool
    decreases depth, steps.len(),
{
    if steps.len() == 0 {
        false
    } else {
        match steps[0] {
            FilterRunner::Filter { .. } => false,
            FilterRunner::ProfileFilter { profile_name } => {
                ||| profile_name@ == root
                ||| {
                    &&& context.known_profiles().contains_key(profile_name@)
                    &&& depth > 0
                    &&& {
                        let inner = context.known_profiles()[profile_name@].filters@;
                        ||| circular(context, root, inner, (depth - 1) as nat)
                        ||| quiet(context, root, inner, (depth - 1) as nat) && circular(
                            context,
                            root,
                            steps.skip(1),
                            depth,
                        )
                    }
                }
            },
        }
    }
}

/// How many nested profiles the run of the circular `steps` enters before it
/// comes upon the reference to `root`.
pub open spec fn circular_entries(
    context: RunContext,
    root: Seq<char>,
    steps: Seq<FilterRunner>,
    depth: nat,
) -> nat
    decreases depth, steps.len(),
{
    if steps.len() == 0 {
        0
    } else {
        match steps[0] {
            FilterRunner::Filter { .. } => 0,
            FilterRunner::ProfileFilter { profile_name } => {
                if profile_name@ == root || depth == 0 {
                    0
                } else {
                    let inner = context.known_profiles()[profile_name@].filters@;
                    if circular(context, root, inner, (depth - 1) as nat) {
                        1 + circular_entries(context, root, inner, (depth - 1) as nat)
                    } else {
                        1 + quiet_entries(context, inner, (depth - 1) as nat) + circular_entries(
                            context,
                            root,
                            steps.skip(1),
                            depth,
                        )
                    }
                }
            },
        }
    }
}

/// A run passes through quiet steps without a filter and without a failure:
/// with `steps` quiet and `rest` after them, it gets to where it would get
/// from `rest` alone, entering `quiet_entries` profiles on the way.
pub proof fn quiet_steps_pass(
    context: RunContext,
    run: RunView,
    steps: Seq<FilterRunner>,
    rest: Seq<FilterRunner>,
    depth: nat,
    serialized: Option<Result<Seq<char>, Seq<char>>>,
    fuel: nat,
)
    requires
        quiet(context, run.root, steps, depth),
    ensures
        settle(
            context,
            with_pending(run, steps + rest),
            serialized,
            quiet_entries(context, steps, depth) + fuel,
        ) == settle(context, with_pending(run, rest), serialized, fuel),
    decreases depth, steps.len(),
{
    if steps.len() == 0 {
        assert(steps + rest =~= rest);
    } else {
        let profile_name = steps[0]->profile_name;
        let inner = context.known_profiles()[profile_name@].filters@;
        let tail = steps.skip(1);
        let inner_entries = quiet_entries(context, inner, (depth - 1) as nat);
        let tail_entries = quiet_entries(context, tail, depth);
        let start = with_pending(run, steps + rest);
        assert((steps + rest)[0] == steps[0]);
        assert((steps + rest).skip(1) =~= tail + rest);
        let entered = with_pending(run, inner + (tail + rest));
        assert(advance_spec(context, start, serialized) == (
            entered,
            ActionView::EnterProfile { profile_name: profile_name@ },
        ));
        assert(settle(context, start, serialized, 1 + inner_entries + tail_entries + fuel)
            == settle(context, entered, serialized, inner_entries + tail_entries + fuel));
        quiet_steps_pass(
            context,
            run,
            inner,
            tail + rest,
            (depth - 1) as nat,
            serialized,
            tail_entries + fuel,
        );
        quiet_steps_pass(context, run, tail, rest, depth, serialized, fuel);
    }
}

/// A run whose steps come upon a reference to the profile it was asked for,
/// before any filter and any other failure, fails as circular, and the
/// failure is the first thing it asks of its caller after entering nested
/// profiles: no filter is run.
pub proof fn circular_run_fails(
    context: RunContext,
    run: RunView,
    steps: Seq<FilterRunner>,
    rest: Seq<FilterRunner>,
    depth: nat,
    serialized: Option<Result<Seq<char>, Seq<char>>>,
)
    requires
        circular(context, run.root, steps, depth),
    ensures
        ({
            let end = settle(
                context,
                with_pending(run, steps + rest),
                serialized,
                circular_entries(context, run.root, steps, depth),
            );
            &&& end.0.status is Failed
            &&& end.1 == ActionView::Failed(
                ErrorView::CircularProfileReference { profile_name: run.root },
            )
        }),
    decreases depth, steps.len(),
{
    let profile_name = steps[0]->profile_name;
    let tail = steps.skip(1);
    let start = with_pending(run, steps + rest);
    assert((steps + rest)[0] == steps[0]);
    assert((steps + rest).skip(1) =~= tail + rest);
    if profile_name@ == run.root {
    } else {
        let inner = context.known_profiles()[profile_name@].filters@;
        let entered = with_pending(run, inner + (tail + rest));
        assert(advance_spec(context, start, serialized) == (
            entered,
            ActionView::EnterProfile { profile_name: profile_name@ },
        ));
        if circular(context, run.root, inner, (depth - 1) as nat) {
            circular_run_fails(context, run, inner, tail + rest, (depth - 1) as nat, serialized);
        } else {
            let tail_entries = circular_entries(context, run.root, tail, depth);
            quiet_steps_pass(
                context,
                run,
                inner,
                tail + rest,
                (depth - 1) as nat,
                serialized,
                tail_entries,
            );
            circular_run_fails(context, run, tail, rest, depth, serialized);
        }
    }
}

/// Steps that are quiet within some depth are quiet within every greater one.
pub proof fn quiet_within_greater_depth(
    context: RunContext,
    root: Seq<char>,
    steps: Seq<FilterRunner>,
    depth: nat,
    more: nat,
)
    requires
        quiet(context, root, steps, depth),
    ensures
        quiet(context, root, steps, depth + more),
    decreases depth, steps.len(),
{
    if steps.len() > 0 {
        let inner = context.known_profiles()[steps[0]->profile_name@].filters@;
        quiet_within_greater_depth(context, root, inner, (depth - 1) as nat, more);
        quiet_within_greater_depth(context, root, steps.skip(1), depth, more);
        assert((depth + more - 1) as nat == (depth - 1) as nat + more);
    }
}

/// Steps that are circular within some depth are circular within every
/// greater one.
pub proof fn circular_within_greater_depth(
    context: RunContext,
    root: Seq<char>,
    steps: Seq<FilterRunner>,
    depth: nat,
    more: nat,
)
    requires
        circular(context, root, steps, depth),
    ensures
        circular(context, root, steps, depth + more),
    decreases depth, steps.len(),
{
    let profile_name = steps[0]->profile_name;
    if profile_name@ != root {
        let inner = context.known_profiles()[profile_name@].filters@;
        assert((depth + more - 1) as nat == (depth - 1) as nat + more);
        if circular(context, root, inner, (depth - 1) as nat) {
            circular_within_greater_depth(context, root, inner, (depth - 1) as nat, more);
        } else {
            quiet_within_greater_depth(context, root, inner, (depth - 1) as nat, more);
            circular_within_greater_depth(context, root, steps.skip(1), depth, more);
        }
    }
}

/// Where steps followed by others are circular, the first are circular, or
/// they are quiet and the others are circular.
pub proof fn circular_steps_split(
    context: RunContext,
    root: Seq<char>,
    steps: Seq<FilterRunner>,
    rest: Seq<FilterRunner>,
    depth: nat,
)
    requires
        circular(context, root, steps + rest, depth),
    ensures
        circular(context, root, steps, depth) || (quiet(context, root, steps, depth) && circular(
            context,
            root,
            rest,
            depth,
        )),
    decreases steps.len(),
{
    if steps.len() == 0 {
        assert(steps + rest =~= rest);
    } else {
        assert((steps + rest)[0] == steps[0]);
        assert((steps + rest).skip(1) =~= steps.skip(1) + rest);
        let profile_name = steps[0]->profile_name;
        if profile_name@ != root {
            let inner = context.known_profiles()[profile_name@].filters@;
            if !circular(context, root, inner, (depth - 1) as nat) {
                circular_steps_split(context, root, steps.skip(1), rest, depth);
            }
        }
    }
}

/// A run that fails as circular before it asks for any filter has circular
/// steps before it: no other steps end so.
pub proof fn only_circular_steps_fail_so(
    context: RunContext,
    run: RunView,
    serialized: Option<Result<Seq<char>, Seq<char>>>,
    fuel: nat,
) -> (depth: nat)
    requires
        settle(context, run, serialized, fuel).1 == ActionView::Failed(
            ErrorView::CircularProfileReference { profile_name: run.root },
        ),
    ensures
        circular(context, run.root, run.pending, depth),
    decreases fuel,
{
    let next = advance_spec(context, run, serialized);
    if next.1 is EnterProfile {
        let profile_name = run.pending[0]->profile_name;
        let inner = context.known_profiles()[profile_name@].filters@;
        let rest = run.pending.skip(1);
        assert(next.0 == with_pending(run, inner + rest));
        let below = only_circular_steps_fail_so(context, next.0, serialized, (fuel - 1) as nat);
        circular_steps_split(context, run.root, inner, rest, below);
        if !circular(context, run.root, inner, below) {
            circular_within_greater_depth(context, run.root, rest, below, 1);
        }
        below + 1
    } else {
        0
    }
}

/// The steps of a profile that lead up to and include a reference, at the
/// top level, to the profile that the run was asked for are circular, where
/// the steps before that reference are quiet.
pub proof fn reference_after_quiet_steps_is_circular(
    context: RunContext,
    root: Seq<char>,
    steps: Seq<FilterRunner>,
    at: int,
    depth: nat,
)
    requires
        0 <= at < steps.len(),
        steps[at] matches FilterRunner::ProfileFilter { profile_name } && profile_name@ == root,
        quiet(context, root, steps.take(at), depth),
    ensures
        circular(context, root, steps.take(at + 1), depth),
    decreases at,
{
    let upto = steps.take(at + 1);
    assert(upto[0] == steps[0]);
    if at > 0 {
        let before = steps.take(at);
        assert(before[0] == steps[0]);
        assert(before.skip(1) =~= steps.skip(1).take(at - 1));
        assert(upto.skip(1) =~= steps.skip(1).take(at));
        reference_after_quiet_steps_is_circular(context, root, steps.skip(1), at - 1, depth);
    }
}

/// A profile that refers to itself at the top level fails its own run as
/// circular, without running a filter, where the run gets as far as that
/// reference or comes upon an earlier one: where the steps up to and
/// including the reference are circular.
pub proof fn self_reference_fails_the_run(
    context: RunContext,
    run: RunView,
    at: int,
    depth: nat,
    serialized: Option<Result<Seq<char>, Seq<char>>>,
)
    requires
        0 <= at < run.pending.len(),
        run.pending[at] matches FilterRunner::ProfileFilter { profile_name } && profile_name@
            == run.root,
        circular(context, run.root, run.pending.take(at + 1), depth),
    ensures
        exists|fuel: nat|
            {
                let end = #[trigger] settle(context, run, serialized, fuel);
                &&& end.0.status is Failed
                &&& end.1 == ActionView::Failed(
                    ErrorView::CircularProfileReference { profile_name: run.root },
                )
            },
{
    let steps = run.pending.take(at + 1);
    let rest = run.pending.skip(at + 1);
    assert(steps + rest =~= run.pending);
    assert(with_pending(run, steps + rest) == run);
    circular_run_fails(context, run, steps, rest, depth, serialized);
    let fuel = circular_entries(context, run.root, steps, depth);
    let end = settle(context, run, serialized, fuel);
    assert(end.0.status is Failed);
}

/// A profile whose first step refers to the profile that the run was asked
/// for fails the run at once.
pub proof fn leading_self_reference_fails_at_once(
    context: RunContext,
    run: RunView,
    serialized: Option<Result<Seq<char>, Seq<char>>>,
)
    requires
        run.pending.len() > 0,
        run.pending[0] matches FilterRunner::ProfileFilter { profile_name } && profile_name@
            == run.root,
    ensures
        advance_spec(context, run, serialized).0.status is Failed,
        advance_spec(context, run, serialized).1 == ActionView::Failed(
            ErrorView::CircularProfileReference { profile_name: run.root },
        ),
{
}

/// A filter step whose filter the context does not know fails the run with
/// the error that names the filter. The run is then failed for good: the
/// steps after it are never taken, so no program is started for them.
pub proof fn unknown_filter_fails_the_run(
    context: RunContext,
    run: RunView,
    serialized: Option<Result<Seq<char>, Seq<char>>>,
)
    requires
        run.pending.len() > 0,
        run.pending[0] matches FilterRunner::Filter { filter_name, .. }
            && !context.filters().contains_key(filter_name@),
    ensures
        advance_spec(context, run, serialized).0.status is Failed,
        advance_spec(context, run, serialized).1 == ActionView::Failed(
            ErrorView::UnknownFilter { filter_name: run.pending[0]->filter_name@ },
        ),
{
}

/// A filter that reports an error fails the run: whatever steps are left,
/// the run is not ready for them.
pub proof fn failed_filter_fails_the_run(run: RunView, cause: crate::error::RglError)
    requires
        run.status is Running,
    ensures
        complete_spec(run, Err(cause)).0.status is Failed,
        complete_spec(run, Err(cause)).1 == Err::<(), ErrorView>(
            ErrorView::FilterFailed {
                filter_name: run.status->filter_name,
                cause: Box::new(cause@),
            },
        ),
{
}

/// A filter with settings and arguments is run with the JSON text of the
/// settings first and the arguments after it, in the order in which they are
/// declared.
pub proof fn settings_come_before_arguments(json: Seq<char>, arguments: Seq<Seq<char>>)
    ensures
        run_args(Some(json), Some(arguments)) == seq![json] + arguments,
        run_args(Some(json), Some(arguments)).len() == 1 + arguments.len(),
        run_args(Some(json), Some(arguments))[0] == json,
        forall|i: int|
            0 <= i < arguments.len() ==> run_args(Some(json), Some(arguments))[i + 1]
                == arguments[i],
{
}

/// A filter with neither settings nor arguments is run with no arguments.
pub proof fn no_settings_and_no_arguments_give_none()
    ensures
        run_args(None, None) == Seq::<Seq<char>>::empty(),
{
    assert(run_args(None, None) =~= Seq::<Seq<char>>::empty());
}

/// The step of a run that starts a known filter hands it the arguments that
/// `run_args` gives for its settings, as the encoder returned them, and its
/// own arguments, and the working directory of the run.
pub proof fn filter_step_starts_the_filter(
    context: RunContext,
    run: RunView,
    json: Seq<char>,
)
    requires
        run.pending.len() > 0,
        run.pending[0] matches FilterRunner::Filter { filter_name, settings, .. }
            && context.filters().contains_key(filter_name@) && settings is Some,
    ensures
        ({
            let next = advance_spec(context, run, Some(Ok(json)));
            &&& next.0.status == Status::Running { filter_name: run.pending[0]->filter_name@ }
            &&& next.0.pending == run.pending.skip(1)
            &&& next.1 matches ActionView::RunFilter(job)
            &&& job.filter_name == run.pending[0]->filter_name@
            &&& job.context_name == run.pending[0]->filter_name@
            &&& job.temp == run.temp
            &&& job.run_args == seq![json] + match arguments_view(run.pending[0]->arguments) {
                Some(list) => list,
                None => Seq::empty(),
            }
        }),
{
}

/// Whatever the runtime of a filter, a program that ran to its end with a
/// failing exit status fails the run of the filter, under the name that the
/// filter was started with.
pub proof fn failing_exit_status_fails_the_filter(
    runtime: Runtime,
    script: Seq<char>,
    filter_dir: Seq<char>,
    filter_name: Seq<char>,
    temp: Seq<char>,
    arguments: Seq<Seq<char>>,
    probe: Probe,
    output: Output,
)
    requires
        !output.success,
    ensures
        run_plan(
            adapter_for(runtime, script, filter_dir, filter_name),
            filter_name,
            filter_dir,
            temp,
            arguments,
            probe,
        ) matches Ok(plan) ==> plan.filter_name == filter_name && run_outcome(
            plan.filter_name,
            Launch::Completed(output),
        ) == Err::<(), ErrorView>(ErrorView::FilterRunFailed { filter_name }),
{
}

/// The export target `local` exports to `build/BP` and `build/RP` and wants
/// `build` to exist, whatever the pack is called and wherever the game keeps
/// its data.
pub proof fn local_target_exports_to_build(name: Seq<char>, mojang_dir: Result<String, String>)
    ensures
        export_paths("local"@, name, mojang_dir) == Ok::<ExportPathsView, ErrorView>(
            ExportPathsView {
                bp: "build/BP"@,
                rp: "build/RP"@,
                create_dir: Some("build"@),
            },
        ),
{
    reveal_strlit("local");
    reveal_strlit("development");
    reveal_strlit("build");
    reveal_strlit("BP");
    reveal_strlit("RP");
    reveal_strlit("build/BP");
    reveal_strlit("build/RP");
    assert("local"@ != "development"@) by {
        assert("local"@.len() == 5);
        assert("development"@.len() == 11);
    }
    assert(crate::paths::joined("build"@, "BP"@) =~= "build/BP"@);
    assert(crate::paths::joined("build"@, "RP"@) =~= "build/RP"@);
}

/// An export target other than `development` and `local` is an error that
/// names it, and comes with no directory to export to or to create.
pub proof fn unrecognized_target_is_an_error(
    target: Seq<char>,
    name: Seq<char>,
    mojang_dir: Result<String, String>,
)
    requires
        target != "development"@,
        target != "local"@,
    ensures
        export_paths(target, name, mojang_dir) == Err::<ExportPathsView, ErrorView>(
            ErrorView::InvalidExportTarget { target },
        ),
{
}

} // verus!
