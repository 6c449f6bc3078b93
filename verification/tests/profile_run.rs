use rgl::context::RunContext;
use rgl::error::RglError;
use rgl::execution::{build_run_args, Action, Execution, FilterJob};
use rgl::filter::{Filter, FilterDefinition, Runtime};
use rgl::filter_node::FilterNode;
use rgl::profile::{Export, FilterRunner, Profile};
use serde_json::Value;
use std::collections::HashMap;

fn node(script: &str) -> FilterDefinition {
    FilterDefinition {
        runtime: Runtime::Node,
        script: script.to_string(),
        filter_dir: format!("filters/{}", script),
    }
}

fn filter(name: &str) -> FilterRunner {
    FilterRunner::Filter { filter_name: name.to_string(), arguments: None, settings: None }
}

fn nested(name: &str) -> FilterRunner {
    FilterRunner::ProfileFilter { profile_name: name.to_string() }
}

fn profile(steps: Vec<FilterRunner>) -> Profile {
    Profile { export: Export { target: "local".to_string() }, filters: steps }
}

/// Drives a run to its end with every filter succeeding, and returns the
/// names of the filters started, the working directory of each, and how the
/// run ended.
fn drive(run: &mut Execution, limit: usize) -> (Vec<String>, Vec<String>, Result<(), RglError>) {
    let mut started = Vec::new();
    let mut dirs = Vec::new();
    for _ in 0..limit {
        assert!(run.is_ready());
        match run.advance() {
            Action::RunFilter(job) => {
                started.push(job.filter_name.clone());
                dirs.push(job.temp.clone());
                assert!(run.is_running());
                assert_eq!(run.complete(Ok(())), Ok(()));
            }
            Action::EnterProfile { .. } => {}
            Action::Finished => return (started, dirs, Ok(())),
            Action::Failed(error) => return (started, dirs, Err(error)),
        }
    }
    panic!("the run took more than {} steps", limit);
}

#[test]
fn nested_profile_runs_in_order_in_the_same_directory() {
    let mut context = RunContext::new("default");
    context.add_filter("a".to_string(), node("a.js"));
    context.add_filter("b".to_string(), node("b.js"));
    context.add_profile("default".to_string(), profile(vec![filter("a"), nested("sub")]));
    context.add_profile("sub".to_string(), profile(vec![filter("b")]));

    let root = context.get_profile("default").unwrap();
    let mut run = root.run(&context, ".regolith/tmp");
    let (started, dirs, end) = drive(&mut run, 20);
    assert_eq!(end, Ok(()));
    assert_eq!(started, vec!["a".to_string(), "b".to_string()]);
    assert_eq!(dirs, vec![".regolith/tmp".to_string(), ".regolith/tmp".to_string()]);
    assert!(!run.is_ready());
    assert!(!run.is_running());
}

#[test]
fn nested_profile_is_announced_between_its_neighbours() {
    let mut context = RunContext::new("default");
    context.add_filter("a".to_string(), node("a.js"));
    context.add_filter("b".to_string(), node("b.js"));
    context.add_filter("c".to_string(), node("c.js"));
    context.add_profile(
        "default".to_string(),
        profile(vec![filter("a"), nested("sub"), filter("c")]),
    );
    context.add_profile("sub".to_string(), profile(vec![filter("b")]));

    let root = context.get_profile("default").unwrap();
    let mut run = root.run(&context, "tmp");
    let mut seen = Vec::new();
    loop {
        match run.advance() {
            Action::RunFilter(job) => {
                seen.push(format!("run {}", job.filter_name));
                run.complete(Ok(())).unwrap();
            }
            Action::EnterProfile { profile_name } => seen.push(format!("enter {}", profile_name)),
            Action::Finished => break,
            Action::Failed(error) => panic!("{:?}", error),
        }
    }
    assert_eq!(seen, vec!["run a", "enter sub", "run b", "run c"]);
}

#[test]
fn empty_profile_finishes_at_once() {
    let context = RunContext::new("default");
    let empty = profile(vec![]);
    let mut run = empty.run(&context, "tmp");
    assert!(run.is_ready());
    assert_eq!(run.advance(), Action::Finished);
    assert!(!run.is_ready());
}

#[test]
fn self_reference_in_first_place_fails_without_a_filter() {
    let mut context = RunContext::new("default");
    context.add_filter("a".to_string(), node("a.js"));
    context.add_profile("default".to_string(), profile(vec![nested("default"), filter("a")]));
    let root = context.get_profile("default").unwrap();
    let mut run = root.run(&context, "tmp");
    assert_eq!(
        run.advance(),
        Action::Failed(RglError::CircularProfileReference { profile_name: "default".to_string() })
    );
    assert!(!run.is_ready());
}

#[test]
fn self_reference_after_quiet_profiles_fails_without_a_filter() {
    let mut context = RunContext::new("default");
    context.add_profile("default".to_string(), profile(vec![nested("sub"), nested("default")]));
    context.add_profile("sub".to_string(), profile(vec![nested("leaf")]));
    context.add_profile("leaf".to_string(), profile(vec![]));
    let root = context.get_profile("default").unwrap();
    let mut run = root.run(&context, "tmp");
    let (started, _, end) = drive(&mut run, 20);
    assert!(started.is_empty());
    assert_eq!(
        end,
        Err(RglError::CircularProfileReference { profile_name: "default".to_string() })
    );
}

#[test]
fn reference_to_root_from_nested_profile_is_circular() {
    let mut context = RunContext::new("a");
    context.add_profile("a".to_string(), profile(vec![nested("b")]));
    context.add_profile("b".to_string(), profile(vec![nested("a")]));
    let root = context.get_profile("a").unwrap();
    let mut run = root.run(&context, "tmp");
    assert_eq!(run.advance(), Action::EnterProfile { profile_name: "b".to_string() });
    assert_eq!(
        run.advance(),
        Action::Failed(RglError::CircularProfileReference { profile_name: "a".to_string() })
    );
}

#[test]
fn cycle_that_misses_the_root_is_entered_again_and_again() {
    let mut context = RunContext::new("a");
    context.add_profile("a".to_string(), profile(vec![nested("b")]));
    context.add_profile("b".to_string(), profile(vec![nested("c")]));
    context.add_profile("c".to_string(), profile(vec![nested("b")]));
    let root = context.get_profile("a").unwrap();
    let mut run = root.run(&context, "tmp");
    let mut entered = Vec::new();
    for _ in 0..7 {
        match run.advance() {
            Action::EnterProfile { profile_name } => entered.push(profile_name),
            other => panic!("{:?}", other),
        }
    }
    assert_eq!(entered, vec!["b", "c", "b", "c", "b", "c", "b"]);
    assert!(run.is_ready());
}

#[test]
fn filter_before_self_reference_is_run_first() {
    let mut context = RunContext::new("default");
    context.add_filter("a".to_string(), node("a.js"));
    context.add_profile("default".to_string(), profile(vec![filter("a"), nested("default")]));
    let root = context.get_profile("default").unwrap();
    let mut run = root.run(&context, "tmp");
    let (started, _, end) = drive(&mut run, 20);
    assert_eq!(started, vec!["a".to_string()]);
    assert_eq!(
        end,
        Err(RglError::CircularProfileReference { profile_name: "default".to_string() })
    );
}

#[test]
fn unknown_filter_fails_the_run_before_later_steps() {
    let mut context = RunContext::new("default");
    context.add_filter("a".to_string(), node("a.js"));
    context.add_filter("b".to_string(), node("b.js"));
    context.add_profile(
        "default".to_string(),
        profile(vec![filter("a"), filter("missing"), filter("b")]),
    );
    let root = context.get_profile("default").unwrap();
    let mut run = root.run(&context, "tmp");
    let (started, _, end) = drive(&mut run, 20);
    assert_eq!(started, vec!["a".to_string()]);
    assert_eq!(end, Err(RglError::UnknownFilter { filter_name: "missing".to_string() }));
    assert!(!run.is_ready());
    assert!(!run.is_running());
}

#[test]
fn unknown_nested_profile_fails_the_run() {
    let mut context = RunContext::new("default");
    context.add_profile("default".to_string(), profile(vec![nested("nowhere")]));
    let root = context.get_profile("default").unwrap();
    let mut run = root.run(&context, "tmp");
    assert_eq!(
        run.advance(),
        Action::Failed(RglError::UnknownProfile { profile_name: "nowhere".to_string() })
    );
}

#[test]
fn failing_filter_stops_the_run_under_its_name() {
    let mut context = RunContext::new("default");
    context.add_filter("a".to_string(), node("a.js"));
    context.add_filter("b".to_string(), node("b.js"));
    context.add_profile("default".to_string(), profile(vec![filter("a"), filter("b")]));
    let root = context.get_profile("default").unwrap();
    let mut run = root.run(&context, "tmp");
    match run.advance() {
        Action::RunFilter(job) => assert_eq!(job.filter_name, "a"),
        other => panic!("{:?}", other),
    }
    let cause = RglError::FilterRunFailed { filter_name: "a".to_string() };
    assert_eq!(
        run.complete(Err(cause)),
        Err(RglError::FilterFailed {
            filter_name: "a".to_string(),
            cause: Box::new(RglError::FilterRunFailed { filter_name: "a".to_string() }),
        })
    );
    assert!(!run.is_ready());
    assert!(!run.is_running());
}

#[test]
fn job_carries_adapter_context_and_directory() {
    let mut context = RunContext::new("default");
    context.add_filter(
        "pack".to_string(),
        FilterDefinition {
            runtime: Runtime::Node,
            script: "filters/pack/index.js".to_string(),
            filter_dir: "filters/pack".to_string(),
        },
    );
    context.add_profile("default".to_string(), profile(vec![filter("pack")]));
    let root = context.get_profile("default").unwrap();
    let mut run = root.run(&context, "work");
    match run.advance() {
        Action::RunFilter(job) => {
            assert_eq!(
                job,
                FilterJob {
                    filter_name: "pack".to_string(),
                    filter: Filter::Node(FilterNode {
                        filter_dir: "filters/pack".to_string(),
                        script: "filters/pack/index.js".to_string(),
                    }),
                    context: rgl::filter::FilterContext {
                        name: "pack".to_string(),
                        dir: "filters/pack".to_string(),
                    },
                    run_args: vec![],
                    temp: "work".to_string(),
                }
            );
        }
        other => panic!("{:?}", other),
    }
}

#[test]
fn settings_come_first_then_arguments_in_order() {
    let mut settings = HashMap::new();
    settings.insert("scale".to_string(), Value::from(2));
    let step = FilterRunner::Filter {
        filter_name: "a".to_string(),
        arguments: Some(vec!["--fast".to_string(), "out".to_string()]),
        settings: Some(settings),
    };
    let mut context = RunContext::new("default");
    context.add_filter("a".to_string(), node("a.js"));
    context.add_profile("default".to_string(), profile(vec![step]));
    let root = context.get_profile("default").unwrap();
    let mut run = root.run(&context, "tmp");
    match run.advance() {
        Action::RunFilter(job) => {
            assert_eq!(
                job.run_args,
                vec!["{\"scale\":2}".to_string(), "--fast".to_string(), "out".to_string()]
            );
        }
        other => panic!("{:?}", other),
    }
}

#[test]
fn settings_alone_are_the_only_argument() {
    let mut settings = HashMap::new();
    settings.insert("name".to_string(), Value::String("x".to_string()));
    let step = FilterRunner::Filter {
        filter_name: "a".to_string(),
        arguments: None,
        settings: Some(settings.clone()),
    };
    let mut context = RunContext::new("default");
    context.add_filter("a".to_string(), node("a.js"));
    context.add_profile("default".to_string(), profile(vec![step]));
    let root = context.get_profile("default").unwrap();
    let mut run = root.run(&context, "tmp");
    assert_eq!(run.next_settings(), Some(&settings));
    match run.advance() {
        Action::RunFilter(job) => assert_eq!(job.run_args, vec!["{\"name\":\"x\"}".to_string()]),
        other => panic!("{:?}", other),
    }
    assert_eq!(run.next_settings(), None);
}

#[test]
fn settings_with_several_keys_are_one_json_object() {
    let mut settings = HashMap::new();
    settings.insert("a".to_string(), Value::from(1));
    settings.insert("b".to_string(), Value::Bool(true));
    settings.insert("c".to_string(), Value::Null);
    let step = FilterRunner::Filter {
        filter_name: "a".to_string(),
        arguments: Some(vec!["last".to_string()]),
        settings: Some(settings.clone()),
    };
    let mut context = RunContext::new("default");
    context.add_filter("a".to_string(), node("a.js"));
    context.add_profile("default".to_string(), profile(vec![step]));
    let root = context.get_profile("default").unwrap();
    let mut run = root.run(&context, "tmp");
    match run.advance() {
        Action::RunFilter(job) => {
            assert_eq!(job.run_args.len(), 2);
            let parsed: HashMap<String, Value> = serde_json::from_str(&job.run_args[0]).unwrap();
            assert_eq!(parsed, settings);
            assert_eq!(job.run_args[1], "last");
        }
        other => panic!("{:?}", other),
    }
}

#[test]
fn arguments_alone_are_passed_as_they_are() {
    let step = FilterRunner::Filter {
        filter_name: "a".to_string(),
        arguments: Some(vec!["one".to_string(), "two".to_string(), "one".to_string()]),
        settings: None,
    };
    let mut context = RunContext::new("default");
    context.add_filter("a".to_string(), node("a.js"));
    context.add_profile("default".to_string(), profile(vec![step]));
    let root = context.get_profile("default").unwrap();
    let mut run = root.run(&context, "tmp");
    match run.advance() {
        Action::RunFilter(job) => assert_eq!(job.run_args, vec!["one", "two", "one"]),
        other => panic!("{:?}", other),
    }
}

#[test]
fn neither_settings_nor_arguments_give_no_arguments() {
    let mut context = RunContext::new("default");
    context.add_filter("a".to_string(), node("a.js"));
    context.add_profile("default".to_string(), profile(vec![filter("a")]));
    let root = context.get_profile("default").unwrap();
    let mut run = root.run(&context, "tmp");
    match run.advance() {
        Action::RunFilter(job) => assert!(job.run_args.is_empty()),
        other => panic!("{:?}", other),
    }
    assert!(build_run_args(None, &None).is_empty());
}

#[test]
fn run_args_are_built_from_text_and_list() {
    let arguments = Some(vec!["x".to_string(), "y".to_string()]);
    assert_eq!(build_run_args(Some("{}".to_string()), &arguments), vec!["{}", "x", "y"]);
    assert_eq!(build_run_args(None, &arguments), vec!["x", "y"]);
    assert_eq!(build_run_args(Some("{}".to_string()), &None), vec!["{}"]);
    assert_eq!(build_run_args(Some("{}".to_string()), &Some(vec![])), vec!["{}"]);
}

#[test]
fn failure_to_encode_settings_fails_the_run() {
    let mut context = RunContext::new("default");
    context.add_filter("a".to_string(), node("a.js"));
    let step = FilterRunner::Filter {
        filter_name: "a".to_string(),
        arguments: None,
        settings: Some(HashMap::new()),
    };
    context.add_profile("default".to_string(), profile(vec![step]));
    let root = context.get_profile("default").unwrap();
    let mut run = root.run(&context, "tmp");
    assert_eq!(
        run.advance_with(Some(Err("key must be a string".to_string()))),
        Action::Failed(RglError::Wrap { message: "key must be a string".to_string() })
    );
    assert!(!run.is_ready());
}

#[test]
fn unknown_filter_is_reported_before_its_settings_are_looked_at() {
    let mut context = RunContext::new("default");
    let step = FilterRunner::Filter {
        filter_name: "ghost".to_string(),
        arguments: None,
        settings: Some(HashMap::new()),
    };
    context.add_profile("default".to_string(), profile(vec![step]));
    let root = context.get_profile("default").unwrap();
    let mut run = root.run(&context, "tmp");
    assert_eq!(
        run.advance_with(Some(Err("broken".to_string()))),
        Action::Failed(RglError::UnknownFilter { filter_name: "ghost".to_string() })
    );
}

#[test]
fn context_answers_by_name() {
    let mut context = RunContext::new("main");
    assert_eq!(context.root_profile(), "main");
    context.add_filter("a".to_string(), node("a.js"));
    context.add_profile("main".to_string(), profile(vec![filter("a")]));
    assert_eq!(context.get_filter_def("a"), Ok(&node("a.js")));
    assert_eq!(
        context.get_filter_def("b"),
        Err(RglError::UnknownFilter { filter_name: "b".to_string() })
    );
    assert_eq!(context.get_profile("main"), Ok(&profile(vec![filter("a")])));
    assert_eq!(
        context.get_profile("a"),
        Err(RglError::UnknownProfile { profile_name: "a".to_string() })
    );
    context.add_filter("a".to_string(), node("other.js"));
    assert_eq!(context.get_filter_def("a"), Ok(&node("other.js")));
}
