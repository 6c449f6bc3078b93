use rgl::error::RglError;
use rgl::subprocess::{Launch, Output, Subprocess};

fn output(success: bool) -> Output {
    Output { success, code: Some(if success { 0 } else { 1 }), stdout: vec![b'o'], stderr: vec![] }
}

fn subprocess_error(message: &str) -> RglError {
    RglError::Subprocess { cause: Box::new(RglError::Wrap { message: message.to_string() }) }
}

#[test]
fn new_command_has_nothing_but_its_program() {
    assert_eq!(
        Subprocess::new("deno"),
        Subprocess {
            command: "deno".to_string(),
            arguments: vec![],
            working_dir: None,
            environment: vec![],
        }
    );
}

#[test]
fn builder_keeps_the_order_of_arguments() {
    let mut process = Subprocess::new("tool");
    process
        .arg("first")
        .args(&vec!["second".to_string(), "third".to_string()])
        .arg("fourth")
        .args(&vec![])
        .current_dir("here")
        .current_dir("there");
    assert_eq!(process.command, "tool");
    assert_eq!(process.arguments, vec!["first", "second", "third", "fourth"]);
    assert_eq!(process.working_dir, Some("there".to_string()));
    assert!(process.environment.is_empty());
}

#[test]
fn setup_env_adds_root_and_filter_directory() {
    let mut process = Subprocess::new("tool");
    process.arg("x");
    assert_eq!(process.setup_env(Ok("/root".to_string()), Ok("/root/f".to_string())), Ok(()));
    assert_eq!(
        process.environment,
        vec![
            ("ROOT_DIR".to_string(), "/root".to_string()),
            ("FILTER_DIR".to_string(), "/root/f".to_string()),
        ]
    );
    assert_eq!(process.arguments, vec!["x"]);
}

#[test]
fn setup_env_fails_on_the_root_first_and_changes_nothing() {
    let mut process = Subprocess::new("tool");
    assert_eq!(
        process.setup_env(Err("no root".to_string()), Err("no filter dir".to_string())),
        Err(RglError::Wrap { message: "no root".to_string() })
    );
    assert_eq!(process, Subprocess::new("tool"));
    assert_eq!(
        process.setup_env(Ok("/root".to_string()), Err("no filter dir".to_string())),
        Err(RglError::Wrap { message: "no filter dir".to_string() })
    );
    assert_eq!(process, Subprocess::new("tool"));
}

#[test]
fn run_returns_the_output_whatever_the_status() {
    let process = Subprocess::new("tool");
    assert_eq!(process.run(Launch::Completed(output(true))), Ok(output(true)));
    assert_eq!(process.run(Launch::Completed(output(false))), Ok(output(false)));
}

#[test]
fn run_does_not_tell_spawn_from_wait_failures() {
    let process = Subprocess::new("tool");
    assert_eq!(
        process.run(Launch::SpawnFailed("denied".to_string())),
        Err(subprocess_error("denied"))
    );
    assert_eq!(
        process.run(Launch::WaitFailed("denied".to_string())),
        Err(subprocess_error("denied"))
    );
}

#[test]
fn run_silent_wraps_the_failure() {
    let process = Subprocess::new("tool");
    assert_eq!(process.run_silent(Ok(output(false))), Ok(output(false)));
    assert_eq!(process.run_silent(Err("denied".to_string())), Err(subprocess_error("denied")));
}

#[test]
fn errors_lead_to_their_cause() {
    let inner = RglError::Wrap { message: "denied".to_string() };
    let middle = RglError::Subprocess { cause: Box::new(inner) };
    let outer = RglError::FilterFailed { filter_name: "f".to_string(), cause: Box::new(middle) };
    assert_eq!(outer.cause(), Some(&subprocess_error("denied")));
    assert_eq!(outer.cause().unwrap().cause(), Some(&RglError::Wrap { message: "denied".to_string() }));
    assert_eq!(outer.root_cause(), &RglError::Wrap { message: "denied".to_string() });
    let plain = RglError::UnknownFilter { filter_name: "f".to_string() };
    assert_eq!(plain.cause(), None);
    assert_eq!(plain.root_cause(), &plain);
    let invalid = RglError::InvalidFilterDefinition {
        filter_name: "f".to_string(),
        cause: Box::new(RglError::PathNotExists { path: "p".to_string() }),
    };
    assert_eq!(invalid.root_cause(), &RglError::PathNotExists { path: "p".to_string() });
    let install = RglError::DependencyInstallFailed {
        filter_name: "f".to_string(),
        cause: Box::new(subprocess_error("x")),
    };
    assert_eq!(install.root_cause(), &RglError::Wrap { message: "x".to_string() });
}
