use lazyenv::failure::Failure;
use lazyenv::mutate::{create_environment, creation_invocation, creation_target};
use lazyenv::mutate::{install_package, interpret_mutation, uninstall_package, MutationChain};
use lazyenv::paths::Layout;
use lazyenv::process::{Invocation, RunOutcome};
use lazyenv::python::{EnvironmentKind, PythonEnvironment};
use lazyenv::strategy::{mutation_plan, Operation};

fn ok() -> RunOutcome {
    RunOutcome::Exited { success: true, stdout: "done".to_string(), stderr: String::new() }
}

fn failed(stderr: &str) -> RunOutcome {
    RunOutcome::Exited { success: false, stdout: String::new(), stderr: stderr.to_string() }
}

fn version(text: &str) -> RunOutcome {
    RunOutcome::Exited { success: true, stdout: text.to_string(), stderr: String::new() }
}

#[test]
fn install_without_any_package_manager_is_tool_missing() {
    let none = vec![RunOutcome::NotStarted, RunOutcome::NotStarted, RunOutcome::NotStarted];
    assert_eq!(install_package(&none), Err(Failure::ToolMissing));
    assert_eq!(uninstall_package(&none), Err(Failure::ToolMissing));
    assert_eq!(install_package(&Vec::new()), Err(Failure::ToolMissing));
    assert!(!matches!(install_package(&none), Err(Failure::ExecutionFailure(_))));
}

#[test]
fn the_first_executable_found_decides() {
    assert_eq!(install_package(&vec![ok()]), Ok(()));
    assert_eq!(install_package(&vec![RunOutcome::NotStarted, ok(), failed("late")]), Ok(()));
    assert_eq!(
        install_package(&vec![RunOutcome::NotStarted, failed("No matching distribution"), ok()]),
        Err(Failure::ExecutionFailure("No matching distribution".to_string()))
    );
    assert_eq!(
        uninstall_package(&vec![failed("not installed"), ok(), ok()]),
        Err(Failure::ExecutionFailure("not installed".to_string()))
    );
    assert_eq!(
        uninstall_package(&vec![RunOutcome::NotStarted, RunOutcome::NotStarted, ok()]),
        Ok(())
    );
}

#[test]
fn an_execution_failure_is_not_a_missing_tool() {
    let r = install_package(&vec![RunOutcome::NotStarted, failed("")]);
    assert_eq!(r, Err(Failure::ExecutionFailure(String::new())));
}

#[test]
fn interpret_mutation_judges_one_step() {
    assert_eq!(interpret_mutation(&RunOutcome::NotStarted), None);
    assert_eq!(interpret_mutation(&ok()), Some(Ok(())));
    assert_eq!(
        interpret_mutation(&failed("denied")),
        Some(Err(Failure::ExecutionFailure("denied".to_string())))
    );
}

#[test]
fn mutation_chain_stops_at_the_first_executable_that_ran() {
    let mut chain = MutationChain::new(3);
    assert_eq!(chain.pending(), Some(0));
    chain.record(&RunOutcome::NotStarted);
    assert_eq!(chain.pending(), Some(1));
    chain.record(&failed("boom"));
    assert_eq!(chain.pending(), None);
    chain.record(&ok());
    assert_eq!(chain.position, 2);
    assert_eq!(chain.finish(), Err(Failure::ExecutionFailure("boom".to_string())));
}

#[test]
fn mutation_chain_without_steps_left_is_tool_missing() {
    let mut chain = MutationChain::new(2);
    chain.record(&RunOutcome::NotStarted);
    chain.record(&RunOutcome::NotStarted);
    assert_eq!(chain.pending(), None);
    assert_eq!(chain.finish(), Err(Failure::ToolMissing));
}

#[test]
fn mutation_plan_has_the_three_candidates_of_the_listing_chain() {
    let words = |list: &[&str]| list.iter().map(|s| s.to_string()).collect::<Vec<String>>();
    let plan = mutation_plan("/e/v", Layout::Posix, &Operation::Install("rich".to_string()));
    assert_eq!(
        plan,
        vec![
            Invocation { program: "/e/v/bin/pip".to_string(), args: words(&["install", "rich"]) },
            Invocation { program: "/e/v/bin/pip3".to_string(), args: words(&["install", "rich"]) },
            Invocation {
                program: "/e/v/bin/python".to_string(),
                args: words(&["-m", "pip", "install", "rich"])
            },
        ]
    );
    let plan = mutation_plan("C:\\v", Layout::Windows, &Operation::Uninstall("rich".to_string()));
    assert_eq!(plan[0].program, "C:\\v\\Scripts\\pip.exe");
    assert_eq!(plan[1].args, words(&["uninstall", "-y", "rich"]));
    assert_eq!(plan[2].program, "C:\\v\\python.exe");
    assert_eq!(plan[2].args, words(&["-m", "pip", "uninstall", "-y", "rich"]));
}

#[test]
fn creation_targets_a_subdirectory_of_the_container_directory() {
    assert_eq!(creation_target("/home/u", "web", Layout::Posix), "/home/u/.virtualenvs/web");
    assert_eq!(creation_target(".", "web", Layout::Posix), "./.virtualenvs/web");
    assert_eq!(
        creation_target("C:\\Users\\u", "web", Layout::Windows),
        "C:\\Users\\u\\.virtualenvs\\web"
    );
    let inv = creation_invocation("/home/u/.virtualenvs/web");
    assert_eq!(inv.program, "python");
    assert_eq!(inv.args, vec!["-m", "venv", "/home/u/.virtualenvs/web"]);
}

#[test]
fn create_environment_derives_the_record_from_the_new_directory() {
    let r = create_environment(
        "/home/u/.virtualenvs/web",
        Layout::Posix,
        &Ok(()),
        &ok(),
        &version("Python 3.12.1\n"),
    );
    assert_eq!(
        r,
        Ok(PythonEnvironment {
            name: "web".to_string(),
            path: "/home/u/.virtualenvs/web".to_string(),
            python_version: "Python 3.12.1".to_string(),
            env_type: EnvironmentKind::Venv,
        })
    );
}

#[test]
fn create_environment_surfaces_the_diagnostic_text() {
    let r = create_environment(
        "/h/.virtualenvs/x",
        Layout::Posix,
        &Ok(()),
        &failed("Error: no venv"),
        &ok(),
    );
    assert_eq!(r, Err(Failure::ExecutionFailure("Error: no venv".to_string())));
}

#[test]
fn create_environment_without_interpreter_is_tool_missing() {
    let r = create_environment(
        "/h/.virtualenvs/x",
        Layout::Posix,
        &Ok(()),
        &RunOutcome::NotStarted,
        &ok(),
    );
    assert_eq!(r, Err(Failure::ToolMissing));
}

#[test]
fn create_environment_without_a_record_is_a_detection_failure() {
    let r = create_environment(
        "/h/.virtualenvs/x",
        Layout::Posix,
        &Ok(()),
        &ok(),
        &RunOutcome::NotStarted,
    );
    assert_eq!(r, Err(Failure::DetectionFailure));
    let r = create_environment("/", Layout::Posix, &Ok(()), &ok(), &version("Python 3"));
    assert_eq!(r, Err(Failure::DetectionFailure));
}

#[test]
fn create_environment_without_a_container_directory_is_a_filesystem_failure() {
    let r = create_environment(
        "/h/.virtualenvs/x",
        Layout::Posix,
        &Err("Permission denied (os error 13)".to_string()),
        &ok(),
        &version("Python 3.12.1"),
    );
    assert_eq!(
        r,
        Err(Failure::FilesystemFailure("Permission denied (os error 13)".to_string()))
    );
}

#[test]
fn failure_messages() {
    assert_eq!(Failure::ToolMissing.message(), "no package manager found");
    assert_eq!(Failure::ExecutionFailure("raw text\n".to_string()).message(), "raw text\n");
    assert_eq!(Failure::FilesystemFailure("Permission denied".to_string()).message(), "Permission denied");
    assert_eq!(Failure::ParseFailure.message(), "unexpected output from the package manager");
    assert_eq!(Failure::DetectionFailure.message(), "no environment found at the given location");
    assert_eq!(Failure::ToolMissing.clone(), Failure::ToolMissing);
    assert_eq!(
        Failure::ExecutionFailure("x".to_string()).clone(),
        Failure::ExecutionFailure("x".to_string())
    );
}
