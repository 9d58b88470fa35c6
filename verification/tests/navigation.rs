use lazyenv::app::{App, AppState, DialogState, Focus, DEFAULT_STATUS_LIFETIME};
use lazyenv::python::{EnvironmentKind, Package, PythonEnvironment};

fn env(name: &str, path: &str) -> PythonEnvironment {
    PythonEnvironment {
        name: name.to_string(),
        path: path.to_string(),
        python_version: "Python 3.11.4".to_string(),
        env_type: EnvironmentKind::Venv,
    }
}

fn pkg(name: &str) -> Package {
    Package { name: name.to_string(), version: "1.0".to_string(), summary: String::new() }
}

fn app_with(environments: usize, packages: usize) -> App {
    let mut app = App::new();
    let mut found = Vec::new();
    for i in 0..environments {
        found.push(env(&format!("env{}", i), &format!("/envs/env{}", i)));
    }
    app.load_environments(found);
    let mut list = Vec::new();
    for i in 0..packages {
        list.push(pkg(&format!("pkg{}", i)));
    }
    app.set_packages(list);
    app
}

#[test]
fn new_session_is_empty_and_browsing() {
    let app = App::new();
    assert_eq!(app.state, AppState::Browse);
    assert_eq!(app.dialog_state, DialogState::Closed);
    assert!(app.environments.is_empty());
    assert_eq!(app.selected_environment, None);
    assert!(app.packages.is_empty());
    assert_eq!(app.selected_package, None);
    assert_eq!(app.focus, Focus::Environments);
    assert_eq!(app.input_text, "");
    assert_eq!(app.status_message, None);
    assert_eq!(app.status_message_timer, 0);
    assert!(!app.show_global_packages);
    assert_eq!(app.status_lifetime, DEFAULT_STATUS_LIFETIME);
    assert!(app.is_well_formed());
}

#[test]
fn selection_is_none_exactly_for_an_empty_list() {
    let empty = app_with(0, 0);
    assert_eq!(empty.selected_environment, None);
    assert_eq!(empty.selected_package, None);
    assert!(empty.is_well_formed());
    for n in 1..5 {
        let app = app_with(n, n);
        assert_eq!(app.selected_environment, Some(0));
        assert_eq!(app.selected_package, Some(0));
        assert!(app.is_well_formed());
    }
}

#[test]
fn next_environment_visits_every_index_and_wraps() {
    let mut app = app_with(4, 0);
    let mut seen = Vec::new();
    for _ in 0..4 {
        seen.push(app.selected_environment);
        app.next_environment();
        assert!(app.is_well_formed());
    }
    assert_eq!(seen, vec![Some(0), Some(1), Some(2), Some(3)]);
    assert_eq!(app.selected_environment, Some(0));
}

#[test]
fn previous_environment_visits_every_index_and_wraps() {
    let mut app = app_with(4, 0);
    let mut seen = Vec::new();
    for _ in 0..4 {
        app.previous_environment();
        seen.push(app.selected_environment);
        assert!(app.is_well_formed());
    }
    assert_eq!(seen, vec![Some(3), Some(2), Some(1), Some(0)]);
}

#[test]
fn previous_undoes_next() {
    let mut app = app_with(3, 0);
    app.next_environment();
    app.next_environment();
    assert_eq!(app.selected_environment, Some(2));
    app.next_environment();
    assert_eq!(app.selected_environment, Some(0));
    app.previous_environment();
    assert_eq!(app.selected_environment, Some(2));
}

#[test]
fn navigation_in_an_empty_list_selects_nothing() {
    let mut app = App::new();
    app.next_environment();
    assert_eq!(app.selected_environment, None);
    app.previous_environment();
    assert_eq!(app.selected_environment, None);
    app.toggle_focus();
    app.next_package();
    assert_eq!(app.selected_package, None);
    app.previous_package();
    assert_eq!(app.selected_package, None);
}

#[test]
fn navigation_without_selection_starts_at_an_end() {
    let mut app = app_with(3, 0);
    app.selected_environment = None;
    app.next_environment();
    assert_eq!(app.selected_environment, Some(0));
    app.selected_environment = None;
    app.previous_environment();
    assert_eq!(app.selected_environment, Some(2));
}

#[test]
fn navigation_goes_only_to_the_focused_list() {
    let mut app = app_with(3, 3);
    app.next_package();
    assert_eq!(app.selected_package, Some(0));
    app.previous_package();
    assert_eq!(app.selected_package, Some(0));
    app.next_environment();
    assert_eq!(app.selected_environment, Some(1));
    app.toggle_focus();
    assert_eq!(app.focus, Focus::Packages);
    app.next_environment();
    app.previous_environment();
    assert_eq!(app.selected_environment, Some(1));
    app.next_package();
    assert_eq!(app.selected_package, Some(1));
    app.next_package();
    app.next_package();
    assert_eq!(app.selected_package, Some(0));
    app.previous_package();
    assert_eq!(app.selected_package, Some(2));
}

#[test]
fn toggle_focus_selects_the_first_entry_of_a_list_without_selection() {
    let mut app = app_with(2, 2);
    app.selected_package = None;
    app.toggle_focus();
    assert_eq!(app.focus, Focus::Packages);
    assert_eq!(app.selected_package, Some(0));
    app.selected_environment = None;
    app.toggle_focus();
    assert_eq!(app.focus, Focus::Environments);
    assert_eq!(app.selected_environment, Some(0));
}

#[test]
fn toggle_focus_keeps_a_selection_and_clears_one_in_an_empty_list() {
    let mut app = app_with(3, 0);
    app.next_environment();
    app.toggle_focus();
    assert_eq!(app.selected_package, None);
    assert_eq!(app.selected_environment, Some(1));
    app.toggle_focus();
    assert_eq!(app.selected_environment, Some(1));
    assert_eq!(app.focus, Focus::Environments);
}

#[test]
fn set_packages_brings_the_selection_back_into_the_list() {
    let mut app = app_with(1, 5);
    app.toggle_focus();
    app.previous_package();
    assert_eq!(app.selected_package, Some(4));
    app.set_packages(vec![pkg("a"), pkg("b")]);
    assert_eq!(app.selected_package, Some(1));
    app.set_packages(Vec::new());
    assert_eq!(app.selected_package, None);
    app.set_packages(vec![pkg("a")]);
    assert_eq!(app.selected_package, Some(0));
    assert!(app.is_well_formed());
}

#[test]
fn load_environments_follows_the_selected_path() {
    let mut app = App::new();
    app.load_environments(vec![env("a", "/a"), env("b", "/b"), env("c", "/c")]);
    app.next_environment();
    app.next_environment();
    assert_eq!(app.selected_environment, Some(2));
    app.load_environments(vec![env("c", "/c"), env("a", "/a")]);
    assert_eq!(app.selected_environment, Some(0));
    app.load_environments(vec![env("a", "/a"), env("b", "/b")]);
    assert_eq!(app.selected_environment, Some(0));
    app.next_environment();
    app.load_environments(vec![env("x", "/x"), env("y", "/y")]);
    assert_eq!(app.selected_environment, Some(0));
    app.load_environments(Vec::new());
    assert_eq!(app.selected_environment, None);
    assert!(app.is_well_formed());
}

#[test]
fn load_environments_keeps_each_path_once() {
    let mut app = App::new();
    app.load_environments(vec![env("first", "/a"), env("b", "/b"), env("second", "/a")]);
    assert_eq!(app.environments.len(), 2);
    assert_eq!(app.environments[0].name, "first");
    assert_eq!(app.environments[1].name, "b");
    assert!(app.is_well_formed());
}

#[test]
fn is_well_formed_tells_broken_states() {
    let mut app = app_with(2, 0);
    assert!(app.is_well_formed());
    app.selected_environment = Some(2);
    assert!(!app.is_well_formed());
    app.selected_environment = None;
    assert!(!app.is_well_formed());
    app.selected_environment = Some(1);
    app.selected_package = Some(0);
    assert!(!app.is_well_formed());
    app.selected_package = None;
    app.dialog_state = DialogState::Confirm;
    assert!(!app.is_well_formed());
    app.dialog_state = DialogState::Closed;
    app.status_message_timer = 3;
    assert!(!app.is_well_formed());
    app.status_message_timer = 0;
    app.environments.push(env("again", "/envs/env0"));
    assert!(!app.is_well_formed());
}
