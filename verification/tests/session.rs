use lazyenv::app::{App, AppState, DialogState, Focus};
use lazyenv::failure::Failure;
use lazyenv::python::{EnvironmentKind, Package, PythonEnvironment};
use lazyenv::session::{search, Action, Direction, Event, Outcome, TextEdit};

fn env(name: &str, path: &str) -> PythonEnvironment {
    PythonEnvironment {
        name: name.to_string(),
        path: path.to_string(),
        python_version: "Python 3.11.4".to_string(),
        env_type: EnvironmentKind::Venv,
    }
}

fn pkg(name: &str) -> Package {
    Package { name: name.to_string(), version: "1.0".to_string(), summary: String::new() }
}

fn three() -> App {
    let mut app = App::new();
    app.load_environments(vec![
        env("alpha", "/envs/alpha"),
        env("Beta", "/envs/beta"),
        env("gamma", "/srv/Gamma"),
    ]);
    app.set_packages(vec![pkg("requests"), pkg("numpy"), pkg("flask")]);
    app
}

fn type_text(app: &mut App, text: &str) {
    for c in text.chars() {
        assert_eq!(app.handle_event(Event::TextInput(TextEdit::Insert(c))), Action::Idle);
    }
}

#[test]
fn deleting_the_selected_middle_environment_keeps_the_index() {
    let mut app = three();
    app.handle_event(Event::Navigate(Direction::Next));
    assert_eq!(app.selected_environment, Some(1));
    assert_eq!(app.handle_event(Event::StartDelete), Action::Idle);
    assert_eq!(app.state, AppState::DeleteEnvironmentConfirm);
    assert_eq!(app.dialog_state, DialogState::Confirm);
    let action = app.handle_event(Event::Confirm(true));
    assert_eq!(action, Action::DeleteEnvironment("/envs/beta".to_string()));
    assert_eq!(app.state, AppState::Browse);
    assert_eq!(app.dialog_state, DialogState::Closed);
    assert_eq!(app.environments.len(), 3);
    let next = app.complete(Outcome::Deleted { path: "/envs/beta".to_string(), result: Ok(()) });
    assert_eq!(next, Action::LoadPackages("/srv/Gamma".to_string()));
    assert_eq!(app.environments.len(), 2);
    assert_eq!(app.selected_environment, Some(1));
    assert_eq!(app.environments[1].name, "gamma");
    assert_eq!(app.status_message.as_deref(), Some("Environment 'Beta' deleted successfully"));
    assert!(app.is_well_formed());
}

#[test]
fn deleting_the_last_entry_moves_the_selection_to_the_new_last() {
    let mut app = three();
    app.handle_event(Event::Navigate(Direction::Previous));
    assert_eq!(app.selected_environment, Some(2));
    let next = app.complete(Outcome::Deleted { path: "/srv/Gamma".to_string(), result: Ok(()) });
    assert_eq!(next, Action::LoadPackages("/envs/beta".to_string()));
    assert_eq!(app.selected_environment, Some(1));
    assert!(app.is_well_formed());
}

#[test]
fn deleting_the_only_environment_selects_nothing() {
    let mut app = App::new();
    app.load_environments(vec![env("only", "/envs/only")]);
    app.set_packages(vec![pkg("requests")]);
    app.handle_event(Event::StartDelete);
    assert_eq!(
        app.handle_event(Event::Confirm(true)),
        Action::DeleteEnvironment("/envs/only".to_string())
    );
    let next = app.complete(Outcome::Deleted { path: "/envs/only".to_string(), result: Ok(()) });
    assert_eq!(next, Action::Idle);
    assert!(app.environments.is_empty());
    assert_eq!(app.selected_environment, None);
    assert!(app.packages.is_empty());
    assert_eq!(app.selected_package, None);
    assert_eq!(app.status_message.as_deref(), Some("Environment 'only' deleted successfully"));
    assert!(app.is_well_formed());
}

#[test]
fn a_failed_deletion_changes_only_the_status() {
    let mut app = three();
    let next = app.complete(Outcome::Deleted {
        path: "/envs/alpha".to_string(),
        result: Err(Failure::FilesystemFailure("Permission denied".to_string())),
    });
    assert_eq!(next, Action::Idle);
    assert_eq!(app.environments.len(), 3);
    assert_eq!(app.selected_environment, Some(0));
    assert_eq!(
        app.status_message.as_deref(),
        Some("Error deleting environment: Permission denied")
    );
}

#[test]
fn deleting_an_unknown_path_changes_nothing() {
    let mut app = three();
    let next = app.complete(Outcome::Deleted { path: "/nowhere".to_string(), result: Ok(()) });
    assert_eq!(next, Action::Idle);
    assert_eq!(app.environments.len(), 3);
    assert_eq!(app.status_message, None);
}

#[test]
fn declining_or_cancelling_a_question_has_no_effect() {
    for event in [Event::Confirm(false), Event::Cancel] {
        let mut app = three();
        app.handle_event(Event::StartDelete);
        assert_eq!(app.handle_event(event), Action::Idle);
        assert_eq!(app.state, AppState::Browse);
        assert_eq!(app.dialog_state, DialogState::Closed);
        assert_eq!(app.environments.len(), 3);
        assert_eq!(app.selected_environment, Some(0));
        assert_eq!(app.status_message, None);
    }
}

#[test]
fn destructive_actions_need_a_selection() {
    let mut app = App::new();
    assert_eq!(app.handle_event(Event::StartDelete), Action::Idle);
    assert_eq!(app.state, AppState::Browse);
    assert_eq!(app.handle_event(Event::StartUninstall), Action::Idle);
    assert_eq!(app.state, AppState::Browse);
    assert_eq!(app.handle_event(Event::StartInstall), Action::Idle);
    assert_eq!(app.state, AppState::Browse);
    app.load_environments(vec![env("a", "/a")]);
    assert_eq!(app.handle_event(Event::StartUninstall), Action::Idle);
    assert_eq!(app.state, AppState::Browse);
    app.set_packages(vec![pkg("requests")]);
    app.handle_event(Event::StartUninstall);
    assert_eq!(app.state, AppState::UninstallPackageConfirm);
    assert_eq!(app.dialog_state, DialogState::Confirm);
}

#[test]
fn search_without_a_match_changes_only_the_status() {
    let mut app = three();
    app.handle_event(Event::Navigate(Direction::Next));
    app.handle_event(Event::StartSearch);
    assert_eq!(app.state, AppState::SearchEnvironment);
    type_text(&mut app, "zzz");
    let action = app.handle_event(Event::Activate);
    assert_eq!(action, Action::Idle);
    assert_eq!(app.state, AppState::Browse);
    assert_eq!(app.selected_environment, Some(1));
    assert_eq!(app.selected_package, Some(0));
    assert_eq!(app.packages, vec![pkg("requests"), pkg("numpy"), pkg("flask")]);
    assert_eq!(app.environments.len(), 3);
    assert_eq!(app.status_message.as_deref(), Some("No matching environments found"));
    assert!(app.is_well_formed());
}

#[test]
fn search_selects_the_first_match_and_asks_for_its_packages() {
    let mut app = three();
    app.handle_event(Event::StartSearch);
    type_text(&mut app, "GAMMA");
    let action = app.handle_event(Event::Activate);
    assert_eq!(action, Action::LoadPackages("/srv/Gamma".to_string()));
    assert_eq!(app.selected_environment, Some(2));
    assert_eq!(app.status_message.as_deref(), Some("Found 1 matching environments"));
    assert_eq!(app.state, AppState::Browse);
}

#[test]
fn search_ignores_case_and_looks_at_name_and_path() {
    let list = vec![env("alpha", "/envs/alpha"), env("Beta", "/envs/beta"), env("gamma", "/srv/Gamma")];
    assert_eq!(search(&list, "beta"), (Some(1), 1));
    assert_eq!(search(&list, "BETA"), (Some(1), 1));
    assert_eq!(search(&list, "/ENVS/"), (Some(0), 2));
    assert_eq!(search(&list, "a"), (Some(0), 3));
    assert_eq!(search(&list, "srv"), (Some(2), 1));
    assert_eq!(search(&list, "delta"), (None, 0));
    assert_eq!(search(&Vec::new(), "a"), (None, 0));
}

#[test]
fn search_counts_every_match() {
    let mut app = three();
    app.handle_event(Event::StartSearch);
    type_text(&mut app, "envs");
    let action = app.handle_event(Event::Activate);
    assert_eq!(action, Action::LoadPackages("/envs/alpha".to_string()));
    assert_eq!(app.status_message.as_deref(), Some("Found 2 matching environments"));
}

#[test]
fn an_empty_search_returns_to_browsing() {
    let mut app = three();
    app.handle_event(Event::StartSearch);
    assert_eq!(app.handle_event(Event::Activate), Action::Idle);
    assert_eq!(app.state, AppState::Browse);
    assert_eq!(app.status_message, None);
}

#[test]
fn text_modes_clear_the_buffer_and_edit_it() {
    let mut app = three();
    app.handle_event(Event::StartCreate);
    assert_eq!(app.state, AppState::CreateEnvironment);
    type_text(&mut app, "webq");
    assert_eq!(app.input_text, "webq");
    app.handle_event(Event::TextInput(TextEdit::Backspace));
    assert_eq!(app.input_text, "web");
    app.handle_event(Event::Cancel);
    assert_eq!(app.state, AppState::Browse);
    app.handle_event(Event::StartSearch);
    assert_eq!(app.input_text, "");
    app.handle_event(Event::TextInput(TextEdit::Backspace));
    assert_eq!(app.input_text, "");
    type_text(&mut app, "é");
    app.handle_event(Event::Cancel);
    app.handle_event(Event::StartInstall);
    assert_eq!(app.state, AppState::InstallPackage);
    assert_eq!(app.input_text, "");
}

#[test]
fn keys_of_other_modes_mean_nothing_while_text_is_entered() {
    let mut app = three();
    app.handle_event(Event::StartCreate);
    for event in [
        Event::Navigate(Direction::Next),
        Event::ToggleFocus,
        Event::StartDelete,
        Event::Refresh,
        Event::Quit,
        Event::Confirm(true),
        Event::ShowHelp,
        Event::ToggleGlobal,
    ] {
        assert_eq!(app.handle_event(event), Action::Idle);
        assert_eq!(app.state, AppState::CreateEnvironment);
        assert_eq!(app.selected_environment, Some(0));
        assert_eq!(app.focus, Focus::Environments);
    }
}

#[test]
fn creating_an_environment_appends_selects_and_loads() {
    let mut app = three();
    app.handle_event(Event::StartCreate);
    assert_eq!(app.handle_event(Event::Activate), Action::Idle);
    assert_eq!(app.state, AppState::CreateEnvironment);
    type_text(&mut app, "web");
    let action = app.handle_event(Event::Activate);
    assert_eq!(action, Action::CreateEnvironment("web".to_string()));
    assert_eq!(app.state, AppState::Browse);
    let next = app.complete(Outcome::Created(Ok(env("web", "/h/.virtualenvs/web"))));
    assert_eq!(next, Action::LoadPackages("/h/.virtualenvs/web".to_string()));
    assert_eq!(app.environments.len(), 4);
    assert_eq!(app.selected_environment, Some(3));
    assert_eq!(app.status_message.as_deref(), Some("Environment 'web' created successfully"));
    assert_eq!(app.complete(Outcome::PackagesLoaded(vec![pkg("pip")])), Action::Idle);
    assert_eq!(app.packages, vec![pkg("pip")]);
    assert_eq!(app.selected_package, Some(0));
    assert!(app.is_well_formed());
}

#[test]
fn creating_what_is_already_listed_selects_the_listed_entry() {
    let mut app = three();
    let next = app.complete(Outcome::Created(Ok(env("again", "/envs/beta"))));
    assert_eq!(next, Action::LoadPackages("/envs/beta".to_string()));
    assert_eq!(app.environments.len(), 3);
    assert_eq!(app.selected_environment, Some(1));
    assert_eq!(app.environments[1].name, "Beta");
    assert!(app.is_well_formed());
}

#[test]
fn a_failed_creation_posts_the_failure() {
    let mut app = three();
    let next = app.complete(Outcome::Created(Err(Failure::ExecutionFailure(
        "Error: venv exists".to_string(),
    ))));
    assert_eq!(next, Action::Idle);
    assert_eq!(app.environments.len(), 3);
    assert_eq!(
        app.status_message.as_deref(),
        Some("Error creating environment: Error: venv exists")
    );
}

#[test]
fn installing_asks_the_chain_and_reloads_on_success() {
    let mut app = three();
    app.handle_event(Event::ToggleFocus);
    app.handle_event(Event::Navigate(Direction::Next));
    assert_eq!(app.selected_package, Some(1));
    app.handle_event(Event::StartInstall);
    type_text(&mut app, "rich");
    let action = app.handle_event(Event::Activate);
    assert_eq!(
        action,
        Action::InstallPackage { path: "/envs/alpha".to_string(), package: "rich".to_string() }
    );
    assert_eq!(app.state, AppState::Browse);
    let next = app.complete(Outcome::Installed {
        path: "/envs/alpha".to_string(),
        package: "rich".to_string(),
        result: Ok(()),
    });
    assert_eq!(next, Action::LoadPackages("/envs/alpha".to_string()));
    assert_eq!(app.status_message.as_deref(), Some("Package 'rich' installed successfully"));
    assert_eq!(app.selected_package, Some(0));
}

#[test]
fn installing_without_a_package_manager_reports_the_missing_tool() {
    let mut app = three();
    let next = app.complete(Outcome::Installed {
        path: "/envs/alpha".to_string(),
        package: "rich".to_string(),
        result: Err(Failure::ToolMissing),
    });
    assert_eq!(next, Action::Idle);
    assert_eq!(
        app.status_message.as_deref(),
        Some("Error installing package: no package manager found")
    );
}

#[test]
fn an_empty_package_name_installs_nothing() {
    let mut app = three();
    app.handle_event(Event::StartInstall);
    assert_eq!(app.handle_event(Event::Activate), Action::Idle);
    assert_eq!(app.state, AppState::Browse);
}

#[test]
fn uninstalling_keeps_the_position_in_the_list() {
    let mut app = three();
    app.handle_event(Event::ToggleFocus);
    app.handle_event(Event::Navigate(Direction::Previous));
    assert_eq!(app.selected_package, Some(2));
    app.handle_event(Event::StartUninstall);
    assert_eq!(app.state, AppState::UninstallPackageConfirm);
    let action = app.handle_event(Event::Confirm(true));
    assert_eq!(
        action,
        Action::UninstallPackage { path: "/envs/alpha".to_string(), package: "flask".to_string() }
    );
    assert_eq!(app.dialog_state, DialogState::Closed);
    let next = app.complete(Outcome::Uninstalled {
        path: "/envs/alpha".to_string(),
        package: "flask".to_string(),
        result: Ok(()),
    });
    assert_eq!(next, Action::LoadPackages("/envs/alpha".to_string()));
    assert_eq!(app.status_message.as_deref(), Some("Package 'flask' uninstalled successfully"));
    app.complete(Outcome::PackagesLoaded(vec![pkg("requests"), pkg("numpy")]));
    assert_eq!(app.selected_package, Some(1));
    assert!(app.is_well_formed());
}

#[test]
fn a_failed_uninstall_surfaces_the_diagnostic_text() {
    let mut app = three();
    let next = app.complete(Outcome::Uninstalled {
        path: "/envs/alpha".to_string(),
        package: "flask".to_string(),
        result: Err(Failure::ExecutionFailure("WARNING: Skipping flask".to_string())),
    });
    assert_eq!(next, Action::Idle);
    assert_eq!(
        app.status_message.as_deref(),
        Some("Error uninstalling package: WARNING: Skipping flask")
    );
}

#[test]
fn activate_asks_for_the_packages_of_the_selection() {
    let mut app = three();
    app.handle_event(Event::ToggleFocus);
    app.handle_event(Event::Navigate(Direction::Next));
    app.handle_event(Event::ToggleFocus);
    app.handle_event(Event::Navigate(Direction::Next));
    let action = app.handle_event(Event::Activate);
    assert_eq!(action, Action::LoadPackages("/envs/beta".to_string()));
    assert_eq!(app.selected_package, Some(0));
    let mut empty = App::new();
    assert_eq!(empty.handle_event(Event::Activate), Action::Idle);
}

#[test]
fn toggling_the_global_view_asks_for_the_right_listing() {
    let mut app = three();
    assert_eq!(app.handle_event(Event::ToggleGlobal), Action::LoadGlobalPackages);
    assert!(app.show_global_packages);
    app.complete(Outcome::PackagesLoaded(vec![pkg("pip"), pkg("wheel")]));
    assert_eq!(app.selected_package, Some(0));
    assert_eq!(
        app.handle_event(Event::ToggleGlobal),
        Action::LoadPackages("/envs/alpha".to_string())
    );
    assert!(!app.show_global_packages);
    let mut empty = App::new();
    assert_eq!(empty.handle_event(Event::ToggleGlobal), Action::LoadGlobalPackages);
    assert_eq!(empty.handle_event(Event::ToggleGlobal), Action::Idle);
    assert!(!empty.show_global_packages);
}

#[test]
fn an_unavailable_listing_empties_the_list_and_says_so() {
    let mut app = three();
    assert_eq!(app.complete(Outcome::PackagesUnavailable), Action::Idle);
    assert!(app.packages.is_empty());
    assert_eq!(app.selected_package, None);
    assert_eq!(
        app.status_message.as_deref(),
        Some("Error listing packages: no package manager found")
    );
    assert!(app.is_well_formed());
}

#[test]
fn refresh_runs_discovery_and_follows_the_selected_path() {
    let mut app = three();
    app.handle_event(Event::Navigate(Direction::Next));
    assert_eq!(app.handle_event(Event::Refresh), Action::Discover);
    let next = app.complete(Outcome::Discovered(vec![
        env("new", "/envs/new"),
        env("alpha", "/envs/alpha"),
        env("Beta", "/envs/beta"),
        env("dup", "/envs/new"),
    ]));
    assert_eq!(next, Action::Idle);
    assert_eq!(app.environments.len(), 3);
    assert_eq!(app.selected_environment, Some(2));
    assert_eq!(app.status_message.as_deref(), Some("Environments refreshed"));
    app.complete(Outcome::Discovered(vec![env("alpha", "/envs/alpha")]));
    assert_eq!(app.selected_environment, Some(0));
    app.post_status("old".to_string());
    app.complete(Outcome::Discovered(Vec::new()));
    assert_eq!(app.selected_environment, None);
    assert_eq!(app.status_message.as_deref(), Some("old"));
    assert!(app.is_well_formed());
}

#[test]
fn help_opens_and_closes() {
    let mut app = three();
    assert_eq!(app.handle_event(Event::ShowHelp), Action::Idle);
    assert_eq!(app.state, AppState::HelpOverlay);
    assert_eq!(app.handle_event(Event::Quit), Action::Idle);
    assert_eq!(app.handle_event(Event::Navigate(Direction::Next)), Action::Idle);
    assert_eq!(app.selected_environment, Some(0));
    assert_eq!(app.state, AppState::HelpOverlay);
    app.handle_event(Event::ShowHelp);
    assert_eq!(app.state, AppState::Browse);
    app.handle_event(Event::ShowHelp);
    app.handle_event(Event::Cancel);
    assert_eq!(app.state, AppState::Browse);
}

#[test]
fn quit_ends_the_session_only_while_browsing() {
    let mut app = three();
    assert_eq!(app.handle_event(Event::Quit), Action::Quit);
    app.handle_event(Event::StartDelete);
    assert_eq!(app.handle_event(Event::Quit), Action::Idle);
    assert_eq!(app.state, AppState::DeleteEnvironmentConfirm);
}

#[test]
fn browsing_routes_navigation_and_focus() {
    let mut app = three();
    app.handle_event(Event::Navigate(Direction::Next));
    app.handle_event(Event::Navigate(Direction::Next));
    app.handle_event(Event::Navigate(Direction::Next));
    assert_eq!(app.selected_environment, Some(0));
    app.handle_event(Event::Navigate(Direction::Previous));
    assert_eq!(app.selected_environment, Some(2));
    app.handle_event(Event::ToggleFocus);
    assert_eq!(app.focus, Focus::Packages);
    app.handle_event(Event::Navigate(Direction::Previous));
    assert_eq!(app.selected_package, Some(2));
    assert_eq!(app.selected_environment, Some(2));
    for event in [Event::Cancel, Event::Confirm(true), Event::TextInput(TextEdit::Insert('q'))] {
        assert_eq!(app.handle_event(event), Action::Idle);
        assert_eq!(app.state, AppState::Browse);
        assert_eq!(app.input_text, "");
    }
}

#[test]
fn every_step_keeps_the_state_well_formed() {
    let events = [
        Event::Navigate(Direction::Next),
        Event::ToggleFocus,
        Event::StartUninstall,
        Event::Confirm(true),
        Event::StartSearch,
        Event::TextInput(TextEdit::Insert('a')),
        Event::Activate,
        Event::StartDelete,
        Event::Cancel,
        Event::ToggleGlobal,
        Event::ShowHelp,
        Event::Cancel,
        Event::StartCreate,
        Event::TextInput(TextEdit::Backspace),
        Event::Activate,
        Event::Cancel,
        Event::Refresh,
    ];
    let mut app = three();
    for event in events {
        app.handle_event(event);
        assert!(app.is_well_formed(), "after {:?}", event);
        app.tick();
        assert!(app.is_well_formed());
    }
}
