use lazyenv::app::App;
use lazyenv::python::{EnvironmentKind, Package, PythonEnvironment};
use lazyenv::session::{Event, TextEdit};
use lazyenv::view::{environment_line, package_details, package_line, Dialog};

fn env(name: &str, path: &str, kind: EnvironmentKind) -> PythonEnvironment {
    PythonEnvironment {
        name: name.to_string(),
        path: path.to_string(),
        python_version: "Python 3.11.4".to_string(),
        env_type: kind,
    }
}

fn pkg(name: &str, summary: &str) -> Package {
    Package { name: name.to_string(), version: "2.0".to_string(), summary: summary.to_string() }
}

fn session() -> App {
    let mut app = App::new();
    app.load_environments(vec![env("web", "/e/web", EnvironmentKind::Venv)]);
    app.set_packages(vec![pkg("requests", "HTTP for Humans")]);
    app
}

#[test]
fn lines() {
    assert_eq!(
        environment_line(&env("web", "/e/web", EnvironmentKind::Venv)),
        "web (Python 3.11.4) [venv]"
    );
    assert_eq!(
        environment_line(&env("conda: base", "/c", EnvironmentKind::NamedManager)),
        "conda: base (Python 3.11.4) [conda]"
    );
    assert_eq!(
        environment_line(&env("pyenv: 3.8", "/p", EnvironmentKind::VersionManager)),
        "pyenv: 3.8 (Python 3.11.4) [pyenv]"
    );
    assert_eq!(
        environment_line(&env("System Python", "/usr/bin/python", EnvironmentKind::System)),
        "System Python (Python 3.11.4) [system]"
    );
    assert_eq!(package_line(&pkg("requests", "")), "requests (2.0)");
    assert_eq!(
        package_details(&pkg("requests", "HTTP for Humans")),
        "Name: requests\nVersion: 2.0\nSummary: HTTP for Humans"
    );
}

#[test]
fn status_bar() {
    let mut app = App::new();
    assert_eq!(app.status_text(), "No environment selected");
    app = session();
    assert_eq!(app.status_text(), "Environment: web | Path: /e/web");
    app.post_status("Environments refreshed".to_string());
    assert_eq!(app.status_text(), "Environments refreshed");
}

#[test]
fn titles_and_details() {
    let mut app = App::new();
    assert_eq!(app.environments_title(), "Python Environments");
    assert_eq!(app.packages_title(), "Packages");
    assert_eq!(app.details_text(), "No package selected");
    app = session();
    assert_eq!(app.packages_title(), "Packages in web");
    assert_eq!(app.details_text(), "Name: requests\nVersion: 2.0\nSummary: HTTP for Humans");
    app.handle_event(Event::ToggleGlobal);
    assert_eq!(app.environments_title(), "Python Environments (Global Packages)");
    assert_eq!(app.packages_title(), "Global Packages");
}

#[test]
fn hints() {
    let mut app = session();
    assert_eq!(app.hint_text(), "Press 'x' for help | Tab: Switch focus | Enter: View packages");
    app.handle_event(Event::ToggleFocus);
    assert_eq!(app.hint_text(), "Press 'x' for help | Tab: Switch focus");
    app.handle_event(Event::ShowHelp);
    assert_eq!(app.hint_text(), "");
}

#[test]
fn dialogs() {
    let mut app = session();
    assert_eq!(app.dialog(), Dialog::Hidden);
    app.handle_event(Event::StartCreate);
    app.handle_event(Event::TextInput(TextEdit::Insert('x')));
    assert_eq!(
        app.dialog(),
        Dialog::Input {
            title: "Create New Environment".to_string(),
            prompt: "Enter environment name:".to_string(),
            input: "x".to_string(),
        }
    );
    app.handle_event(Event::Cancel);
    app.handle_event(Event::StartInstall);
    assert_eq!(
        app.dialog(),
        Dialog::Input {
            title: "Install Package".to_string(),
            prompt: "Enter package name:".to_string(),
            input: String::new(),
        }
    );
    app.handle_event(Event::Cancel);
    app.handle_event(Event::StartSearch);
    assert_eq!(
        app.dialog(),
        Dialog::Input {
            title: "Search Environments".to_string(),
            prompt: "Enter search term:".to_string(),
            input: String::new(),
        }
    );
    app.handle_event(Event::Cancel);
    app.handle_event(Event::StartDelete);
    assert_eq!(
        app.dialog(),
        Dialog::Question {
            title: "Delete Environment".to_string(),
            message: "Are you sure you want to delete 'web'? (y/n)".to_string(),
        }
    );
    app.handle_event(Event::Cancel);
    app.handle_event(Event::StartUninstall);
    assert_eq!(
        app.dialog(),
        Dialog::Question {
            title: "Uninstall Package".to_string(),
            message: "Are you sure you want to uninstall 'requests'? (y/n)".to_string(),
        }
    );
    app.handle_event(Event::Cancel);
    app.handle_event(Event::ShowHelp);
    assert_eq!(app.dialog(), Dialog::Help);
}
