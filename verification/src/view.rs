//! The view model: the texts that a renderer shows for a session state.
//!
//! Nothing here draws. Each function says what is to be read on screen; how
//! and where it appears is the renderer's business.

use crate::app::{App, AppModel, AppState, DialogState, Focus};
use crate::python::{kind_label, EnvironmentModel, Package, PackageModel, PythonEnvironment};
use crate::text::appended;
use vstd::prelude::*;
use vstd::string::StringExecFns;

verus! {

/// What is shown on top of the two lists.
#[derive(Debug, PartialEq, Eq)]
pub enum Dialog {
    /// Nothing.
    Hidden,
    /// A line of text being entered.
    Input { title: String, prompt: String, input: String },
    /// A yes-or-no question.
    Question { title: String, message: String },
    /// The help overlay.
    Help,
}

/// The mathematical value of a [`Dialog`].
pub ghost enum DialogModel {
    Hidden,
    Input { title: Seq<char>, prompt: Seq<char>, input: Seq<char> },
    Question { title: Seq<char>, message: Seq<char> },
    Help,
}

impl DeepView for Dialog {
    type V = DialogModel;

    open spec fn deep_view(&self) -> DialogModel {
        match self {
            Dialog::Hidden => DialogModel::Hidden,
            Dialog::Input { title, prompt, input } => DialogModel::Input {
                title: title@,
                prompt: prompt@,
                input: input@,
            },
            Dialog::Question { title, message } => DialogModel::Question {
                title: title@,
                message: message@,
            },
            Dialog::Help => DialogModel::Help,
        }
    }
}

/// The line shown for an environment: its name, its interpreter version and
/// the tag of its kind.
pub open spec fn environment_line_text(environment: EnvironmentModel) -> Seq<char> {
    environment.name + " ("@ + environment.python_version + ") ["@ + kind_label(
        environment.env_type,
    ) + "]"@
}

/// The line shown for a package: its name and its version.
pub open spec fn package_line_text(package: PackageModel) -> Seq<char> {
    package.name + " ("@ + package.version + ")"@
}

/// The details shown for a package.
pub open spec fn package_details_text(package: PackageModel) -> Seq<char> {
    "Name: "@ + package.name + "\nVersion: "@ + package.version + "\nSummary: "@ + package.summary
}

/// The question asked before an environment is deleted.
pub open spec fn delete_question_text(name: Seq<char>) -> Seq<char> {
    "Are you sure you want to delete '"@ + name + "'? (y/n)"@
}

/// The question asked before a package is uninstalled.
pub open spec fn uninstall_question_text(name: Seq<char>) -> Seq<char> {
    "Are you sure you want to uninstall '"@ + name + "'? (y/n)"@
}

impl AppModel {
    /// The selected environment, if one is selected.
    pub open spec fn current_environment(self) -> Option<EnvironmentModel> {
        match self.selected_environment {
            Some(i) => if i < self.environments.len() {
                Some(self.environments[i as int])
            } else {
                None
            },
            None => None,
        }
    }

    /// The selected package, if one is selected.
    pub open spec fn current_package(self) -> Option<PackageModel> {
        match self.selected_package {
            Some(i) => if i < self.packages.len() {
                Some(self.packages[i as int])
            } else {
                None
            },
            None => None,
        }
    }

    /// The text of the status bar: the status message while there is one,
    /// else the selected environment, else a note that none is selected.
    pub open spec fn status_text(self) -> Seq<char> {
        match self.status_message {
            Some(text) => text,
            None => match self.current_environment() {
                Some(environment) => "Environment: "@ + environment.name + " | Path: "@
                    + environment.path,
                None => "No environment selected"@,
            },
        }
    }

    /// The title of the environment list.
    pub open spec fn environments_title(self) -> Seq<char> {
        if self.show_global_packages {
            "Python Environments (Global Packages)"@
        } else {
            "Python Environments"@
        }
    }

    /// The title of the package list.
    pub open spec fn packages_title(self) -> Seq<char> {
        if self.show_global_packages {
            "Global Packages"@
        } else {
            match self.current_environment() {
                Some(environment) => "Packages in "@ + environment.name,
                None => "Packages"@,
            }
        }
    }

    /// The details shown under the package list.
    pub open spec fn details_text(self) -> Seq<char> {
        match self.current_package() {
            Some(package) => package_details_text(package),
            None => "No package selected"@,
        }
    }

    /// The hint shown while browsing; empty in every other mode.
    pub open spec fn hint_text(self) -> Seq<char> {
        if self.state == AppState::Browse {
            if self.focus == Focus::Environments {
                "Press 'x' for help | Tab: Switch focus | Enter: View packages"@
            } else {
                "Press 'x' for help | Tab: Switch focus"@
            }
        } else {
            Seq::empty()
        }
    }

    /// What is shown on top of the lists in each mode. A question is shown
    /// only while it is on screen and its subject is selected.
    pub open spec fn dialog(self) -> DialogModel {
        match self.state {
            AppState::Browse => DialogModel::Hidden,
            AppState::CreateEnvironment => DialogModel::Input {
                title: "Create New Environment"@,
                prompt: "Enter environment name:"@,
                input: self.input_text,
            },
            AppState::InstallPackage => DialogModel::Input {
                title: "Install Package"@,
                prompt: "Enter package name:"@,
                input: self.input_text,
            },
            AppState::SearchEnvironment => DialogModel::Input {
                title: "Search Environments"@,
                prompt: "Enter search term:"@,
                input: self.input_text,
            },
            AppState::DeleteEnvironmentConfirm => match self.current_environment() {
                Some(environment) => if self.dialog_state == DialogState::Confirm {
                    DialogModel::Question {
                        title: "Delete Environment"@,
                        message: delete_question_text(environment.name),
                    }
                } else {
                    DialogModel::Hidden
                },
                None => DialogModel::Hidden,
            },
            AppState::UninstallPackageConfirm => match self.current_package() {
                Some(package) => if self.dialog_state == DialogState::Confirm {
                    DialogModel::Question {
                        title: "Uninstall Package"@,
                        message: uninstall_question_text(package.name),
                    }
                } else {
                    DialogModel::Hidden
                },
                None => DialogModel::Hidden,
            },
            AppState::HelpOverlay => DialogModel::Help,
        }
    }
}

/// The line shown for an environment.
pub fn environment_line(environment: &PythonEnvironment) -> (r: String)
    ensures
        r@ == environment_line_text(environment.deep_view()),
{
    let mut out = appended(environment.name.as_str(), " (");
    out.append(environment.python_version.as_str());
    out.append(") [");
    out.append(environment.env_type.label());
    out.append("]");
    out
}

/// The line shown for a package.
pub fn package_line(package: &Package) -> (r: String)
    ensures
        r@ == package_line_text(package.deep_view()),
{
    let mut out = appended(package.name.as_str(), " (");
    out.append(package.version.as_str());
    out.append(")");
    out
}

/// The details shown for a package.
pub fn package_details(package: &Package) -> (r: String)
    ensures
        r@ == package_details_text(package.deep_view()),
{
    let mut out = appended("Name: ", package.name.as_str());
    out.append("\nVersion: ");
    out.append(package.version.as_str());
    out.append("\nSummary: ");
    out.append(package.summary.as_str());
    out
}

impl App {
    /// The text of the status bar.
    pub fn status_text(&self) -> (r: String)
        ensures
            r@ == self@.status_text(),
    {
        match &self.status_message {
            Some(text) => text.clone(),
            None => match self.selected_environment_index() {
                Some(i) => {
                    let mut out = appended("Environment: ", self.environments[i].name.as_str());
                    out.append(" | Path: ");
                    out.append(self.environments[i].path.as_str());
                    out
                },
                None => "No environment selected".to_owned(),
            },
        }
    }

    /// The title of the environment list.
    pub fn environments_title(&self) -> (r: String)
        ensures
            r@ == self@.environments_title(),
    {
        if self.show_global_packages {
            "Python Environments (Global Packages)".to_owned()
        } else {
            "Python Environments".to_owned()
        }
    }

    /// The title of the package list.
    pub fn packages_title(&self) -> (r: String)
        ensures
            r@ == self@.packages_title(),
    {
        if self.show_global_packages {
            "Global Packages".to_owned()
        } else {
            match self.selected_environment_index() {
                Some(i) => appended("Packages in ", self.environments[i].name.as_str()),
                None => "Packages".to_owned(),
            }
        }
    }

    /// The details shown under the package list.
    pub fn details_text(&self) -> (r: String)
        ensures
            r@ == self@.details_text(),
    {
        match self.selected_package {
            Some(i) => if i < self.packages.len() {
                package_details(&self.packages[i])
            } else {
                "No package selected".to_owned()
            },
            None => "No package selected".to_owned(),
        }
    }

    /// The hint shown while browsing; empty in every other mode.
    pub fn hint_text(&self) -> (r: String)
        ensures
            r@ == self@.hint_text(),
    {
        match self.state {
            AppState::Browse => match self.focus {
                Focus::Environments => "Press 'x' for help | Tab: Switch focus | Enter: View packages".to_owned(),
                Focus::Packages => "Press 'x' for help | Tab: Switch focus".to_owned(),
            },
            _ => String::new(),
        }
    }

    /// What is shown on top of the lists.
    pub fn dialog(&self) -> (r: Dialog)
        ensures
            r.deep_view() == self@.dialog(),
    {
        match self.state {
            AppState::Browse => Dialog::Hidden,
            AppState::CreateEnvironment => Dialog::Input {
                title: "Create New Environment".to_owned(),
                prompt: "Enter environment name:".to_owned(),
                input: self.input_text.clone(),
            },
            AppState::InstallPackage => Dialog::Input {
                title: "Install Package".to_owned(),
                prompt: "Enter package name:".to_owned(),
                input: self.input_text.clone(),
            },
            AppState::SearchEnvironment => Dialog::Input {
                title: "Search Environments".to_owned(),
                prompt: "Enter search term:".to_owned(),
                input: self.input_text.clone(),
            },
            AppState::DeleteEnvironmentConfirm => {
                let asking = match self.dialog_state {
                    DialogState::Confirm => true,
                    DialogState::Closed => false,
                };
                match self.selected_environment_index() {
                    Some(i) => {
                        if asking {
                            let mut message = appended(
                                "Are you sure you want to delete '",
                                self.environments[i].name.as_str(),
                            );
                            message.append("'? (y/n)");
                            Dialog::Question { title: "Delete Environment".to_owned(), message }
                        } else {
                            Dialog::Hidden
                        }
                    },
                    None => Dialog::Hidden,
                }
            },
            AppState::UninstallPackageConfirm => {
                let asking = match self.dialog_state {
                    DialogState::Confirm => true,
                    DialogState::Closed => false,
                };
                match self.selected_package {
                    Some(i) => {
                        if i < self.packages.len() && asking {
                            let mut message = appended(
                                "Are you sure you want to uninstall '",
                                self.packages[i].name.as_str(),
                            );
                            message.append("'? (y/n)");
                            Dialog::Question { title: "Uninstall Package".to_owned(), message }
                        } else {
                            Dialog::Hidden
                        }
                    },
                    None => Dialog::Hidden,
                }
            },
            AppState::HelpOverlay => Dialog::Help,
        }
    }
}

} // verus!
