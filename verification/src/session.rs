//! The session controller: a state machine from the session state and one
//! input event, or one finished piece of outside work, to the next state and
//! the outside work to do next.
//!
//! The controller performs no outside work itself. Each step returns an
//! [`Action`]; whoever drives the session carries it out and hands the
//! result back as an [`Outcome`].

use crate::app::{asks_confirmation, clamped_selection, find_path, first_selection};
use crate::app::{index_of_path, lemma_index_of_path, lemma_navigation_keeps_selection_valid};
use crate::app::lemma_with_environments_wf;
use crate::app::{App, AppModel, AppState, DialogState, Focus};
use crate::detect::{dedup, distinct_paths, has_path};
use crate::failure::{failure_text, Failure, FailureModel};
use crate::python::{EnvironmentModel, Package, PackageModel, PythonEnvironment};
use crate::text::{appended, contains, contains_text, decimal, decimal_text};
use crate::text::{lowercase, lowercase_text};
use vstd::prelude::*;
use vstd::string::StringExecFns;

verus! {

/// The two directions of navigation.
#[derive(Debug, Clone, Copy, PartialEq, Eq, Structural)]
pub enum Direction {
    Next,
    Previous,
}

/// One edit of the pending text.
#[derive(Debug, Clone, Copy, PartialEq, Eq, Structural)]
pub enum TextEdit {
    Insert(char),
    Backspace,
}

/// The input events of a session.
#[derive(Debug, Clone, Copy, PartialEq, Eq, Structural)]
pub enum Event {
    Navigate(Direction),
    ToggleFocus,
    Activate,
    StartCreate,
    StartDelete,
    StartInstall,
    StartUninstall,
    StartSearch,
    ToggleGlobal,
    Refresh,
    ShowHelp,
    Cancel,
    Confirm(bool),
    TextInput(TextEdit),
    Quit,
}

/// The outside work that a step of the session asks for.
#[derive(Debug, PartialEq, Eq)]
pub enum Action {
    /// Nothing to do.
    Idle,
    /// End the session.
    Quit,
    /// Run discovery; answer with [`Outcome::Discovered`].
    Discover,
    /// List the packages of the environment at this path; answer with
    /// [`Outcome::PackagesLoaded`] or [`Outcome::PackagesUnavailable`].
    LoadPackages(String),
    /// List the machine-wide packages; answer as for `LoadPackages`.
    LoadGlobalPackages,
    /// Create an environment of this name; answer with
    /// [`Outcome::Created`].
    CreateEnvironment(String),
    /// Remove the environment at this path; answer with
    /// [`Outcome::Deleted`].
    DeleteEnvironment(String),
    /// Install a package; answer with [`Outcome::Installed`].
    InstallPackage { path: String, package: String },
    /// Uninstall a package; answer with [`Outcome::Uninstalled`].
    UninstallPackage { path: String, package: String },
}

/// The mathematical value of an [`Action`].
pub ghost enum ActionModel {
    Idle,
    Quit,
    Discover,
    LoadPackages(Seq<char>),
    LoadGlobalPackages,
    CreateEnvironment(Seq<char>),
    DeleteEnvironment(Seq<char>),
    InstallPackage { path: Seq<char>, package: Seq<char> },
    UninstallPackage { path: Seq<char>, package: Seq<char> },
}

impl DeepView for Action {
    type V = ActionModel;

    open spec fn deep_view(&self) -> ActionModel {
        match self {
            Action::Idle => ActionModel::Idle,
            Action::Quit => ActionModel::Quit,
            Action::Discover => ActionModel::Discover,
            Action::LoadPackages(path) => ActionModel::LoadPackages(path@),
            Action::LoadGlobalPackages => ActionModel::LoadGlobalPackages,
            Action::CreateEnvironment(name) => ActionModel::CreateEnvironment(name@),
            Action::DeleteEnvironment(path) => ActionModel::DeleteEnvironment(path@),
            Action::InstallPackage { path, package } => ActionModel::InstallPackage {
                path: path@,
                package: package@,
            },
            Action::UninstallPackage { path, package } => ActionModel::UninstallPackage {
                path: path@,
                package: package@,
            },
        }
    }
}

/// The result of a piece of outside work, handed back to the session.
#[derive(Debug, PartialEq, Eq)]
pub enum Outcome {
    /// Discovery ran; the environments it found.
    Discovered(Vec<PythonEnvironment>),
    /// A listing chain found packages.
    PackagesLoaded(Vec<Package>),
    /// No step of a listing chain succeeded.
    PackagesUnavailable,
    /// Creating an environment ended.
    Created(Result<PythonEnvironment, Failure>),
    /// Removing the environment at `path` ended.
    Deleted { path: String, result: Result<(), Failure> },
    /// Installing `package` into the environment at `path` ended.
    Installed { path: String, package: String, result: Result<(), Failure> },
    /// Uninstalling `package` from the environment at `path` ended.
    Uninstalled { path: String, package: String, result: Result<(), Failure> },
}

/// The mathematical value of an [`Outcome`].
pub ghost enum OutcomeModel {
    Discovered(Seq<EnvironmentModel>),
    PackagesLoaded(Seq<PackageModel>),
    PackagesUnavailable,
    Created(Result<EnvironmentModel, FailureModel>),
    Deleted { path: Seq<char>, result: Result<(), FailureModel> },
    Installed { path: Seq<char>, package: Seq<char>, result: Result<(), FailureModel> },
    Uninstalled { path: Seq<char>, package: Seq<char>, result: Result<(), FailureModel> },
}

/// The mathematical value of the result of a mutation.
pub open spec fn verdict_model(result: Result<(), Failure>) -> Result<(), FailureModel> {
    match result {
        Ok(_) => Ok(()),
        Err(failure) => Err(failure.deep_view()),
    }
}

impl DeepView for Outcome {
    type V = OutcomeModel;

    open spec fn deep_view(&self) -> OutcomeModel {
        match self {
            Outcome::Discovered(found) => OutcomeModel::Discovered(found.deep_view()),
            Outcome::PackagesLoaded(packages) => OutcomeModel::PackagesLoaded(packages.deep_view()),
            Outcome::PackagesUnavailable => OutcomeModel::PackagesUnavailable,
            Outcome::Created(result) => OutcomeModel::Created(
                match result {
                    Ok(environment) => Ok(environment.deep_view()),
                    Err(failure) => Err(failure.deep_view()),
                },
            ),
            Outcome::Deleted { path, result } => OutcomeModel::Deleted {
                path: path@,
                result: verdict_model(*result),
            },
            Outcome::Installed { path, package, result } => OutcomeModel::Installed {
                path: path@,
                package: package@,
                result: verdict_model(*result),
            },
            Outcome::Uninstalled { path, package, result } => OutcomeModel::Uninstalled {
                path: path@,
                package: package@,
                result: verdict_model(*result),
            },
        }
    }
}

/// One step of the session: the state it leads to and the work it asks for.
pub ghost struct StepModel {
    pub app: AppModel,
    pub action: ActionModel,
}

/// A step that asks for nothing.
pub open spec fn idle(app: AppModel) -> StepModel {
    StepModel { app, action: ActionModel::Idle }
}

/// Whether an environment matches a search: the query occurs in its name or
/// in its path, letter case ignored.
pub open spec fn matches_query(environment: EnvironmentModel, query: Seq<char>) -> bool {
    ||| contains_text(lowercase_text(environment.name), lowercase_text(query))
    ||| contains_text(lowercase_text(environment.path), lowercase_text(query))
}

/// The index of the first environment that matches a search.
pub open spec fn first_match(list: Seq<EnvironmentModel>, query: Seq<char>) -> Option<usize>
    decreases list.len(),
{
    if list.len() == 0 {
        None
    } else {
        match first_match(list.drop_last(), query) {
            Some(i) => Some(i),
            None => if matches_query(list.last(), query) {
                Some((list.len() - 1) as usize)
            } else {
                None
            },
        }
    }
}

/// The number of environments that match a search.
pub open spec fn match_count(list: Seq<EnvironmentModel>, query: Seq<char>) -> nat
    decreases list.len(),
{
    if list.len() == 0 {
        0
    } else {
        match_count(list.drop_last(), query) + if matches_query(list.last(), query) {
            1nat
        } else {
            0nat
        }
    }
}

/// The status message of a search that found `count` environments.
pub open spec fn found_text(count: nat) -> Seq<char> {
    "Found "@ + decimal_text(count) + " matching environments"@
}

/// The status message of a search that found nothing.
pub open spec fn no_match_text() -> Seq<char> {
    "No matching environments found"@
}

/// The status message after a discovery on request.
pub open spec fn refreshed_text() -> Seq<char> {
    "Environments refreshed"@
}

/// The status message where no step of a listing chain succeeded.
pub open spec fn unavailable_text() -> Seq<char> {
    "Error listing packages: no package manager found"@
}

/// The status message after environment `name` was created.
pub open spec fn created_text(name: Seq<char>) -> Seq<char> {
    "Environment '"@ + name + "' created successfully"@
}

/// The status message after environment `name` was deleted.
pub open spec fn deleted_text(name: Seq<char>) -> Seq<char> {
    "Environment '"@ + name + "' deleted successfully"@
}

/// The status message after package `name` was installed.
pub open spec fn installed_text(name: Seq<char>) -> Seq<char> {
    "Package '"@ + name + "' installed successfully"@
}

/// The status message after package `name` was uninstalled.
pub open spec fn uninstalled_text(name: Seq<char>) -> Seq<char> {
    "Package '"@ + name + "' uninstalled successfully"@
}

/// The status message after creating an environment failed.
pub open spec fn create_failed_text(failure: FailureModel) -> Seq<char> {
    "Error creating environment: "@ + failure_text(failure)
}

/// The status message after deleting an environment failed.
pub open spec fn delete_failed_text(failure: FailureModel) -> Seq<char> {
    "Error deleting environment: "@ + failure_text(failure)
}

/// The status message after installing a package failed.
pub open spec fn install_failed_text(failure: FailureModel) -> Seq<char> {
    "Error installing package: "@ + failure_text(failure)
}

/// The status message after uninstalling a package failed.
pub open spec fn uninstall_failed_text(failure: FailureModel) -> Seq<char> {
    "Error uninstalling package: "@ + failure_text(failure)
}

impl AppModel {
    /// The name of the selected package, if one is selected.
    pub open spec fn selected_package_name(self) -> Option<Seq<char>> {
        match self.selected_package {
            Some(i) => if i < self.packages.len() {
                Some(self.packages[i as int].name)
            } else {
                None
            },
            None => None,
        }
    }

    /// The state with the package selection at the first package.
    pub open spec fn at_first_package(self) -> AppModel {
        AppModel { selected_package: first_selection(self.packages.len()), ..self }
    }

    /// The state in mode `state`, with no question on screen.
    pub open spec fn in_mode(self, state: AppState) -> AppModel {
        AppModel { state, dialog_state: DialogState::Closed, ..self }
    }

    /// The state asking the question of mode `state`.
    pub open spec fn asking(self, state: AppState) -> AppModel {
        AppModel { state, dialog_state: DialogState::Confirm, ..self }
    }

    /// The state in text mode `state`, with the pending text cleared.
    pub open spec fn entering(self, state: AppState) -> AppModel {
        AppModel { state, dialog_state: DialogState::Closed, input_text: Seq::empty(), ..self }
    }

    /// The step that asks for the packages of the selected environment,
    /// with the package selection set back to the first package. Without a
    /// selected environment nothing is asked for.
    pub open spec fn load_selected(self) -> StepModel {
        match self.selected_path() {
            Some(path) => StepModel {
                app: self.at_first_package(),
                action: ActionModel::LoadPackages(path),
            },
            None => idle(self),
        }
    }

    /// The step that an event leads to while browsing.
    pub open spec fn browse(self, event: Event) -> StepModel {
        match event {
            Event::Navigate(Direction::Next) => idle(self.navigated_next(self.focus)),
            Event::Navigate(Direction::Previous) => idle(self.navigated_previous(self.focus)),
            Event::ToggleFocus => idle(self.focus_toggled()),
            Event::Activate => self.load_selected(),
            Event::StartCreate => idle(self.entering(AppState::CreateEnvironment)),
            Event::StartDelete => if self.selected_path() is Some {
                idle(self.asking(AppState::DeleteEnvironmentConfirm))
            } else {
                idle(self)
            },
            Event::StartInstall => if self.selected_path() is Some {
                idle(self.entering(AppState::InstallPackage))
            } else {
                idle(self)
            },
            Event::StartUninstall => if self.selected_path() is Some
                && self.selected_package_name() is Some {
                idle(self.asking(AppState::UninstallPackageConfirm))
            } else {
                idle(self)
            },
            Event::StartSearch => idle(self.entering(AppState::SearchEnvironment)),
            Event::ToggleGlobal => {
                let flipped = AppModel { show_global_packages: !self.show_global_packages, ..self };
                if flipped.show_global_packages {
                    StepModel {
                        app: flipped.at_first_package(),
                        action: ActionModel::LoadGlobalPackages,
                    }
                } else {
                    flipped.load_selected()
                }
            },
            Event::Refresh => StepModel { app: self, action: ActionModel::Discover },
            Event::ShowHelp => idle(self.in_mode(AppState::HelpOverlay)),
            Event::Quit => StepModel { app: self, action: ActionModel::Quit },
            Event::Cancel => idle(self),
            Event::Confirm(_) => idle(self),
            Event::TextInput(_) => idle(self),
        }
    }

    /// The step that an event leads to while the help overlay is shown.
    pub open spec fn help(self, event: Event) -> StepModel {
        match event {
            Event::Cancel => idle(self.in_mode(AppState::Browse)),
            Event::ShowHelp => idle(self.in_mode(AppState::Browse)),
            _ => idle(self),
        }
    }

    /// The step of a search for `query`: the first match becomes selected
    /// and its packages are asked for; without a match only the status
    /// message changes.
    pub open spec fn searched(self, query: Seq<char>) -> StepModel {
        match first_match(self.environments, query) {
            Some(i) => StepModel {
                app: (AppModel {
                    selected_environment: Some(i),
                    ..self
                }).at_first_package().with_status(
                    found_text(match_count(self.environments, query)),
                ),
                action: ActionModel::LoadPackages(self.environments[i as int].path),
            },
            None => idle(self.with_status(no_match_text())),
        }
    }

    /// The step that submitting the pending text leads to.
    pub open spec fn submitted(self) -> StepModel {
        let browsing = self.in_mode(AppState::Browse);
        match self.state {
            AppState::CreateEnvironment => if self.input_text.len() > 0 {
                StepModel { app: browsing, action: ActionModel::CreateEnvironment(self.input_text) }
            } else {
                idle(self)
            },
            AppState::InstallPackage => match self.selected_path() {
                Some(path) => if self.input_text.len() > 0 {
                    StepModel {
                        app: browsing,
                        action: ActionModel::InstallPackage { path, package: self.input_text },
                    }
                } else {
                    idle(browsing)
                },
                None => idle(browsing),
            },
            AppState::SearchEnvironment => if self.input_text.len() > 0 {
                browsing.searched(self.input_text)
            } else {
                idle(browsing)
            },
            _ => idle(self),
        }
    }

    /// The step that an event leads to while text is entered.
    pub open spec fn entering_text(self, event: Event) -> StepModel {
        match event {
            Event::TextInput(TextEdit::Insert(c)) => idle(
                AppModel { input_text: self.input_text.push(c), ..self },
            ),
            Event::TextInput(TextEdit::Backspace) => idle(
                AppModel {
                    input_text: if self.input_text.len() > 0 {
                        self.input_text.drop_last()
                    } else {
                        self.input_text
                    },
                    ..self
                },
            ),
            Event::Cancel => idle(self.in_mode(AppState::Browse)),
            Event::Activate => self.submitted(),
            _ => idle(self),
        }
    }

    /// The step that an event leads to while a question is on screen.
    pub open spec fn confirming(self, event: Event) -> StepModel {
        let browsing = self.in_mode(AppState::Browse);
        match event {
            Event::Confirm(true) => match self.state {
                AppState::DeleteEnvironmentConfirm => match self.selected_path() {
                    Some(path) => StepModel {
                        app: browsing,
                        action: ActionModel::DeleteEnvironment(path),
                    },
                    None => idle(browsing),
                },
                AppState::UninstallPackageConfirm => match (
                    self.selected_path(),
                    self.selected_package_name(),
                ) {
                    (Some(path), Some(package)) => StepModel {
                        app: browsing,
                        action: ActionModel::UninstallPackage { path, package },
                    },
                    _ => idle(browsing),
                },
                _ => idle(self),
            },
            Event::Confirm(false) => idle(browsing),
            Event::Cancel => idle(browsing),
            _ => idle(self),
        }
    }

    /// The step that an input event leads to.
    pub open spec fn after_event(self, event: Event) -> StepModel {
        match self.state {
            AppState::Browse => self.browse(event),
            AppState::HelpOverlay => self.help(event),
            AppState::CreateEnvironment => self.entering_text(event),
            AppState::InstallPackage => self.entering_text(event),
            AppState::SearchEnvironment => self.entering_text(event),
            AppState::DeleteEnvironmentConfirm => self.confirming(event),
            AppState::UninstallPackageConfirm => self.confirming(event),
        }
    }

    /// The state with a created environment taken in: it is appended and
    /// selected, unless its path is in the list already, in which case the
    /// entry that has the path becomes selected.
    pub open spec fn with_created(self, environment: EnvironmentModel) -> AppModel {
        match index_of_path(self.environments, environment.path) {
            Some(i) => AppModel { selected_environment: Some(i), ..self },
            None => AppModel {
                environments: self.environments.push(environment),
                selected_environment: Some(self.environments.len() as usize),
                ..self
            },
        }
    }

    /// The step after the environment at `path` was removed: its entry
    /// leaves the list, and the selection is brought back into the list. An
    /// emptied list empties the package list too; else the packages of the
    /// selected environment are asked for. A path that is not in the list
    /// changes nothing.
    pub open spec fn with_deleted(self, path: Seq<char>) -> StepModel {
        match index_of_path(self.environments, path) {
            Some(i) => {
                let name = self.environments[i as int].name;
                let rest = self.environments.remove(i as int);
                if rest.len() == 0 {
                    idle(
                        (AppModel {
                            environments: rest,
                            selected_environment: None,
                            packages: Seq::empty(),
                            selected_package: None,
                            ..self
                        }).with_status(deleted_text(name)),
                    )
                } else {
                    let selected = clamped_selection(self.selected_environment, rest.len());
                    StepModel {
                        app: (AppModel {
                            environments: rest,
                            selected_environment: selected,
                            ..self
                        }).at_first_package().with_status(deleted_text(name)),
                        action: ActionModel::LoadPackages(rest[selected->Some_0 as int].path),
                    }
                }
            },
            None => idle(self),
        }
    }

    /// The step that a finished piece of outside work leads to.
    pub open spec fn after_outcome(self, outcome: OutcomeModel) -> StepModel {
        match outcome {
            OutcomeModel::Discovered(found) => {
                let loaded = self.with_environments(found);
                idle(
                    if loaded.environments.len() > 0 {
                        loaded.with_status(refreshed_text())
                    } else {
                        loaded
                    },
                )
            },
            OutcomeModel::PackagesLoaded(packages) => idle(self.with_packages(packages)),
            OutcomeModel::PackagesUnavailable => idle(
                self.with_packages(Seq::empty()).with_status(unavailable_text()),
            ),
            OutcomeModel::Created(Ok(environment)) => StepModel {
                app: self.with_created(environment).at_first_package().with_status(
                    created_text(environment.name),
                ),
                action: ActionModel::LoadPackages(environment.path),
            },
            OutcomeModel::Created(Err(failure)) => idle(
                self.with_status(create_failed_text(failure)),
            ),
            OutcomeModel::Deleted { path, result: Ok(_) } => self.with_deleted(path),
            OutcomeModel::Deleted { path, result: Err(failure) } => idle(
                self.with_status(delete_failed_text(failure)),
            ),
            OutcomeModel::Installed { path, package, result: Ok(_) } => StepModel {
                app: self.at_first_package().with_status(installed_text(package)),
                action: ActionModel::LoadPackages(path),
            },
            OutcomeModel::Installed { path, package, result: Err(failure) } => idle(
                self.with_status(install_failed_text(failure)),
            ),
            OutcomeModel::Uninstalled { path, package, result: Ok(_) } => StepModel {
                app: self.with_status(uninstalled_text(package)),
                action: ActionModel::LoadPackages(path),
            },
            OutcomeModel::Uninstalled { path, package, result: Err(failure) } => idle(
                self.with_status(uninstall_failed_text(failure)),
            ),
        }
    }
}

/// What a search finds is exact: the first match is a match and nothing
/// before it is; without a first match nothing matches.
pub proof fn lemma_first_match(list: Seq<EnvironmentModel>, query: Seq<char>)
    requires
        list.len() <= usize::MAX,
    ensures
        match first_match(list, query) {
            Some(i) => {
                &&& i < list.len()
                &&& matches_query(list[i as int], query)
                &&& forall|k: int| 0 <= k < i ==> !matches_query(#[trigger] list[k], query)
                &&& match_count(list, query) >= 1
            },
            None => {
                &&& forall|k: int| 0 <= k < list.len() ==> !matches_query(#[trigger] list[k], query)
                &&& match_count(list, query) == 0
            },
        },
        match_count(list, query) <= list.len(),
    decreases list.len(),
{
    if list.len() > 0 {
        let init = list.drop_last();
        lemma_first_match(init, query);
        match first_match(init, query) {
            Some(i) => {
                assert(list[i as int] == init[i as int]);
                assert forall|k: int| 0 <= k < i implies !matches_query(
                    #[trigger] list[k],
                    query,
                ) by {
                    assert(list[k] == init[k]);
                }
            },
            None => {
                assert forall|k: int| 0 <= k < list.len() - 1 implies !matches_query(
                    #[trigger] list[k],
                    query,
                ) by {
                    assert(list[k] == init[k]);
                }
            },
        }
    }
}

/// A search that matches no environment leaves both selections and both
/// lists as they are, asks for nothing, returns to browsing, and posts the
/// no-match status.
pub proof fn lemma_search_without_match(app: AppModel)
    requires
        app.state == AppState::SearchEnvironment,
        app.input_text.len() > 0,
        app.environments.len() <= usize::MAX,
        forall|k: int|
            0 <= k < app.environments.len() ==> !matches_query(
                #[trigger] app.environments[k],
                app.input_text,
            ),
    ensures
        app.after_event(Event::Activate) == idle(
            app.in_mode(AppState::Browse).with_status(no_match_text()),
        ),
        app.after_event(Event::Activate).app.selected_environment == app.selected_environment,
        app.after_event(Event::Activate).app.selected_package == app.selected_package,
        app.after_event(Event::Activate).app.environments == app.environments,
        app.after_event(Event::Activate).app.packages == app.packages,
        app.after_event(Event::Activate).app.status_message == Some(no_match_text()),
{
    lemma_first_match(app.environments, app.input_text);
}

/// In a list without duplicates, the index found for the path of an entry
/// is the index of that entry.
pub proof fn lemma_index_of_own_path(list: Seq<EnvironmentModel>, i: int)
    requires
        distinct_paths(list),
        0 <= i < list.len() <= usize::MAX,
    ensures
        index_of_path(list, list[i].path) == Some(i as usize),
{
    lemma_index_of_path(list, list[i].path);
    match index_of_path(list, list[i].path) {
        Some(k) => {
            if k < i {
                assert(list[k as int].path != list[i].path);
            }
            if i < k {
                assert(list[i].path != list[k as int].path);
            }
        },
        None => {
            assert(has_path(list, list[i].path));
        },
    }
}

/// Deleting the selected environment removes exactly its entry. The
/// selection stays at the same index, where the entry that followed now
/// stands; it moves to the new last entry where the last entry was deleted;
/// and it is none where the list is emptied.
pub proof fn lemma_delete_selected(app: AppModel, i: usize)
    requires
        app.wf(),
        app.selected_environment == Some(i),
    ensures
        ({
            let step = app.after_outcome(
                OutcomeModel::Deleted { path: app.environments[i as int].path, result: Ok(()) },
            );
            &&& step.app.environments == app.environments.remove(i as int)
            &&& step.app.selected_environment == if app.environments.len() == 1 {
                None
            } else if i + 1 < app.environments.len() {
                Some(i)
            } else {
                Some((i - 1) as usize)
            }
            &&& i + 1 < app.environments.len() ==> step.app.environments[i as int]
                == app.environments[i + 1]
            &&& app.environments.len() == 1 ==> step.action == ActionModel::Idle
            &&& step.app.wf()
        }),
{
    lemma_index_of_own_path(app.environments, i as int);
    lemma_after_outcome_wf(
        app,
        OutcomeModel::Deleted { path: app.environments[i as int].path, result: Ok(()) },
    );
}

/// Removing one entry keeps a list free of duplicates.
pub proof fn lemma_remove_keeps_distinct(list: Seq<EnvironmentModel>, i: int)
    requires
        distinct_paths(list),
        0 <= i < list.len(),
    ensures
        distinct_paths(list.remove(i)),
{
    let rest = list.remove(i);
    assert forall|a: int, b: int| 0 <= a < b < rest.len() implies #[trigger] rest[a].path
        != #[trigger] rest[b].path by {
        let a0 = if a < i {
            a
        } else {
            a + 1
        };
        let b0 = if b < i {
            b
        } else {
            b + 1
        };
        assert(rest[a] == list[a0]);
        assert(rest[b] == list[b0]);
        assert(list[a0].path != list[b0].path);
    }
}

/// Appending an entry whose path is new keeps a list free of duplicates.
pub proof fn lemma_push_keeps_distinct(list: Seq<EnvironmentModel>, entry: EnvironmentModel)
    requires
        distinct_paths(list),
        !has_path(list, entry.path),
    ensures
        distinct_paths(list.push(entry)),
{
    let more = list.push(entry);
    assert forall|a: int, b: int| 0 <= a < b < more.len() implies #[trigger] more[a].path
        != #[trigger] more[b].path by {
        if b == list.len() {
            if more[a].path == more[b].path {
                assert(list[a].path == entry.path);
            }
        } else {
            assert(list[a].path != list[b].path);
        }
    }
}

/// Every input event leads from a well-formed state to a well-formed
/// state.
pub proof fn lemma_after_event_wf(app: AppModel, event: Event)
    requires
        app.wf(),
    ensures
        app.after_event(event).app.wf(),
{
    lemma_navigation_keeps_selection_valid(
        app.selected_environment,
        app.environments.len(),
    );
    lemma_navigation_keeps_selection_valid(app.selected_package, app.packages.len());
    lemma_first_match(app.environments, app.input_text);
}

/// Every finished piece of outside work leads from a well-formed state to a
/// well-formed state, as long as the lists stay within what a machine can
/// hold.
pub proof fn lemma_after_outcome_wf(app: AppModel, outcome: OutcomeModel)
    requires
        app.wf(),
        outcome matches OutcomeModel::Discovered(found) ==> dedup(found).len()
            <= usize::MAX,
        outcome matches OutcomeModel::PackagesLoaded(packages) ==> packages.len() <= usize::MAX,
        outcome is Created ==> app.environments.len() < usize::MAX,
    ensures
        app.after_outcome(outcome).app.wf(),
{
    match outcome {
        OutcomeModel::Discovered(found) => {
            lemma_with_environments_wf(app, found);
        },
        OutcomeModel::Created(Ok(environment)) => {
            lemma_index_of_path(app.environments, environment.path);
            if index_of_path(app.environments, environment.path) is None {
                lemma_push_keeps_distinct(app.environments, environment);
            }
        },
        OutcomeModel::Deleted { path, result: Ok(_) } => {
            lemma_index_of_path(app.environments, path);
            match index_of_path(app.environments, path) {
                Some(i) => {
                    lemma_remove_keeps_distinct(app.environments, i as int);
                },
                None => {},
            }
        },
        _ => {},
    }
}

/// A text made of three parts.
fn three_part(before: &str, middle: &str, after: &str) -> (r: String)
    ensures
        r@ == before@ + middle@ + after@,
{
    let mut out = appended(before, middle);
    out.append(after);
    out
}

/// Whether an environment matches a search whose query, in lower case, is
/// `needle`.
fn environment_matches(environment: &PythonEnvironment, needle: &str, Ghost(query): Ghost<
    Seq<char>,
>) -> (r: bool)
    requires
        needle@ == lowercase_text(query),
    ensures
        r == matches_query(environment.deep_view(), query),
{
    let name = lowercase(environment.name.as_str());
    if contains(name.as_str(), needle) {
        return true;
    }
    let path = lowercase(environment.path.as_str());
    contains(path.as_str(), needle)
}

/// Searches a list of environments: the index of the first match, and the
/// number of matches.
pub fn search(list: &Vec<PythonEnvironment>, query: &str) -> (r: (Option<usize>, usize))
    ensures
        r.0 == first_match(list.deep_view(), query@),
        r.1 == match_count(list.deep_view(), query@),
{
    let needle = lowercase(query);
    let mut first: Option<usize> = None;
    let mut count: usize = 0;
    let mut i: usize = 0;
    assert(list.deep_view().take(0) =~= Seq::empty());
    while i < list.len()
        invariant
            i <= list.len(),
            needle@ == lowercase_text(query@),
            count <= i,
            first == first_match(list.deep_view().take(i as int), query@),
            count == match_count(list.deep_view().take(i as int), query@),
        decreases list.len() - i,
    {
        let ghost upto = list.deep_view().take(i + 1);
        assert(upto.drop_last() =~= list.deep_view().take(i as int));
        assert(upto.last() == list[i as int].deep_view());
        if environment_matches(&list[i], needle.as_str(), Ghost(query@)) {
            count = count + 1;
            if first.is_none() {
                first = Some(i);
            }
        }
        i = i + 1;
    }
    assert(list.deep_view().take(list.len() as int) =~= list.deep_view());
    (first, count)
}

impl App {
    /// The name of the selected package, if one is selected.
    pub fn selected_package_name(&self) -> (r: Option<String>)
        ensures
            r.deep_view() == self@.selected_package_name(),
    {
        match self.selected_package {
            Some(i) => if i < self.packages.len() {
                Some(self.packages[i].name.clone())
            } else {
                None
            },
            None => None,
        }
    }

    /// Sets the package selection back to the first package.
    fn select_first_package(&mut self)
        requires
            old(self).wf(),
        ensures
            final(self).wf(),
            final(self)@ == old(self)@.at_first_package(),
    {
        self.selected_package = if self.packages.len() == 0 {
            None
        } else {
            Some(0)
        };
    }

    /// Asks for the packages of the selected environment.
    fn request_selected_packages(&mut self) -> (r: Action)
        requires
            old(self).wf(),
        ensures
            final(self).wf(),
            (StepModel { app: final(self)@, action: r.deep_view() }) == old(self)@.load_selected(),
    {
        match self.selected_environment_path() {
            Some(path) => {
                self.select_first_package();
                Action::LoadPackages(path)
            },
            None => Action::Idle,
        }
    }

    /// Enters mode `state` with no question on screen.
    fn enter_mode(&mut self, state: AppState)
        requires
            old(self).wf(),
            !asks_confirmation(state),
        ensures
            final(self).wf(),
            final(self)@ == old(self)@.in_mode(state),
    {
        self.state = state;
        self.dialog_state = DialogState::Closed;
    }

    /// Enters the confirmation mode `state` with its question on screen.
    fn ask(&mut self, state: AppState)
        requires
            old(self).wf(),
            asks_confirmation(state),
        ensures
            final(self).wf(),
            final(self)@ == old(self)@.asking(state),
    {
        self.state = state;
        self.dialog_state = DialogState::Confirm;
    }

    /// Enters the text mode `state` with an empty pending text.
    fn enter_text_mode(&mut self, state: AppState)
        requires
            old(self).wf(),
            !asks_confirmation(state),
        ensures
            final(self).wf(),
            final(self)@ == old(self)@.entering(state),
    {
        self.state = state;
        self.dialog_state = DialogState::Closed;
        self.input_text = String::new();
    }

    fn handle_browse(&mut self, event: Event) -> (r: Action)
        requires
            old(self).wf(),
        ensures
            final(self).wf(),
            (StepModel { app: final(self)@, action: r.deep_view() }) == old(self)@.browse(event),
    {
        match event {
            Event::Navigate(Direction::Next) => {
                match self.focus {
                    Focus::Environments => self.next_environment(),
                    Focus::Packages => self.next_package(),
                }
                Action::Idle
            },
            Event::Navigate(Direction::Previous) => {
                match self.focus {
                    Focus::Environments => self.previous_environment(),
                    Focus::Packages => self.previous_package(),
                }
                Action::Idle
            },
            Event::ToggleFocus => {
                self.toggle_focus();
                Action::Idle
            },
            Event::Activate => self.request_selected_packages(),
            Event::StartCreate => {
                self.enter_text_mode(AppState::CreateEnvironment);
                Action::Idle
            },
            Event::StartDelete => {
                if self.selected_environment_index().is_some() {
                    self.ask(AppState::DeleteEnvironmentConfirm);
                }
                Action::Idle
            },
            Event::StartInstall => {
                if self.selected_environment_index().is_some() {
                    self.enter_text_mode(AppState::InstallPackage);
                }
                Action::Idle
            },
            Event::StartUninstall => {
                let package_selected = match self.selected_package {
                    Some(i) => i < self.packages.len(),
                    None => false,
                };
                if self.selected_environment_index().is_some() && package_selected {
                    self.ask(AppState::UninstallPackageConfirm);
                }
                Action::Idle
            },
            Event::StartSearch => {
                self.enter_text_mode(AppState::SearchEnvironment);
                Action::Idle
            },
            Event::ToggleGlobal => {
                self.show_global_packages = !self.show_global_packages;
                if self.show_global_packages {
                    self.select_first_package();
                    Action::LoadGlobalPackages
                } else {
                    self.request_selected_packages()
                }
            },
            Event::Refresh => Action::Discover,
            Event::ShowHelp => {
                self.enter_mode(AppState::HelpOverlay);
                Action::Idle
            },
            Event::Quit => Action::Quit,
            Event::Cancel => Action::Idle,
            Event::Confirm(_) => Action::Idle,
            Event::TextInput(_) => Action::Idle,
        }
    }

    fn handle_help(&mut self, event: Event) -> (r: Action)
        requires
            old(self).wf(),
        ensures
            final(self).wf(),
            (StepModel { app: final(self)@, action: r.deep_view() }) == old(self)@.help(event),
    {
        match event {
            Event::Cancel => {
                self.enter_mode(AppState::Browse);
            },
            Event::ShowHelp => {
                self.enter_mode(AppState::Browse);
            },
            _ => {},
        }
        Action::Idle
    }

    /// Runs a search for `query` over the environment list.
    fn run_search(&mut self, query: &str) -> (r: Action)
        requires
            old(self).wf(),
        ensures
            final(self).wf(),
            (StepModel { app: final(self)@, action: r.deep_view() }) == old(self)@.searched(query@),
    {
        proof {
            lemma_first_match(self.environments.deep_view(), query@);
        }
        let (first, count) = search(&self.environments, query);
        match first {
            Some(i) => {
                let path = self.environments[i].path.clone();
                self.selected_environment = Some(i);
                self.select_first_package();
                let number = decimal(count);
                self.post_status(three_part("Found ", number.as_str(), " matching environments"));
                Action::LoadPackages(path)
            },
            None => {
                self.post_status("No matching environments found".to_owned());
                Action::Idle
            },
        }
    }

    /// Submits the pending text of a text mode.
    fn submit(&mut self) -> (r: Action)
        requires
            old(self).wf(),
        ensures
            final(self).wf(),
            (StepModel { app: final(self)@, action: r.deep_view() }) == old(self)@.submitted(),
    {
        let filled = !self.input_text.as_str().is_empty();
        match self.state {
            AppState::CreateEnvironment => {
                if filled {
                    let name = self.input_text.clone();
                    self.enter_mode(AppState::Browse);
                    Action::CreateEnvironment(name)
                } else {
                    Action::Idle
                }
            },
            AppState::InstallPackage => {
                let target = self.selected_environment_path();
                let package = self.input_text.clone();
                self.enter_mode(AppState::Browse);
                match target {
                    Some(path) => {
                        if filled {
                            Action::InstallPackage { path, package }
                        } else {
                            Action::Idle
                        }
                    },
                    None => Action::Idle,
                }
            },
            AppState::SearchEnvironment => {
                let query = self.input_text.clone();
                self.enter_mode(AppState::Browse);
                if filled {
                    self.run_search(query.as_str())
                } else {
                    Action::Idle
                }
            },
            _ => Action::Idle,
        }
    }

    fn handle_text(&mut self, event: Event) -> (r: Action)
        requires
            old(self).wf(),
        ensures
            final(self).wf(),
            (StepModel { app: final(self)@, action: r.deep_view() }) == old(self)@.entering_text(
                event,
            ),
    {
        match event {
            Event::TextInput(TextEdit::Insert(c)) => {
                self.input_text.push(c);
                Action::Idle
            },
            Event::TextInput(TextEdit::Backspace) => {
                self.input_text.pop();
                Action::Idle
            },
            Event::Cancel => {
                self.enter_mode(AppState::Browse);
                Action::Idle
            },
            Event::Activate => self.submit(),
            _ => Action::Idle,
        }
    }

    fn handle_confirm(&mut self, event: Event) -> (r: Action)
        requires
            old(self).wf(),
        ensures
            final(self).wf(),
            (StepModel { app: final(self)@, action: r.deep_view() }) == old(self)@.confirming(
                event,
            ),
    {
        match event {
            Event::Confirm(yes) => {
                if !yes {
                    self.enter_mode(AppState::Browse);
                    return Action::Idle;
                }
                match self.state {
                    AppState::DeleteEnvironmentConfirm => {
                        let target = self.selected_environment_path();
                        self.enter_mode(AppState::Browse);
                        match target {
                            Some(path) => Action::DeleteEnvironment(path),
                            None => Action::Idle,
                        }
                    },
                    AppState::UninstallPackageConfirm => {
                        let target = self.selected_environment_path();
                        let name = self.selected_package_name();
                        self.enter_mode(AppState::Browse);
                        match target {
                            Some(path) => match name {
                                Some(package) => Action::UninstallPackage { path, package },
                                None => Action::Idle,
                            },
                            None => Action::Idle,
                        }
                    },
                    _ => Action::Idle,
                }
            },
            Event::Cancel => {
                self.enter_mode(AppState::Browse);
                Action::Idle
            },
            _ => Action::Idle,
        }
    }

    /// Takes in one input event: the state moves on as the mode and the
    /// event say, and the outside work that the step asks for is returned.
    /// An event that means nothing in the current mode changes nothing.
    pub fn handle_event(&mut self, event: Event) -> (r: Action)
        requires
            old(self).wf(),
        ensures
            final(self).wf(),
            (StepModel { app: final(self)@, action: r.deep_view() }) == old(self)@.after_event(
                event,
            ),
    {
        match self.state {
            AppState::Browse => self.handle_browse(event),
            AppState::HelpOverlay => self.handle_help(event),
            AppState::CreateEnvironment => self.handle_text(event),
            AppState::InstallPackage => self.handle_text(event),
            AppState::SearchEnvironment => self.handle_text(event),
            AppState::DeleteEnvironmentConfirm => self.handle_confirm(event),
            AppState::UninstallPackageConfirm => self.handle_confirm(event),
        }
    }

    /// Takes in a created environment.
    fn take_created(&mut self, environment: PythonEnvironment)
        requires
            old(self).wf(),
        ensures
            final(self).wf(),
            final(self)@ == old(self)@.with_created(environment.deep_view()),
    {
        proof {
            lemma_index_of_path(self.environments.deep_view(), environment.path@);
        }
        match find_path(&self.environments, environment.path.as_str()) {
            Some(i) => {
                self.selected_environment = Some(i);
            },
            None => {
                let ghost before = self.environments.deep_view();
                proof {
                    lemma_push_keeps_distinct(before, environment.deep_view());
                }
                self.environments.push(environment);
                assert(self.environments.deep_view() =~= before.push(environment.deep_view()));
                self.selected_environment = Some(self.environments.len() - 1);
            },
        }
    }

    /// Takes in that the environment at `path` was removed.
    fn take_deleted(&mut self, path: &str) -> (r: Action)
        requires
            old(self).wf(),
        ensures
            final(self).wf(),
            (StepModel { app: final(self)@, action: r.deep_view() }) == old(self)@.with_deleted(
                path@,
            ),
    {
        proof {
            lemma_index_of_path(self.environments.deep_view(), path@);
        }
        match find_path(&self.environments, path) {
            Some(i) => {
                let ghost before = self.environments.deep_view();
                proof {
                    lemma_remove_keeps_distinct(before, i as int);
                }
                let removed = self.environments.remove(i);
                assert(self.environments.deep_view() =~= before.remove(i as int));
                assert(removed.deep_view() == before[i as int]);
                let text = three_part(
                    "Environment '",
                    removed.name.as_str(),
                    "' deleted successfully",
                );
                let len = self.environments.len();
                if len == 0 {
                    self.selected_environment = None;
                    self.packages = Vec::new();
                    self.selected_package = None;
                    assert(self.packages.deep_view() =~= Seq::empty());
                    self.post_status(text);
                    Action::Idle
                } else {
                    let selected = match self.selected_environment {
                        Some(k) => if k < len {
                            k
                        } else {
                            len - 1
                        },
                        None => 0,
                    };
                    self.selected_environment = Some(selected);
                    self.select_first_package();
                    self.post_status(text);
                    Action::LoadPackages(self.environments[selected].path.clone())
                }
            },
            None => Action::Idle,
        }
    }

    /// Takes in the result of a piece of outside work: the lists, the
    /// selections and the status message are brought up to date, and the
    /// work that follows from it, if any, is returned.
    pub fn complete(&mut self, outcome: Outcome) -> (r: Action)
        requires
            old(self).wf(),
        ensures
            final(self).wf(),
            (StepModel { app: final(self)@, action: r.deep_view() }) == old(self)@.after_outcome(
                outcome.deep_view(),
            ),
    {
        match outcome {
            Outcome::Discovered(found) => {
                self.load_environments(found);
                if self.environments.len() > 0 {
                    self.post_status("Environments refreshed".to_owned());
                }
                Action::Idle
            },
            Outcome::PackagesLoaded(packages) => {
                self.set_packages(packages);
                Action::Idle
            },
            Outcome::PackagesUnavailable => {
                let none: Vec<Package> = Vec::new();
                assert(none.deep_view() =~= Seq::empty());
                self.set_packages(none);
                self.post_status("Error listing packages: no package manager found".to_owned());
                Action::Idle
            },
            Outcome::Created(Ok(environment)) => {
                let path = environment.path.clone();
                let text = three_part(
                    "Environment '",
                    environment.name.as_str(),
                    "' created successfully",
                );
                self.take_created(environment);
                self.select_first_package();
                self.post_status(text);
                Action::LoadPackages(path)
            },
            Outcome::Created(Err(failure)) => {
                let reason = failure.message();
                self.post_status(appended("Error creating environment: ", reason.as_str()));
                Action::Idle
            },
            Outcome::Deleted { path, result: Ok(_) } => self.take_deleted(path.as_str()),
            Outcome::Deleted { path, result: Err(failure) } => {
                let reason = failure.message();
                self.post_status(appended("Error deleting environment: ", reason.as_str()));
                Action::Idle
            },
            Outcome::Installed { path, package, result: Ok(_) } => {
                self.select_first_package();
                self.post_status(
                    three_part("Package '", package.as_str(), "' installed successfully"),
                );
                Action::LoadPackages(path)
            },
            Outcome::Installed { path, package, result: Err(failure) } => {
                let reason = failure.message();
                self.post_status(appended("Error installing package: ", reason.as_str()));
                Action::Idle
            },
            Outcome::Uninstalled { path, package, result: Ok(_) } => {
                self.post_status(
                    three_part("Package '", package.as_str(), "' uninstalled successfully"),
                );
                Action::LoadPackages(path)
            },
            Outcome::Uninstalled { path, package, result: Err(failure) } => {
                let reason = failure.message();
                self.post_status(appended("Error uninstalling package: ", reason.as_str()));
                Action::Idle
            },
        }
    }
}

} // verus!
