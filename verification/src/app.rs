//! The session state: the two lists, what is selected in each, the mode, the
//! pending text, and the status message with its remaining lifetime.

use crate::detect::{dedup, dedup_environments, distinct_paths, has_path};
use crate::detect::lemma_dedup_distinct;
use crate::python::{EnvironmentModel, Package, PackageModel, PythonEnvironment};
use crate::text::same_text;
use vstd::arithmetic::div_mod::{lemma_add_mod_noop_right, lemma_mod_add_multiples_vanish};
use vstd::arithmetic::div_mod::{lemma_mod_bound, lemma_small_mod};
use vstd::prelude::*;

verus! {

/// The mode of the session. `Browse` is where a session starts and where
/// every other mode returns to.
#[derive(Debug, Clone, Copy, PartialEq, Eq, Structural)]
pub enum AppState {
    Browse,
    CreateEnvironment,
    DeleteEnvironmentConfirm,
    InstallPackage,
    UninstallPackageConfirm,
    SearchEnvironment,
    HelpOverlay,
}

/// Whether a yes-or-no question is on screen.
#[derive(Debug, Clone, Copy, PartialEq, Eq, Structural)]
pub enum DialogState {
    Closed,
    Confirm,
}

/// Which of the two lists receives navigation.
#[derive(Debug, Clone, Copy, PartialEq, Eq, Structural)]
pub enum Focus {
    Environments,
    Packages,
}

/// The number of ticks a status message stays unless configured otherwise.
pub const DEFAULT_STATUS_LIFETIME: u8 = 20;

/// The whole state of a session.
#[derive(Debug)]
pub struct App {
    pub state: AppState,
    pub dialog_state: DialogState,
    pub environments: Vec<PythonEnvironment>,
    pub selected_environment: Option<usize>,
    pub packages: Vec<Package>,
    pub selected_package: Option<usize>,
    pub focus: Focus,
    pub input_text: String,
    pub status_message: Option<String>,
    /// Ticks that the status message has left; zero without a message.
    pub status_message_timer: u8,
    pub show_global_packages: bool,
    /// Ticks that a newly posted status message stays.
    pub status_lifetime: u8,
}

/// The mathematical value of an [`App`].
pub ghost struct AppModel {
    pub state: AppState,
    pub dialog_state: DialogState,
    pub environments: Seq<EnvironmentModel>,
    pub selected_environment: Option<usize>,
    pub packages: Seq<PackageModel>,
    pub selected_package: Option<usize>,
    pub focus: Focus,
    pub input_text: Seq<char>,
    pub status_message: Option<Seq<char>>,
    pub status_message_timer: u8,
    pub show_global_packages: bool,
    pub status_lifetime: u8,
}

impl View for App {
    type V = AppModel;

    open spec fn view(&self) -> AppModel {
        AppModel {
            state: self.state,
            dialog_state: self.dialog_state,
            environments: self.environments.deep_view(),
            selected_environment: self.selected_environment,
            packages: self.packages.deep_view(),
            selected_package: self.selected_package,
            focus: self.focus,
            input_text: self.input_text@,
            status_message: self.status_message.deep_view(),
            status_message_timer: self.status_message_timer,
            show_global_packages: self.show_global_packages,
            status_lifetime: self.status_lifetime,
        }
    }
}

/// A selection fits a list of `len` entries: none is selected if and only
/// if the list is empty, and a selected index lies inside the list.
pub open spec fn selection_valid(selected: Option<usize>, len: nat) -> bool {
    match selected {
        None => len == 0,
        Some(i) => i < len,
    }
}

/// Whether a mode asks a yes-or-no question.
pub open spec fn asks_confirmation(state: AppState) -> bool {
    state == AppState::DeleteEnvironmentConfirm || state == AppState::UninstallPackageConfirm
}

/// The selection after one step forward in a list of `len` entries: the
/// next index, wrapping to the first; the first index where none was
/// selected; unchanged in an empty list.
pub open spec fn next_index(selected: Option<usize>, len: nat) -> Option<usize> {
    if len == 0 {
        selected
    } else {
        match selected {
            Some(i) => Some(((i + 1) % (len as int)) as usize),
            None => Some(0),
        }
    }
}

/// The selection after one step backward in a list of `len` entries: the
/// index before, wrapping to the last; the last index where none was
/// selected; unchanged in an empty list.
pub open spec fn previous_index(selected: Option<usize>, len: nat) -> Option<usize> {
    if len == 0 {
        selected
    } else {
        match selected {
            Some(i) => Some(((i + len - 1) % (len as int)) as usize),
            None => Some((len - 1) as usize),
        }
    }
}

/// The selection after `steps` steps forward.
pub open spec fn next_index_times(selected: Option<usize>, len: nat, steps: nat) -> Option<usize>
    decreases steps,
{
    if steps == 0 {
        selected
    } else {
        next_index(next_index_times(selected, len, (steps - 1) as nat), len)
    }
}

/// The selection after `steps` steps backward.
pub open spec fn previous_index_times(selected: Option<usize>, len: nat, steps: nat) -> Option<
    usize,
>
    decreases steps,
{
    if steps == 0 {
        selected
    } else {
        previous_index(previous_index_times(selected, len, (steps - 1) as nat), len)
    }
}

/// The selection that a list gets when focus moves to it: none in an empty
/// list, the first entry where none was selected, else what was selected.
pub open spec fn focused_selection(selected: Option<usize>, len: nat) -> Option<usize> {
    if len == 0 {
        None
    } else if selected is None {
        Some(0)
    } else {
        selected
    }
}

/// The selection at the first entry of a list of `len` entries.
pub open spec fn first_selection(len: nat) -> Option<usize> {
    if len == 0 {
        None
    } else {
        Some(0)
    }
}

/// The selection brought back into a list of `len` entries: none in an
/// empty list, the first entry where none was selected, else the selected
/// index or the last index, whichever is smaller.
pub open spec fn clamped_selection(selected: Option<usize>, len: nat) -> Option<usize> {
    if len == 0 {
        None
    } else {
        match selected {
            Some(i) => Some(
                if i < len {
                    i
                } else {
                    (len - 1) as usize
                },
            ),
            None => Some(0),
        }
    }
}

/// The index of the entry of `list` with path `path`, if there is one. In a
/// list without duplicates there is at most one.
pub open spec fn index_of_path(list: Seq<EnvironmentModel>, path: Seq<char>) -> Option<usize>
    decreases list.len(),
{
    if list.len() == 0 {
        None
    } else {
        match index_of_path(list.drop_last(), path) {
            Some(i) => Some(i),
            None => if list.last().path == path {
                Some((list.len() - 1) as usize)
            } else {
                None
            },
        }
    }
}

impl AppModel {
    /// The invariants of a session state.
    pub open spec fn wf(self) -> bool {
        &&& selection_valid(self.selected_environment, self.environments.len())
        &&& selection_valid(self.selected_package, self.packages.len())
        &&& (self.dialog_state == DialogState::Confirm <==> asks_confirmation(self.state))
        &&& (self.status_message is Some <==> self.status_message_timer > 0)
        &&& self.status_message_timer <= self.status_lifetime
        &&& self.status_lifetime >= 1
        &&& distinct_paths(self.environments)
        &&& self.environments.len() <= usize::MAX
        &&& self.packages.len() <= usize::MAX
    }

    /// The state with `text` posted as its status: the message replaces any
    /// current one, and its lifetime starts anew.
    pub open spec fn with_status(self, text: Seq<char>) -> AppModel {
        AppModel {
            status_message: Some(text),
            status_message_timer: self.status_lifetime,
            ..self
        }
    }

    /// The state one tick later: a status message has one tick less to
    /// live, and is cleared when none is left. Nothing else changes.
    pub open spec fn ticked(self) -> AppModel {
        if self.status_message is Some {
            if self.status_message_timer <= 1 {
                AppModel { status_message: None, status_message_timer: 0, ..self }
            } else {
                AppModel {
                    status_message_timer: (self.status_message_timer - 1) as u8,
                    ..self
                }
            }
        } else {
            self
        }
    }

    /// The state `ticks` ticks later.
    pub open spec fn ticked_times(self, ticks: nat) -> AppModel
        decreases ticks,
    {
        if ticks == 0 {
            self
        } else {
            self.ticked_times((ticks - 1) as nat).ticked()
        }
    }

    /// The state after one navigation step forward in the focused list.
    pub open spec fn navigated_next(self, list: Focus) -> AppModel {
        if self.focus != list {
            self
        } else {
            match list {
                Focus::Environments => AppModel {
                    selected_environment: next_index(
                        self.selected_environment,
                        self.environments.len(),
                    ),
                    ..self
                },
                Focus::Packages => AppModel {
                    selected_package: next_index(self.selected_package, self.packages.len()),
                    ..self
                },
            }
        }
    }

    /// The state after one navigation step backward in the focused list.
    pub open spec fn navigated_previous(self, list: Focus) -> AppModel {
        if self.focus != list {
            self
        } else {
            match list {
                Focus::Environments => AppModel {
                    selected_environment: previous_index(
                        self.selected_environment,
                        self.environments.len(),
                    ),
                    ..self
                },
                Focus::Packages => AppModel {
                    selected_package: previous_index(self.selected_package, self.packages.len()),
                    ..self
                },
            }
        }
    }

    /// The state after focus moved to the other list.
    pub open spec fn focus_toggled(self) -> AppModel {
        match self.focus {
            Focus::Environments => AppModel {
                focus: Focus::Packages,
                selected_package: focused_selection(self.selected_package, self.packages.len()),
                ..self
            },
            Focus::Packages => AppModel {
                focus: Focus::Environments,
                selected_environment: focused_selection(
                    self.selected_environment,
                    self.environments.len(),
                ),
                ..self
            },
        }
    }

    /// The state with its package list replaced: the selection is brought
    /// back into the new list.
    pub open spec fn with_packages(self, packages: Seq<PackageModel>) -> AppModel {
        AppModel {
            packages,
            selected_package: clamped_selection(self.selected_package, packages.len()),
            ..self
        }
    }

    /// The path of the selected environment, if one is selected.
    pub open spec fn selected_path(self) -> Option<Seq<char>> {
        match self.selected_environment {
            Some(i) => if i < self.environments.len() {
                Some(self.environments[i as int].path)
            } else {
                None
            },
            None => None,
        }
    }

    /// The state with its environment list replaced by a fresh discovery:
    /// each path is kept once; the selection follows the path that was
    /// selected if it is still there, and else goes to the first entry, or
    /// to none in an empty list.
    pub open spec fn with_environments(self, found: Seq<EnvironmentModel>) -> AppModel {
        let list = dedup(found);
        AppModel {
            environments: list,
            selected_environment: match self.selected_path() {
                Some(path) => match index_of_path(list, path) {
                    Some(i) => Some(i),
                    None => first_selection(list.len()),
                },
                None => first_selection(list.len()),
            },
            ..self
        }
    }
}

/// In a well-formed state, nothing is selected in a list if and only if the
/// list is empty, and a selected index lies inside its list.
pub proof fn lemma_selection_fits(app: AppModel)
    requires
        app.wf(),
    ensures
        app.selected_environment is None <==> app.environments.len() == 0,
        app.selected_environment matches Some(i) ==> i < app.environments.len(),
        app.selected_package is None <==> app.packages.len() == 0,
        app.selected_package matches Some(i) ==> i < app.packages.len(),
{
}

/// Inside a list, a step forward goes to the next index, and from the last
/// index to the first.
pub proof fn lemma_next_index_inside(i: usize, len: nat)
    requires
        i < len <= usize::MAX,
    ensures
        next_index(Some(i), len) == Some(
            if i + 1 == len {
                0usize
            } else {
                (i + 1) as usize
            },
        ),
{
    if i + 1 == len {
        lemma_mod_add_multiples_vanish(0, len as int);
        lemma_small_mod(0, len);
    } else {
        lemma_small_mod((i + 1) as nat, len);
    }
}

/// Inside a list, a step backward goes to the index before, and from the
/// first index to the last.
pub proof fn lemma_previous_index_inside(i: usize, len: nat)
    requires
        i < len <= usize::MAX,
    ensures
        previous_index(Some(i), len) == Some(
            if i == 0 {
                (len - 1) as usize
            } else {
                (i - 1) as usize
            },
        ),
{
    if i == 0 {
        lemma_small_mod((len - 1) as nat, len);
    } else {
        lemma_mod_add_multiples_vanish(i - 1, len as int);
        lemma_small_mod((i - 1) as nat, len);
    }
}

/// Navigation keeps a selection inside its list, and never selects
/// anything in an empty list.
pub proof fn lemma_navigation_keeps_selection_valid(selected: Option<usize>, len: nat)
    requires
        selection_valid(selected, len),
        len <= usize::MAX,
    ensures
        selection_valid(next_index(selected, len), len),
        selection_valid(previous_index(selected, len), len),
        len == 0 ==> next_index(selected, len) is None && previous_index(selected, len) is None,
{
    if len > 0 {
        let i = selected->Some_0;
        lemma_next_index_inside(i, len);
        lemma_previous_index_inside(i, len);
    }
}

/// A step backward undoes a step forward, and a step forward undoes a step
/// backward.
pub proof fn lemma_next_previous_inverse(i: usize, len: nat)
    requires
        i < len <= usize::MAX,
    ensures
        previous_index(next_index(Some(i), len), len) == Some(i),
        next_index(previous_index(Some(i), len), len) == Some(i),
{
    lemma_next_index_inside(i, len);
    lemma_previous_index_inside(i, len);
    let n = next_index(Some(i), len)->Some_0;
    let p = previous_index(Some(i), len)->Some_0;
    lemma_previous_index_inside(n, len);
    lemma_next_index_inside(p, len);
}

/// Stepping forward `steps` times from index `i` of a list of `len` entries
/// arrives at index `(i + steps) mod len`.
pub proof fn lemma_next_index_times(i: usize, len: nat, steps: nat)
    requires
        i < len <= usize::MAX,
    ensures
        next_index_times(Some(i), len, steps) == Some(((i + steps) % (len as int)) as usize),
    decreases steps,
{
    if steps == 0 {
        lemma_small_mod(i as nat, len);
    } else {
        lemma_next_index_times(i, len, (steps - 1) as nat);
        let before = ((i + steps - 1) % (len as int)) as usize;
        assert(0 <= (i + steps - 1) % (len as int) < len) by {
            lemma_mod_bound(i + steps - 1, len as int);
        }
        lemma_add_mod_noop_right(1, i + steps - 1, len as int);
        assert(1 + (i + steps - 1) == i + steps);
        assert((before + 1) % (len as int) == (1 + before) % (len as int));
    }
}

/// Stepping backward `steps` times from index `i` of a list of `len`
/// entries, with `steps` at most `len`, arrives at index
/// `(i + len - steps) mod len`.
pub proof fn lemma_previous_index_times(i: usize, len: nat, steps: nat)
    requires
        i < len <= usize::MAX,
        steps <= len,
    ensures
        previous_index_times(Some(i), len, steps) == Some(
            ((i + len - steps) % (len as int)) as usize,
        ),
    decreases steps,
{
    if steps == 0 {
        lemma_mod_add_multiples_vanish(i as int, len as int);
        lemma_small_mod(i as nat, len);
    } else {
        lemma_previous_index_times(i, len, (steps - 1) as nat);
        let before = ((i + len - (steps - 1)) % (len as int)) as usize;
        assert(0 <= (i + len - (steps - 1)) % (len as int) < len) by {
            lemma_mod_bound(i + len - (steps - 1), len as int);
        }
        lemma_previous_index_inside(before, len);
        lemma_add_mod_noop_right(len - 1, i + len - (steps - 1), len as int);
        assert((len - 1) + (i + len - (steps - 1)) == len + (i + len - steps));
        lemma_mod_add_multiples_vanish(i + len - steps, len as int);
        assert((before + len - 1) % (len as int) == ((len - 1) + before) % (len as int));
    }
}

/// Navigation cycles: `len` steps forward, or `len` steps backward, come
/// back to where they started.
pub proof fn lemma_navigation_wraps(i: usize, len: nat)
    requires
        i < len <= usize::MAX,
    ensures
        next_index_times(Some(i), len, len) == Some(i),
        previous_index_times(Some(i), len, len) == Some(i),
{
    lemma_next_index_times(i, len, len);
    lemma_previous_index_times(i, len, len);
    lemma_mod_add_multiples_vanish(i as int, len as int);
    lemma_small_mod(i as nat, len);
}

/// Navigation reaches every index: from index `i`, index `j` is selected
/// after fewer than `len` steps forward, and after fewer than `len` steps
/// backward.
pub proof fn lemma_navigation_reaches(i: usize, j: usize, len: nat)
    requires
        i < len <= usize::MAX,
        j < len,
    ensures
        next_index_times(Some(i), len, ((j + len - i) % (len as int)) as nat) == Some(j),
        previous_index_times(Some(i), len, ((i + len - j) % (len as int)) as nat) == Some(j),
        (j + len - i) % (len as int) < len,
        (i + len - j) % (len as int) < len,
{
    let m = len as int;
    lemma_mod_bound(j + len - i, m);
    lemma_mod_bound(i + len - j, m);
    let forward = ((j + len - i) % m) as nat;
    let backward = ((i + len - j) % m) as nat;
    lemma_next_index_times(i, len, forward);
    lemma_previous_index_times(i, len, backward);
    if j >= i {
        lemma_mod_add_multiples_vanish(j - i, m);
        lemma_small_mod((j - i) as nat, len);
        assert(forward == j - i);
        lemma_small_mod(j as nat, len);
        if j == i {
            lemma_mod_add_multiples_vanish(0, m);
            lemma_small_mod(0, len);
            assert(backward == 0);
            lemma_mod_add_multiples_vanish(i as int, m);
            lemma_small_mod(i as nat, len);
        } else {
            lemma_small_mod((i + len - j) as nat, len);
            assert(backward == i + len - j);
            assert(i + len - backward == j);
        }
    } else {
        lemma_small_mod((j + len - i) as nat, len);
        assert(forward == j + len - i);
        assert(i + forward == len + j);
        lemma_mod_add_multiples_vanish(j as int, m);
        lemma_small_mod(j as nat, len);
        lemma_mod_add_multiples_vanish(i - j, m);
        lemma_small_mod((i - j) as nat, len);
        assert(backward == i - j);
        assert(i + len - backward == len + j);
    }
}

/// A status message posted with a lifetime of `lifetime` ticks is still
/// there, unchanged, after every smaller number of ticks, and is cleared by
/// the tick that completes the lifetime.
pub proof fn lemma_status_decay(app: AppModel, text: Seq<char>, ticks: nat)
    requires
        app.status_lifetime >= 1,
        ticks <= app.status_lifetime,
    ensures
        ticks < app.status_lifetime ==> app.with_status(text).ticked_times(ticks) == (AppModel {
            status_message_timer: (app.status_lifetime - ticks) as u8,
            ..app.with_status(text)
        }),
        ticks == app.status_lifetime ==> app.with_status(text).ticked_times(ticks) == (AppModel {
            status_message: None,
            status_message_timer: 0,
            ..app
        }),
    decreases ticks,
{
    if ticks > 0 {
        lemma_status_decay(app, text, (ticks - 1) as nat);
    }
}

/// Posting a new status message while another decays replaces it and
/// starts the full lifetime anew.
pub proof fn lemma_status_reset(app: AppModel, first: Seq<char>, second: Seq<char>, ticks: nat)
    requires
        app.status_lifetime >= 1,
        ticks < app.status_lifetime,
    ensures
        app.with_status(first).ticked_times(ticks).with_status(second) == app.with_status(second),
        app.with_status(first).ticked_times(ticks).with_status(second).status_message_timer
            == app.status_lifetime,
{
    lemma_status_decay(app, first, ticks);
}

/// Ticks touch nothing but the status message, and keep a state well
/// formed.
pub proof fn lemma_tick_keeps_wf(app: AppModel)
    requires
        app.wf(),
    ensures
        app.ticked().wf(),
        app.ticked().environments == app.environments,
        app.ticked().packages == app.packages,
        app.ticked().selected_environment == app.selected_environment,
        app.ticked().selected_package == app.selected_package,
        app.ticked().state == app.state,
{
}

/// In a list without duplicates, the index found for a path is the index
/// of the entry that has it.
pub proof fn lemma_index_of_path(list: Seq<EnvironmentModel>, path: Seq<char>)
    requires
        list.len() <= usize::MAX,
    ensures
        match index_of_path(list, path) {
            Some(i) => i < list.len() && list[i as int].path == path,
            None => !has_path(list, path),
        },
    decreases list.len(),
{
    if list.len() > 0 {
        let init = list.drop_last();
        lemma_index_of_path(init, path);
        match index_of_path(init, path) {
            Some(i) => {
                assert(list[i as int] == init[i as int]);
            },
            None => {
                if list.last().path != path {
                    if has_path(list, path) {
                        let k = choose|k: int| 0 <= k < list.len() && #[trigger] list[k].path == path;
                        assert(init[k].path == path);
                    }
                }
            },
        }
    }
}

/// Replacing the environment list keeps a state well formed.
pub proof fn lemma_with_environments_wf(app: AppModel, found: Seq<EnvironmentModel>)
    requires
        app.wf(),
        dedup(found).len() <= usize::MAX,
    ensures
        app.with_environments(found).wf(),
{
    lemma_dedup_distinct(found);
    let list = dedup(found);
    match app.selected_path() {
        Some(path) => {
            lemma_index_of_path(list, path);
        },
        None => {},
    }
}

impl App {
    /// The invariants of a session state: each selection fits its list, a
    /// question is on screen exactly in the modes that ask one, a status
    /// message is present exactly while it has ticks left, and no two
    /// environments share a path.
    pub open spec fn wf(&self) -> bool {
        self@.wf()
    }

    /// A new session: browsing, both lists empty, nothing selected, no
    /// status message, focus on the environments.
    pub fn new() -> (r: Self)
        ensures
            r.wf(),
            r@ == (AppModel {
                state: AppState::Browse,
                dialog_state: DialogState::Closed,
                environments: Seq::empty(),
                selected_environment: None,
                packages: Seq::empty(),
                selected_package: None,
                focus: Focus::Environments,
                input_text: Seq::empty(),
                status_message: None,
                status_message_timer: 0,
                show_global_packages: false,
                status_lifetime: DEFAULT_STATUS_LIFETIME,
            }),
    {
        let r = App {
            state: AppState::Browse,
            dialog_state: DialogState::Closed,
            environments: Vec::new(),
            selected_environment: None,
            packages: Vec::new(),
            selected_package: None,
            focus: Focus::Environments,
            input_text: String::new(),
            status_message: None,
            status_message_timer: 0,
            show_global_packages: false,
            status_lifetime: DEFAULT_STATUS_LIFETIME,
        };
        assert(r.environments.deep_view() =~= Seq::empty());
        assert(r.packages.deep_view() =~= Seq::empty());
        r
    }

    /// A new session whose status messages stay for `lifetime` ticks; a
    /// lifetime of zero is raised to one tick.
    pub fn with_status_lifetime(lifetime: u8) -> (r: Self)
        ensures
            r.wf(),
            r@ == (AppModel {
                status_lifetime: if lifetime == 0 {
                    1u8
                } else {
                    lifetime
                },
                ..App::new_model()
            }),
    {
        let mut r = App::new();
        r.status_lifetime = if lifetime == 0 {
            1
        } else {
            lifetime
        };
        r
    }

    /// The value of a new session.
    pub open spec fn new_model() -> AppModel {
        AppModel {
            state: AppState::Browse,
            dialog_state: DialogState::Closed,
            environments: Seq::empty(),
            selected_environment: None,
            packages: Seq::empty(),
            selected_package: None,
            focus: Focus::Environments,
            input_text: Seq::empty(),
            status_message: None,
            status_message_timer: 0,
            show_global_packages: false,
            status_lifetime: DEFAULT_STATUS_LIFETIME,
        }
    }

    /// Whether this state meets the invariants of a session state.
    pub fn is_well_formed(&self) -> (r: bool)
        ensures
            r == self.wf(),
    {
        let environments_fit = match self.selected_environment {
            None => self.environments.len() == 0,
            Some(i) => i < self.environments.len(),
        };
        let packages_fit = match self.selected_package {
            None => self.packages.len() == 0,
            Some(i) => i < self.packages.len(),
        };
        let asks = match self.state {
            AppState::DeleteEnvironmentConfirm | AppState::UninstallPackageConfirm => true,
            _ => false,
        };
        let dialog_fits = match self.dialog_state {
            DialogState::Confirm => asks,
            DialogState::Closed => !asks,
        };
        let status_fits = self.status_message.is_some() == (self.status_message_timer > 0)
            && self.status_message_timer <= self.status_lifetime && self.status_lifetime >= 1;
        let distinct = all_paths_distinct(&self.environments);
        environments_fit && packages_fit && dialog_fits && status_fits && distinct
    }

    /// Moves the environment selection one step forward, wrapping at the
    /// end. Nothing happens unless the environment list has focus, and
    /// nothing happens in an empty list.
    pub fn next_environment(&mut self)
        ensures
            final(self)@ == old(self)@.navigated_next(Focus::Environments),
            old(self).wf() ==> final(self).wf(),
    {
        if self.focus != Focus::Environments {
            return ;
        }
        let len = self.environments.len();
        self.selected_environment = step_forward(self.selected_environment, len);
        proof {
            if old(self).wf() {
                lemma_navigation_keeps_selection_valid(old(self).selected_environment, len as nat);
            }
        }
    }

    /// Moves the environment selection one step backward, wrapping at the
    /// start. Nothing happens unless the environment list has focus, and
    /// nothing happens in an empty list.
    pub fn previous_environment(&mut self)
        ensures
            final(self)@ == old(self)@.navigated_previous(Focus::Environments),
            old(self).wf() ==> final(self).wf(),
    {
        if self.focus != Focus::Environments {
            return ;
        }
        let len = self.environments.len();
        self.selected_environment = step_backward(self.selected_environment, len);
        proof {
            if old(self).wf() {
                lemma_navigation_keeps_selection_valid(old(self).selected_environment, len as nat);
            }
        }
    }

    /// Moves the package selection one step forward, wrapping at the end.
    /// Nothing happens unless the package list has focus, and nothing
    /// happens in an empty list.
    pub fn next_package(&mut self)
        ensures
            final(self)@ == old(self)@.navigated_next(Focus::Packages),
            old(self).wf() ==> final(self).wf(),
    {
        if self.focus != Focus::Packages {
            return ;
        }
        let len = self.packages.len();
        self.selected_package = step_forward(self.selected_package, len);
        proof {
            if old(self).wf() {
                lemma_navigation_keeps_selection_valid(old(self).selected_package, len as nat);
            }
        }
    }

    /// Moves the package selection one step backward, wrapping at the
    /// start. Nothing happens unless the package list has focus, and
    /// nothing happens in an empty list.
    pub fn previous_package(&mut self)
        ensures
            final(self)@ == old(self)@.navigated_previous(Focus::Packages),
            old(self).wf() ==> final(self).wf(),
    {
        if self.focus != Focus::Packages {
            return ;
        }
        let len = self.packages.len();
        self.selected_package = step_backward(self.selected_package, len);
        proof {
            if old(self).wf() {
                lemma_navigation_keeps_selection_valid(old(self).selected_package, len as nat);
            }
        }
    }

    /// Moves focus to the other list. If that list is not empty and has
    /// nothing selected, its first entry becomes selected; if it is empty,
    /// nothing is selected in it.
    pub fn toggle_focus(&mut self)
        ensures
            final(self)@ == old(self)@.focus_toggled(),
            old(self).wf() ==> final(self).wf(),
    {
        match self.focus {
            Focus::Environments => {
                self.focus = Focus::Packages;
                if self.packages.len() == 0 {
                    self.selected_package = None;
                } else if self.selected_package.is_none() {
                    self.selected_package = Some(0);
                }
            },
            Focus::Packages => {
                self.focus = Focus::Environments;
                if self.environments.len() == 0 {
                    self.selected_environment = None;
                } else if self.selected_environment.is_none() {
                    self.selected_environment = Some(0);
                }
            },
        }
    }

    /// Posts a status message. It replaces any current one, and stays for
    /// the configured number of ticks.
    pub fn post_status(&mut self, text: String)
        requires
            old(self).wf(),
        ensures
            final(self).wf(),
            final(self)@ == old(self)@.with_status(text@),
    {
        self.status_message = Some(text);
        self.status_message_timer = self.status_lifetime;
    }

    /// Advances the clock by one tick: a status message loses one tick of
    /// its lifetime, and is cleared when none is left.
    pub fn tick(&mut self)
        requires
            old(self).wf(),
        ensures
            final(self).wf(),
            final(self)@ == old(self)@.ticked(),
    {
        if self.status_message.is_some() {
            if self.status_message_timer <= 1 {
                self.status_message = None;
                self.status_message_timer = 0;
            } else {
                self.status_message_timer = self.status_message_timer - 1;
            }
        }
    }

    /// The index of the selected environment, if one is selected.
    pub fn selected_environment_index(&self) -> (r: Option<usize>)
        ensures
            r == match self.selected_environment {
                Some(i) => if i < self.environments.len() {
                    Some(i)
                } else {
                    None
                },
                None => None,
            },
    {
        match self.selected_environment {
            Some(i) => if i < self.environments.len() {
                Some(i)
            } else {
                None
            },
            None => None,
        }
    }

    /// The path of the selected environment, if one is selected.
    pub fn selected_environment_path(&self) -> (r: Option<String>)
        ensures
            r.deep_view() == self@.selected_path(),
    {
        match self.selected_environment_index() {
            Some(i) => Some(self.environments[i].path.clone()),
            None => None,
        }
    }

    /// Replaces the package list. The selection is brought back into the
    /// new list: none in an empty list, the first entry where none was
    /// selected, else the selected index or the last, whichever is smaller.
    pub fn set_packages(&mut self, packages: Vec<Package>)
        requires
            old(self).wf(),
        ensures
            final(self).wf(),
            final(self)@ == old(self)@.with_packages(packages.deep_view()),
    {
        let len = packages.len();
        self.selected_package = if len == 0 {
            None
        } else {
            match self.selected_package {
                Some(i) => Some(
                    if i < len {
                        i
                    } else {
                        len - 1
                    },
                ),
                None => Some(0),
            }
        };
        self.packages = packages;
    }

    /// Replaces the environment list by a fresh discovery. Each path is
    /// kept once, first seen wins. The selection follows the path that was
    /// selected if it is still there; else it goes to the first entry, or
    /// to none in an empty list.
    pub fn load_environments(&mut self, found: Vec<PythonEnvironment>)
        requires
            old(self).wf(),
        ensures
            final(self).wf(),
            final(self)@ == old(self)@.with_environments(found.deep_view()),
    {
        let list = dedup_environments(&found);
        let first = if list.len() == 0 {
            None
        } else {
            Some(0)
        };
        let selection = match self.selected_environment_path() {
            Some(path) => match find_path(&list, path.as_str()) {
                Some(i) => Some(i),
                None => first,
            },
            None => first,
        };
        proof {
            lemma_with_environments_wf(old(self)@, found.deep_view());
        }
        self.selected_environment = selection;
        self.environments = list;
    }
}

/// One step forward in a list of `len` entries.
fn step_forward(selected: Option<usize>, len: usize) -> (r: Option<usize>)
    ensures
        r == next_index(selected, len as nat),
{
    if len == 0 {
        return selected;
    }
    match selected {
        Some(i) => {
            let inside = i % len;
            proof {
                lemma_add_mod_noop_right(1, i as int, len as int);
                assert((1 + inside) % (len as int) == (inside + 1) % (len as int));
                assert((1 + i) % (len as int) == (i + 1) % (len as int));
                lemma_mod_bound(i + 1, len as int);
            }
            Some((inside + 1) % len)
        },
        None => Some(0),
    }
}

/// One step backward in a list of `len` entries.
fn step_backward(selected: Option<usize>, len: usize) -> (r: Option<usize>)
    ensures
        r == previous_index(selected, len as nat),
{
    if len == 0 {
        return selected;
    }
    match selected {
        Some(i) => {
            let inside = i % len;
            proof {
                lemma_add_mod_noop_right(len - 1, i as int, len as int);
                assert((len - 1) + i == i + len - 1);
                if inside == 0 {
                    lemma_small_mod((len - 1) as nat, len as nat);
                } else {
                    assert((len - 1) + inside == len + (inside - 1));
                    lemma_mod_add_multiples_vanish(inside - 1, len as int);
                    lemma_small_mod((inside - 1) as nat, len as nat);
                }
            }
            Some(
                if inside == 0 {
                    len - 1
                } else {
                    inside - 1
                },
            )
        },
        None => Some(len - 1),
    }
}

/// The index of the entry of `list` with path `path`, if there is one.
pub fn find_path(list: &Vec<PythonEnvironment>, path: &str) -> (r: Option<usize>)
    ensures
        r == index_of_path(list.deep_view(), path@),
{
    let mut i: usize = 0;
    assert(list.deep_view().take(0) =~= Seq::empty());
    while i < list.len()
        invariant
            i <= list.len(),
            index_of_path(list.deep_view().take(i as int), path@) is None,
        decreases list.len() - i,
    {
        let ghost upto = list.deep_view().take(i + 1);
        assert(upto.drop_last() =~= list.deep_view().take(i as int));
        assert(upto.last() == list[i as int].deep_view());
        if same_text(list[i].path.as_str(), path) {
            proof {
                lemma_index_of_path_settles(list.deep_view(), path@, i + 1);
            }
            return Some(i);
        }
        i = i + 1;
    }
    assert(list.deep_view().take(list.len() as int) =~= list.deep_view());
    None
}

/// Once a prefix of a list holds a path, the index found in the whole list
/// is the index found in the prefix.
proof fn lemma_index_of_path_settles(list: Seq<EnvironmentModel>, path: Seq<char>, n: int)
    requires
        0 <= n <= list.len(),
        index_of_path(list.take(n), path) is Some,
    ensures
        index_of_path(list, path) == index_of_path(list.take(n), path),
    decreases list.len() - n,
{
    if n == list.len() {
        assert(list.take(n) =~= list);
    } else {
        let next = list.take(n + 1);
        assert(next.drop_last() =~= list.take(n));
        lemma_index_of_path_settles(list, path, n + 1);
    }
}

/// Whether no two entries of `list` have the same path.
pub fn all_paths_distinct(list: &Vec<PythonEnvironment>) -> (r: bool)
    ensures
        r == distinct_paths(list.deep_view()),
{
    let mut j: usize = 0;
    while j < list.len()
        invariant
            j <= list.len(),
            forall|a: int, b: int|
                0 <= a < b < j ==> #[trigger] list.deep_view()[a].path
                    != #[trigger] list.deep_view()[b].path,
        decreases list.len() - j,
    {
        let mut i: usize = 0;
        while i < j
            invariant
                i <= j < list.len(),
                forall|a: int| 0 <= a < i ==> #[trigger] list.deep_view()[a].path
                    != list.deep_view()[j as int].path,
            decreases j - i,
        {
            if same_text(list[i].path.as_str(), list[j].path.as_str()) {
                assert(list.deep_view()[i as int].path == list.deep_view()[j as int].path);
                return false;
            }
            i = i + 1;
        }
        j = j + 1;
    }
    true
}

} // verus!
