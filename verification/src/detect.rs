//! Discovering environments: where to look, what makes a directory an
//! environment, how a record is made from what was observed, and how the
//! candidates of all sources are merged into one list without duplicates.

use crate::failure::Failure;
use crate::json::{decode_text_list, json_text_list};
use crate::paths::{file_name, file_name_text, join, joined, Layout};
use crate::process::{clean_report, report, reported_text, words2, words3};
use crate::process::{Invocation, InvocationModel, RunModel, RunOutcome};
use crate::python::{EnvironmentKind, EnvironmentModel, PythonEnvironment};
use crate::text::{appended, same_text, trim, trim_text};
use vstd::prelude::*;

verus! {

/// `dirs::home_dir`, as text. The answer depends on the user and the
/// machine, so nothing is claimed of it.
#[verifier::external_body]
fn home_directory() -> (r: Option<String>) {
    dirs::home_dir().map(|p| p.to_string_lossy().into_owned())
}

/// The directory under which the user's files are looked for: `home` where
/// it is known, else the current directory.
pub open spec fn home_or_here(home: Option<Seq<char>>) -> Seq<char> {
    match home {
        Some(dir) => dir,
        None => "."@,
    }
}

/// The directory under which the user's files are looked for, given the
/// home directory if one is known.
pub fn home_or_current(home: Option<String>) -> (r: String)
    ensures
        r@ == home_or_here(home.deep_view()),
{
    match home {
        Some(dir) => dir,
        None => ".".to_owned(),
    }
}

/// The directory under which this user's files are looked for. Which
/// directory that is depends on the user and the machine; whatever it is, it
/// is what [`home_or_current`] makes of the system's answer.
pub fn user_home() -> (r: String) {
    home_or_current(home_directory())
}

/// The container directory of the user's virtual environments.
pub open spec fn virtualenvs_root_text(home: Seq<char>, layout: Layout) -> Seq<char> {
    joined(home, ".virtualenvs"@, layout)
}

/// The user's single default virtual environment.
pub open spec fn home_venv_text(home: Seq<char>, layout: Layout) -> Seq<char> {
    joined(home, ".venv"@, layout)
}

/// The directory under which the version manager keeps its installs.
pub open spec fn pyenv_versions_root_text(home: Seq<char>, layout: Layout) -> Seq<char> {
    joined(joined(home, ".pyenv"@, layout), "versions"@, layout)
}

/// The interpreter of a version-manager install or of a named environment.
pub open spec fn managed_interpreter_text(dir: Seq<char>, layout: Layout) -> Seq<char> {
    joined(joined(dir, "bin"@, layout), "python"@, layout)
}

/// The interpreter of a named environment that keeps it at its root.
pub open spec fn root_interpreter_text(dir: Seq<char>, layout: Layout) -> Seq<char> {
    joined(dir, "python.exe"@, layout)
}

/// The container directory of the user's virtual environments.
pub fn virtualenvs_root(home: &str, layout: Layout) -> (r: String)
    ensures
        r@ == virtualenvs_root_text(home@, layout),
{
    join(home, ".virtualenvs", layout)
}

/// The user's single default virtual environment.
pub fn home_venv(home: &str, layout: Layout) -> (r: String)
    ensures
        r@ == home_venv_text(home@, layout),
{
    join(home, ".venv", layout)
}

/// The directory under which the version manager keeps its installs.
pub fn pyenv_versions_root(home: &str, layout: Layout) -> (r: String)
    ensures
        r@ == pyenv_versions_root_text(home@, layout),
{
    let base = join(home, ".pyenv", layout);
    join(base.as_str(), "versions", layout)
}

/// The interpreter of a version-manager install or of a named environment.
pub fn managed_interpreter(dir: &str, layout: Layout) -> (r: String)
    ensures
        r@ == managed_interpreter_text(dir@, layout),
{
    let bin = join(dir, "bin", layout);
    join(bin.as_str(), "python", layout)
}

/// The interpreter of a named environment that keeps it at its root.
pub fn root_interpreter(dir: &str, layout: Layout) -> (r: String)
    ensures
        r@ == root_interpreter_text(dir@, layout),
{
    join(dir, "python.exe", layout)
}

/// The query for an interpreter's version.
pub open spec fn version_query(program: Seq<char>) -> InvocationModel {
    InvocationModel { program, args: seq!["--version"@] }
}

/// The query for the location of an interpreter's own executable.
pub open spec fn location_query(program: Seq<char>) -> InvocationModel {
    InvocationModel { program, args: seq!["-c"@, "import sys; print(sys.executable)"@] }
}

/// The query for the registry of named environments.
pub open spec fn registry_query() -> InvocationModel {
    InvocationModel { program: "conda"@, args: seq!["env"@, "list"@, "--json"@] }
}

/// The query for an interpreter's version.
pub fn version_invocation(program: &str) -> (r: Invocation)
    ensures
        r.deep_view() == version_query(program@),
{
    let mut args: Vec<String> = Vec::new();
    args.push("--version".to_owned());
    assert(args.deep_view() =~= seq!["--version"@]);
    Invocation { program: program.to_owned(), args }
}

/// The query for the location of an interpreter's own executable.
pub fn location_invocation(program: &str) -> (r: Invocation)
    ensures
        r.deep_view() == location_query(program@),
{
    Invocation {
        program: program.to_owned(),
        args: words2("-c", "import sys; print(sys.executable)"),
    }
}

/// The query for the registry of named environments.
pub fn registry_invocation() -> (r: Invocation)
    ensures
        r.deep_view() == registry_query(),
{
    Invocation { program: "conda".to_owned(), args: words3("env", "list", "--json") }
}

/// What was observed of one directory: whether it holds an interpreter and
/// an activation script at the places its layout gives them, and what the
/// version query of its interpreter led to.
#[derive(Debug, PartialEq, Eq)]
pub struct DirectoryProbe {
    pub path: String,
    pub has_interpreter: bool,
    pub has_activation: bool,
    pub version: RunOutcome,
}

/// The mathematical value of a [`DirectoryProbe`].
pub ghost struct ProbeModel {
    pub path: Seq<char>,
    pub has_interpreter: bool,
    pub has_activation: bool,
    pub version: RunModel,
}

impl DeepView for DirectoryProbe {
    type V = ProbeModel;

    open spec fn deep_view(&self) -> ProbeModel {
        ProbeModel {
            path: self.path@,
            has_interpreter: self.has_interpreter,
            has_activation: self.has_activation,
            version: self.version.deep_view(),
        }
    }
}

/// A directory holds a usable virtual environment only if it holds both an
/// interpreter and an activation script.
pub open spec fn holds_virtualenv(has_interpreter: bool, has_activation: bool) -> bool {
    has_interpreter && has_activation
}

/// Whether a directory holds a usable virtual environment, given what was
/// found at the two places where its layout keeps the interpreter and the
/// activation script.
pub fn is_virtualenv(has_interpreter: bool, has_activation: bool) -> (r: bool)
    ensures
        r == holds_virtualenv(has_interpreter, has_activation),
{
    has_interpreter && has_activation
}

/// The version recorded for a virtual environment: what its interpreter
/// reported, `Unknown` where the interpreter exited unsuccessfully, and
/// nothing where it could not be started.
pub open spec fn directory_version(version: RunModel) -> Option<Seq<char>> {
    match version {
        RunModel::NotStarted => None,
        RunModel::Exited { success, stdout, stderr } => Some(
            if success {
                reported_text(stdout, stderr)
            } else {
                "Unknown"@
            },
        ),
    }
}

/// The record of the environment in directory `dir`: named after the
/// directory, with the version its interpreter gave. There is none where
/// the directory has no name or the interpreter could not be started.
pub open spec fn directory_environment(
    dir: Seq<char>,
    kind: EnvironmentKind,
    layout: Layout,
    version: RunModel,
) -> Option<EnvironmentModel> {
    match (file_name_text(dir, layout), directory_version(version)) {
        (Some(name), Some(python_version)) => Some(
            EnvironmentModel { name, path: dir, python_version, env_type: kind },
        ),
        _ => None,
    }
}

/// The prefix that the name of a managed environment carries.
pub open spec fn managed_prefix(kind: EnvironmentKind) -> Seq<char> {
    match kind {
        EnvironmentKind::VersionManager => "pyenv: "@,
        EnvironmentKind::NamedManager => "conda: "@,
        _ => Seq::empty(),
    }
}

/// The record of a version-manager install or of a named environment in
/// directory `dir`. There is one only where the interpreter reported its
/// version and exited cleanly.
pub open spec fn managed_environment(
    dir: Seq<char>,
    kind: EnvironmentKind,
    layout: Layout,
    version: RunModel,
) -> Option<EnvironmentModel> {
    match clean_report(version) {
        Some(python_version) => Some(
            EnvironmentModel {
                name: managed_prefix(kind) + match file_name_text(dir, layout) {
                    Some(name) => name,
                    None => Seq::empty(),
                },
                path: dir,
                python_version,
                env_type: kind,
            },
        ),
        None => None,
    }
}

/// The candidate that one observed directory gives to the source of `kind`.
/// Virtual environments need both markers; managed environments need their
/// interpreter; the search path is no directory source and takes none.
pub open spec fn candidate_of(kind: EnvironmentKind, probe: ProbeModel, layout: Layout) -> Option<
    EnvironmentModel,
> {
    match kind {
        EnvironmentKind::Venv => if holds_virtualenv(probe.has_interpreter, probe.has_activation) {
            directory_environment(probe.path, kind, layout, probe.version)
        } else {
            None
        },
        EnvironmentKind::VersionManager | EnvironmentKind::NamedManager => if probe.has_interpreter {
            managed_environment(probe.path, kind, layout, probe.version)
        } else {
            None
        },
        EnvironmentKind::System => None,
    }
}

/// The candidates that a sequence of observed directories gives, in order.
pub open spec fn candidates_of(kind: EnvironmentKind, probes: Seq<ProbeModel>, layout: Layout) -> Seq<
    EnvironmentModel,
>
    decreases probes.len(),
{
    if probes.len() == 0 {
        Seq::empty()
    } else {
        let before = candidates_of(kind, probes.drop_last(), layout);
        match candidate_of(kind, probes.last(), layout) {
            Some(candidate) => before.push(candidate),
            None => before,
        }
    }
}

/// The record of the interpreter found under `label` on the search path,
/// given its answers to the version query and to the location query. There
/// is one only where both queries exited cleanly.
pub open spec fn system_environment(label: Seq<char>, version: RunModel, location: RunModel) -> Option<
    EnvironmentModel,
> {
    match (clean_report(version), location) {
        (Some(python_version), RunModel::Exited { success: true, stdout, .. }) => Some(
            EnvironmentModel {
                name: label,
                path: trim_text(stdout),
                python_version,
                env_type: EnvironmentKind::System,
            },
        ),
        _ => None,
    }
}

/// The candidates of the search path: the interpreter under its first name,
/// then the one under its second name unless it is the same executable.
pub open spec fn system_candidates(
    version: RunModel,
    location: RunModel,
    version3: RunModel,
    location3: RunModel,
) -> Seq<EnvironmentModel> {
    let first = match system_environment("System Python"@, version, location) {
        Some(e) => seq![e],
        None => Seq::empty(),
    };
    match system_environment("System Python 3"@, version3, location3) {
        Some(e) => if has_path(first, e.path) {
            first
        } else {
            first.push(e)
        },
        None => first,
    }
}

/// The directories that the registry of named environments lists: the
/// string elements of the array `envs` of its structured output. The source
/// fails where the registry did not exit cleanly or printed something else.
pub open spec fn registry_directories_text(outcome: RunModel) -> Option<Seq<Seq<char>>> {
    match outcome {
        RunModel::Exited { success: true, stdout, .. } => match json_text_list(stdout, "envs"@) {
            Some(Some(items)) => Some(present_texts(items)),
            _ => None,
        },
        _ => None,
    }
}

/// The texts among `items`, in order.
pub open spec fn present_texts(items: Seq<Option<Seq<char>>>) -> Seq<Seq<char>>
    decreases items.len(),
{
    if items.len() == 0 {
        Seq::empty()
    } else {
        let before = present_texts(items.drop_last());
        match items.last() {
            Some(text) => before.push(text),
            None => before,
        }
    }
}

/// Some entry of `list` has the path `path`.
pub open spec fn has_path(list: Seq<EnvironmentModel>, path: Seq<char>) -> bool {
    exists|i: int| 0 <= i < list.len() && #[trigger] list[i].path == path
}

/// No two entries of `list` have the same path.
pub open spec fn distinct_paths(list: Seq<EnvironmentModel>) -> bool {
    forall|i: int, j: int|
        0 <= i < j < list.len() ==> #[trigger] list[i].path != #[trigger] list[j].path
}

/// `list` with every entry dropped whose path an earlier entry has: the
/// first seen wins.
pub open spec fn dedup(list: Seq<EnvironmentModel>) -> Seq<EnvironmentModel>
    decreases list.len(),
{
    if list.len() == 0 {
        Seq::empty()
    } else {
        let before = dedup(list.drop_last());
        if has_path(before, list.last().path) {
            before
        } else {
            before.push(list.last())
        }
    }
}

/// What one source contributes to discovery: its candidates, or nothing
/// where the source failed.
pub open spec fn source_candidates(source: Result<Vec<PythonEnvironment>, Failure>) -> Seq<
    EnvironmentModel,
> {
    match source {
        Ok(candidates) => candidates.deep_view(),
        Err(_) => Seq::empty(),
    }
}

/// The environment list that discovery yields from the candidates of its
/// five sources: all of them in source order, first seen wins.
pub open spec fn discovered(
    system: Seq<EnvironmentModel>,
    venvs: Seq<EnvironmentModel>,
    pyenv: Seq<EnvironmentModel>,
    conda: Seq<EnvironmentModel>,
    local: Seq<EnvironmentModel>,
) -> Seq<EnvironmentModel> {
    dedup(system + venvs + pyenv + conda + local)
}

/// A source that failed counts as a source that found nothing: the other
/// sources are merged as if it had not been asked.
pub proof fn lemma_failed_source_is_empty(failure: Failure)
    ensures
        source_candidates(Err(failure)) == Seq::<EnvironmentModel>::empty(),
        forall|before: Seq<EnvironmentModel>, after: Seq<EnvironmentModel>|
            dedup(#[trigger] (before + source_candidates(Err(failure)) + after)) == dedup(
                before + after,
            ),
{
    assert forall|before: Seq<EnvironmentModel>, after: Seq<EnvironmentModel>|
        dedup(#[trigger] (before + source_candidates(Err(failure)) + after)) == dedup(
            before + after,
        ) by {
        assert(before + Seq::<EnvironmentModel>::empty() + after =~= before + after);
    }
}

/// Merging keeps exactly the paths it was given: a path is in the merged
/// list if and only if some candidate has it.
pub proof fn lemma_dedup_keeps_paths(list: Seq<EnvironmentModel>, path: Seq<char>)
    ensures
        has_path(dedup(list), path) <==> has_path(list, path),
    decreases list.len(),
{
    if list.len() > 0 {
        let init = list.drop_last();
        let before = dedup(init);
        lemma_dedup_keeps_paths(init, path);
        if has_path(list, path) {
            let i = choose|i: int| 0 <= i < list.len() && #[trigger] list[i].path == path;
            if i < list.len() - 1 {
                assert(init[i].path == path);
                assert(has_path(before, path));
                let k = choose|k: int| 0 <= k < before.len() && #[trigger] before[k].path == path;
                assert(dedup(list)[k].path == path);
            } else {
                if has_path(before, path) {
                } else {
                    assert(dedup(list)[before.len() as int].path == path);
                }
            }
        }
        if has_path(dedup(list), path) {
            let k = choose|k: int| 0 <= k < dedup(list).len() && #[trigger] dedup(list)[k].path == path;
            if k < before.len() {
                assert(before[k].path == path);
                let i = choose|i: int| 0 <= i < init.len() && #[trigger] init[i].path == path;
                assert(list[i].path == path);
            } else {
                assert(list[list.len() - 1].path == path);
            }
        }
    }
}

/// A merged list holds no path twice.
pub proof fn lemma_dedup_distinct(list: Seq<EnvironmentModel>)
    ensures
        distinct_paths(dedup(list)),
    decreases list.len(),
{
    if list.len() > 0 {
        let before = dedup(list.drop_last());
        lemma_dedup_distinct(list.drop_last());
        if !has_path(before, list.last().path) {
            let out = before.push(list.last());
            assert forall|i: int, j: int| 0 <= i < j < out.len() implies #[trigger] out[i].path
                != #[trigger] out[j].path by {
                if j == before.len() {
                    if out[i].path == out[j].path {
                        assert(before[i].path == list.last().path);
                    }
                } else {
                    assert(before[i].path != before[j].path);
                }
            }
        }
    }
}

/// Merging changes nothing in a list that holds no path twice.
pub proof fn lemma_dedup_of_distinct(list: Seq<EnvironmentModel>)
    requires
        distinct_paths(list),
    ensures
        dedup(list) == list,
    decreases list.len(),
{
    if list.len() > 0 {
        let init = list.drop_last();
        assert(distinct_paths(init)) by {
            assert forall|i: int, j: int| 0 <= i < j < init.len() implies #[trigger] init[i].path
                != #[trigger] init[j].path by {
                assert(list[i].path != list[j].path);
            }
        }
        lemma_dedup_of_distinct(init);
        if has_path(init, list.last().path) {
            let i = choose|i: int| 0 <= i < init.len() && #[trigger] init[i].path == list.last().path;
            assert(list[i].path != list[list.len() - 1].path);
        }
        assert(init.push(list.last()) =~= list);
    } else {
        assert(list =~= Seq::empty());
    }
}

/// Merging is idempotent: merging a merged list gives the same list.
pub proof fn lemma_dedup_idempotent(list: Seq<EnvironmentModel>)
    ensures
        dedup(dedup(list)) == dedup(list),
{
    lemma_dedup_distinct(list);
    lemma_dedup_of_distinct(dedup(list));
}

/// Which paths a merged list holds depends only on which paths the
/// candidates hold, not on the order in which the sources gave them: two
/// candidate lists with the same paths merge to lists with the same paths,
/// each without duplicates.
pub proof fn lemma_dedup_paths_ignore_order(
    a: Seq<EnvironmentModel>,
    b: Seq<EnvironmentModel>,
    path: Seq<char>,
)
    requires
        forall|p: Seq<char>| has_path(a, p) <==> has_path(b, p),
    ensures
        has_path(dedup(a), path) <==> has_path(dedup(b), path),
        distinct_paths(dedup(a)),
        distinct_paths(dedup(b)),
{
    lemma_dedup_keeps_paths(a, path);
    lemma_dedup_keeps_paths(b, path);
    lemma_dedup_distinct(a);
    lemma_dedup_distinct(b);
}

/// Candidates that come later never change what was merged before: the
/// merged list of a prefix is a prefix of the merged list of the whole.
pub proof fn lemma_dedup_prefix(list: Seq<EnvironmentModel>, n: int)
    requires
        0 <= n <= list.len(),
    ensures
        dedup(list.take(n)).len() <= dedup(list).len(),
        dedup(list.take(n)) == dedup(list).take(dedup(list.take(n)).len() as int),
    decreases list.len() - n,
{
    if n == list.len() {
        assert(list.take(n) =~= list);
        assert(dedup(list).take(dedup(list).len() as int) =~= dedup(list));
    } else {
        let next = list.take(n + 1);
        assert(next.drop_last() =~= list.take(n));
        lemma_dedup_prefix(list, n + 1);
        let small = dedup(list.take(n));
        let mid = dedup(next);
        let all = dedup(list);
        assert(small =~= mid.take(small.len() as int));
        assert(mid.take(small.len() as int) =~= all.take(mid.len() as int).take(small.len() as int));
        assert(all.take(mid.len() as int).take(small.len() as int) =~= all.take(small.len() as int));
    }
}

/// Whether some entry of `list` has the path `path`.
pub fn contains_path(list: &Vec<PythonEnvironment>, path: &str) -> (r: bool)
    ensures
        r == has_path(list.deep_view(), path@),
{
    let mut i: usize = 0;
    while i < list.len()
        invariant
            i <= list.len(),
            forall|k: int| 0 <= k < i ==> #[trigger] list.deep_view()[k].path != path@,
        decreases list.len() - i,
    {
        if same_text(list[i].path.as_str(), path) {
            assert(list.deep_view()[i as int].path == path@);
            return true;
        }
        i = i + 1;
    }
    false
}

/// Appends to `out` the entries of `more` whose path `out` does not hold
/// yet, in order.
fn merge_into(out: &mut Vec<PythonEnvironment>, more: &Vec<PythonEnvironment>, Ghost(seen): Ghost<
    Seq<EnvironmentModel>,
>)
    requires
        old(out).deep_view() == dedup(seen),
    ensures
        final(out).deep_view() == dedup(seen + more.deep_view()),
{
    let mut i: usize = 0;
    assert(seen + more.deep_view().take(0) =~= seen);
    while i < more.len()
        invariant
            i <= more.len(),
            out.deep_view() == dedup(seen + more.deep_view().take(i as int)),
        decreases more.len() - i,
    {
        let ghost upto = seen + more.deep_view().take(i + 1);
        let ghost before = out.deep_view();
        assert(upto.drop_last() =~= seen + more.deep_view().take(i as int));
        assert(upto.last() == more[i as int].deep_view());
        if !contains_path(out, more[i].path.as_str()) {
            let entry = more[i].clone();
            out.push(entry);
            assert(out.deep_view() =~= before.push(more[i as int].deep_view()));
        }
        i = i + 1;
    }
    assert(more.deep_view().take(more.len() as int) =~= more.deep_view());
}

/// `list` without the entries whose path an earlier entry has.
pub fn dedup_environments(list: &Vec<PythonEnvironment>) -> (r: Vec<PythonEnvironment>)
    ensures
        r.deep_view() == dedup(list.deep_view()),
        distinct_paths(r.deep_view()),
{
    let mut out: Vec<PythonEnvironment> = Vec::new();
    assert(out.deep_view() =~= dedup(Seq::empty()));
    merge_into(&mut out, list, Ghost(Seq::empty()));
    assert(Seq::<EnvironmentModel>::empty() + list.deep_view() =~= list.deep_view());
    proof {
        lemma_dedup_distinct(list.deep_view());
    }
    out
}

/// Takes in what one source contributed: its candidates are merged into
/// `out`; a failed source leaves `out` as it is.
fn merge_source(
    out: &mut Vec<PythonEnvironment>,
    source: &Result<Vec<PythonEnvironment>, Failure>,
    Ghost(seen): Ghost<Seq<EnvironmentModel>>,
)
    requires
        old(out).deep_view() == dedup(seen),
    ensures
        final(out).deep_view() == dedup(seen + source_candidates(*source)),
{
    match source {
        Ok(candidates) => {
            merge_into(out, candidates, Ghost(seen));
        },
        Err(_) => {
            assert(seen + Seq::<EnvironmentModel>::empty() =~= seen);
        },
    }
}

/// Discovery as a whole: the candidates of the five sources, merged in
/// source order, each path kept once. This never fails: each source stands
/// alone, and one that failed only leaves the list shorter.
pub fn list_environments(
    system: &Result<Vec<PythonEnvironment>, Failure>,
    venvs: &Result<Vec<PythonEnvironment>, Failure>,
    pyenv: &Result<Vec<PythonEnvironment>, Failure>,
    conda: &Result<Vec<PythonEnvironment>, Failure>,
    local: &Result<Vec<PythonEnvironment>, Failure>,
) -> (r: Vec<PythonEnvironment>)
    ensures
        r.deep_view() == discovered(
            source_candidates(*system),
            source_candidates(*venvs),
            source_candidates(*pyenv),
            source_candidates(*conda),
            source_candidates(*local),
        ),
        distinct_paths(r.deep_view()),
{
    let mut out: Vec<PythonEnvironment> = Vec::new();
    let ghost s0 = Seq::<EnvironmentModel>::empty();
    assert(out.deep_view() =~= dedup(s0));
    merge_source(&mut out, system, Ghost(s0));
    let ghost s1 = s0 + source_candidates(*system);
    merge_source(&mut out, venvs, Ghost(s1));
    let ghost s2 = s1 + source_candidates(*venvs);
    merge_source(&mut out, pyenv, Ghost(s2));
    let ghost s3 = s2 + source_candidates(*pyenv);
    merge_source(&mut out, conda, Ghost(s3));
    let ghost s4 = s3 + source_candidates(*conda);
    merge_source(&mut out, local, Ghost(s4));
    assert(s4 + source_candidates(*local) =~= source_candidates(*system) + source_candidates(
        *venvs,
    ) + source_candidates(*pyenv) + source_candidates(*conda) + source_candidates(*local));
    proof {
        lemma_dedup_distinct(s4 + source_candidates(*local));
    }
    out
}

/// The version recorded for a virtual environment, given what the version
/// query of its interpreter led to.
fn version_of_directory(version: &RunOutcome) -> (r: Option<String>)
    ensures
        r.deep_view() == directory_version(version.deep_view()),
{
    match version {
        RunOutcome::NotStarted => None,
        RunOutcome::Exited { success, stdout, stderr } => {
            if *success {
                Some(report(stdout.as_str(), stderr.as_str()))
            } else {
                Some("Unknown".to_owned())
            }
        },
    }
}

/// The record of the environment in directory `path`, given what the
/// version query of its interpreter led to.
pub fn create_environment_from_path(
    path: &str,
    env_type: EnvironmentKind,
    layout: Layout,
    version: &RunOutcome,
) -> (r: Option<PythonEnvironment>)
    ensures
        r.deep_view() == directory_environment(path@, env_type, layout, version.deep_view()),
{
    match file_name(path, layout) {
        Some(name) => match version_of_directory(version) {
            Some(python_version) => Some(
                PythonEnvironment { name, path: path.to_owned(), python_version, env_type },
            ),
            None => None,
        },
        None => None,
    }
}

/// The prefix that the name of a managed environment carries.
fn prefix_of(kind: EnvironmentKind) -> (r: &'static str)
    ensures
        r@ == managed_prefix(kind),
{
    match kind {
        EnvironmentKind::VersionManager => "pyenv: ",
        EnvironmentKind::NamedManager => "conda: ",
        _ => {
            let r = "";
            proof {
                reveal_strlit("");
            }
            assert(r@ =~= Seq::<char>::empty());
            r
        },
    }
}

/// The record of a version-manager install or of a named environment in
/// directory `path`, given what the version query of its interpreter led to.
pub fn managed_environment_from_path(
    path: &str,
    kind: EnvironmentKind,
    layout: Layout,
    version: &RunOutcome,
) -> (r: Option<PythonEnvironment>)
    ensures
        r.deep_view() == managed_environment(path@, kind, layout, version.deep_view()),
{
    match version.clean_report() {
        Some(python_version) => {
            let base = match file_name(path, layout) {
                Some(name) => name,
                None => String::new(),
            };
            let name = appended(prefix_of(kind), base.as_str());
            Some(PythonEnvironment { name, path: path.to_owned(), python_version, env_type: kind })
        },
        None => None,
    }
}

/// The candidate that one observed directory gives to the source of `kind`.
pub fn candidate(kind: EnvironmentKind, probe: &DirectoryProbe, layout: Layout) -> (r: Option<
    PythonEnvironment,
>)
    ensures
        r.deep_view() == candidate_of(kind, probe.deep_view(), layout),
{
    match kind {
        EnvironmentKind::Venv => {
            if is_virtualenv(probe.has_interpreter, probe.has_activation) {
                create_environment_from_path(probe.path.as_str(), kind, layout, &probe.version)
            } else {
                None
            }
        },
        EnvironmentKind::VersionManager | EnvironmentKind::NamedManager => {
            if probe.has_interpreter {
                managed_environment_from_path(probe.path.as_str(), kind, layout, &probe.version)
            } else {
                None
            }
        },
        EnvironmentKind::System => None,
    }
}

/// The candidates that the observed directories give to the source of
/// `kind`, in order.
fn candidates(kind: EnvironmentKind, probes: &Vec<DirectoryProbe>, layout: Layout) -> (r: Vec<
    PythonEnvironment,
>)
    ensures
        r.deep_view() == candidates_of(kind, probes.deep_view(), layout),
{
    let mut out: Vec<PythonEnvironment> = Vec::new();
    let mut i: usize = 0;
    assert(probes.deep_view().take(0) =~= Seq::empty());
    assert(out.deep_view() =~= Seq::empty());
    while i < probes.len()
        invariant
            i <= probes.len(),
            out.deep_view() == candidates_of(kind, probes.deep_view().take(i as int), layout),
        decreases probes.len() - i,
    {
        let ghost before = out.deep_view();
        let ghost upto = probes.deep_view().take(i + 1);
        assert(upto.drop_last() =~= probes.deep_view().take(i as int));
        assert(upto.last() == probes[i as int].deep_view());
        match candidate(kind, &probes[i], layout) {
            Some(found) => {
                out.push(found);
                assert(out.deep_view() =~= before.push(found.deep_view()));
            },
            None => {},
        }
        i = i + 1;
    }
    assert(probes.deep_view().take(probes.len() as int) =~= probes.deep_view());
    out
}

/// The virtual environments among the observed directories of the user's
/// container directory and default environment.
pub fn detect_venv_environments(probes: &Vec<DirectoryProbe>, layout: Layout) -> (r: Vec<
    PythonEnvironment,
>)
    ensures
        r.deep_view() == candidates_of(EnvironmentKind::Venv, probes.deep_view(), layout),
{
    candidates(EnvironmentKind::Venv, probes, layout)
}

/// The virtual environments among the observed directories of the current
/// working directory.
pub fn detect_local_environments(probes: &Vec<DirectoryProbe>, layout: Layout) -> (r: Vec<
    PythonEnvironment,
>)
    ensures
        r.deep_view() == candidates_of(EnvironmentKind::Venv, probes.deep_view(), layout),
{
    candidates(EnvironmentKind::Venv, probes, layout)
}

/// The version-manager installs among the observed directories.
pub fn detect_pyenv_environments(probes: &Vec<DirectoryProbe>, layout: Layout) -> (r: Vec<
    PythonEnvironment,
>)
    ensures
        r.deep_view() == candidates_of(EnvironmentKind::VersionManager, probes.deep_view(), layout),
{
    candidates(EnvironmentKind::VersionManager, probes, layout)
}

/// The named environments among the observed directories that the registry
/// listed.
pub fn detect_conda_environments(probes: &Vec<DirectoryProbe>, layout: Layout) -> (r: Vec<
    PythonEnvironment,
>)
    ensures
        r.deep_view() == candidates_of(EnvironmentKind::NamedManager, probes.deep_view(), layout),
{
    candidates(EnvironmentKind::NamedManager, probes, layout)
}

/// The texts among `items`, in order.
pub fn texts_present(items: &Vec<Option<String>>) -> (r: Vec<String>)
    ensures
        r.deep_view() == present_texts(items.deep_view()),
{
    let mut out: Vec<String> = Vec::new();
    let mut i: usize = 0;
    assert(items.deep_view().take(0) =~= Seq::empty());
    assert(out.deep_view() =~= Seq::empty());
    while i < items.len()
        invariant
            i <= items.len(),
            out.deep_view() == present_texts(items.deep_view().take(i as int)),
        decreases items.len() - i,
    {
        let ghost before = out.deep_view();
        let ghost upto = items.deep_view().take(i + 1);
        assert(upto.drop_last() =~= items.deep_view().take(i as int));
        assert(upto.last() == items[i as int].deep_view());
        match &items[i] {
            Some(text) => {
                out.push(text.clone());
                assert(out.deep_view() =~= before.push(text@));
            },
            None => {},
        }
        i = i + 1;
    }
    assert(items.deep_view().take(items.len() as int) =~= items.deep_view());
    out
}

/// The directories that the registry of named environments lists, given
/// what the registry query led to. With a registry that is missing, fails,
/// or prints something unexpected, the source fails as a whole.
pub fn registry_directories(outcome: &RunOutcome) -> (r: Result<Vec<String>, Failure>)
    ensures
        match r {
            Ok(directories) => registry_directories_text(outcome.deep_view()) == Some(
                directories.deep_view(),
            ),
            Err(failure) => failure == Failure::DetectionFailure && registry_directories_text(
                outcome.deep_view(),
            ) is None,
        },
{
    match outcome {
        RunOutcome::Exited { success, stdout, stderr } => {
            if !*success {
                return Err(Failure::DetectionFailure);
            }
            match decode_text_list(stdout.as_str(), "envs") {
                Ok(Some(items)) => Ok(texts_present(&items)),
                Ok(None) => Err(Failure::DetectionFailure),
                Err(_) => Err(Failure::DetectionFailure),
            }
        },
        RunOutcome::NotStarted => Err(Failure::DetectionFailure),
    }
}

/// The record of the interpreter found under `label` on the search path.
pub fn system_candidate(label: &str, version: &RunOutcome, location: &RunOutcome) -> (r: Option<
    PythonEnvironment,
>)
    ensures
        r.deep_view() == system_environment(label@, version.deep_view(), location.deep_view()),
{
    match version.clean_report() {
        Some(python_version) => match location {
            RunOutcome::Exited { success, stdout, stderr } => {
                if *success {
                    Some(
                        PythonEnvironment {
                            name: label.to_owned(),
                            path: trim(stdout.as_str()),
                            python_version,
                            env_type: EnvironmentKind::System,
                        },
                    )
                } else {
                    None
                }
            },
            RunOutcome::NotStarted => None,
        },
        None => None,
    }
}

/// The candidates of the search path, given the answers of the interpreter
/// under its first name and under its second name.
pub fn detect_system_python(
    version: &RunOutcome,
    location: &RunOutcome,
    version3: &RunOutcome,
    location3: &RunOutcome,
) -> (r: Vec<PythonEnvironment>)
    ensures
        r.deep_view() == system_candidates(
            version.deep_view(),
            location.deep_view(),
            version3.deep_view(),
            location3.deep_view(),
        ),
{
    let mut out: Vec<PythonEnvironment> = Vec::new();
    assert(out.deep_view() =~= Seq::empty());
    match system_candidate("System Python", version, location) {
        Some(found) => {
            out.push(found);
            assert(out.deep_view() =~= seq![found.deep_view()]);
        },
        None => {},
    }
    let ghost first = out.deep_view();
    match system_candidate("System Python 3", version3, location3) {
        Some(found) => {
            if !contains_path(&out, found.path.as_str()) {
                out.push(found);
                assert(out.deep_view() =~= first.push(found.deep_view()));
            }
        },
        None => {},
    }
    out
}

/// A place where a source looks for environments: a directory, taken either
/// for its subdirectories or for itself.
#[derive(Debug, PartialEq, Eq)]
pub struct Scan {
    pub directory: String,
    pub children: bool,
}

/// The mathematical value of a [`Scan`].
pub ghost struct ScanModel {
    pub directory: Seq<char>,
    pub children: bool,
}

impl DeepView for Scan {
    type V = ScanModel;

    open spec fn deep_view(&self) -> ScanModel {
        ScanModel { directory: self.directory@, children: self.children }
    }
}

/// The places where the directory sources of a user look, in order. Virtual
/// environments: the subdirectories of the container directory, then the
/// default environment itself. Version-manager installs: the subdirectories
/// of the installs directory. Named environments come from their registry
/// and the search path is no directory: neither has a place to scan.
pub open spec fn scans_of(kind: EnvironmentKind, home: Seq<char>, layout: Layout) -> Seq<ScanModel> {
    match kind {
        EnvironmentKind::Venv => seq![
            ScanModel { directory: virtualenvs_root_text(home, layout), children: true },
            ScanModel { directory: home_venv_text(home, layout), children: false },
        ],
        EnvironmentKind::VersionManager => seq![
            ScanModel { directory: pyenv_versions_root_text(home, layout), children: true },
        ],
        EnvironmentKind::NamedManager => Seq::empty(),
        EnvironmentKind::System => Seq::empty(),
    }
}

/// The place where the scan of the current working directory looks: its
/// subdirectories.
pub open spec fn local_scans_of() -> Seq<ScanModel> {
    seq![ScanModel { directory: "."@, children: true }]
}

/// The places where the interpreter of an environment of `kind` in
/// directory `dir` may be, in the order in which they are tried.
pub open spec fn interpreter_places_of(kind: EnvironmentKind, dir: Seq<char>, layout: Layout) -> Seq<
    Seq<char>,
> {
    match kind {
        EnvironmentKind::Venv => seq![crate::paths::interpreter_path_text(dir, layout)],
        EnvironmentKind::VersionManager => seq![managed_interpreter_text(dir, layout)],
        EnvironmentKind::NamedManager => seq![
            managed_interpreter_text(dir, layout),
            root_interpreter_text(dir, layout),
        ],
        EnvironmentKind::System => Seq::empty(),
    }
}

/// The places where the directory source of `kind` looks for the user whose
/// files are under `home`.
pub fn scans(kind: EnvironmentKind, home: &str, layout: Layout) -> (r: Vec<Scan>)
    ensures
        r.deep_view() == scans_of(kind, home@, layout),
{
    let mut out: Vec<Scan> = Vec::new();
    match kind {
        EnvironmentKind::Venv => {
            out.push(Scan { directory: virtualenvs_root(home, layout), children: true });
            out.push(Scan { directory: home_venv(home, layout), children: false });
        },
        EnvironmentKind::VersionManager => {
            out.push(Scan { directory: pyenv_versions_root(home, layout), children: true });
        },
        EnvironmentKind::NamedManager => {},
        EnvironmentKind::System => {},
    }
    assert(out.deep_view() =~= scans_of(kind, home@, layout));
    out
}

/// The place where the scan of the current working directory looks.
pub fn local_scans() -> (r: Vec<Scan>)
    ensures
        r.deep_view() == local_scans_of(),
{
    let mut out: Vec<Scan> = Vec::new();
    out.push(Scan { directory: ".".to_owned(), children: true });
    assert(out.deep_view() =~= local_scans_of());
    out
}

/// The places where the interpreter of an environment of `kind` in
/// directory `dir` may be, in the order in which they are tried.
pub fn interpreter_places(kind: EnvironmentKind, dir: &str, layout: Layout) -> (r: Vec<String>)
    ensures
        r.deep_view() == interpreter_places_of(kind, dir@, layout),
{
    let mut out: Vec<String> = Vec::new();
    match kind {
        EnvironmentKind::Venv => {
            out.push(crate::paths::interpreter_path(dir, layout));
        },
        EnvironmentKind::VersionManager => {
            out.push(managed_interpreter(dir, layout));
        },
        EnvironmentKind::NamedManager => {
            out.push(managed_interpreter(dir, layout));
            out.push(root_interpreter(dir, layout));
        },
        EnvironmentKind::System => {},
    }
    assert(out.deep_view() =~= interpreter_places_of(kind, dir@, layout));
    out
}

/// Whether the version query is worth running for a directory of the source
/// of `kind`: only where the directory can still become a candidate.
pub fn may_be_candidate(kind: EnvironmentKind, has_interpreter: bool, has_activation: bool) -> (r:
    bool)
    ensures
        r == match kind {
            EnvironmentKind::Venv => holds_virtualenv(has_interpreter, has_activation),
            EnvironmentKind::VersionManager => has_interpreter,
            EnvironmentKind::NamedManager => has_interpreter,
            EnvironmentKind::System => false,
        },
        !r ==> forall|path: Seq<char>, version: RunModel, layout: Layout|
            candidate_of(
                kind,
                ProbeModel { path, has_interpreter, has_activation, version },
                layout,
            ) is None,
{
    match kind {
        EnvironmentKind::Venv => is_virtualenv(has_interpreter, has_activation),
        EnvironmentKind::VersionManager => has_interpreter,
        EnvironmentKind::NamedManager => has_interpreter,
        EnvironmentKind::System => false,
    }
}

} // verus!
