//! The ordered fallback chain shared by listing, installing and
//! uninstalling: which executables are tried, in which order, and with which
//! arguments.

use crate::paths::{bin_path, in_bin_dir, interpreter_path, interpreter_path_text};
use crate::paths::{module_interpreter_path, module_interpreter_path_text};
use crate::paths::{pip3_file_text, pip_file_text, Layout};
use crate::process::{words2, words3, words4, words5, Invocation, InvocationModel};
use vstd::prelude::*;

verus! {

/// The interpreter routine of last resort: it reads the interpreter's own
/// installed-package metadata and prints it in the shape of a package
/// manager's structured listing.
pub const INTROSPECTION_SCRIPT: &'static str =
    "\nimport sys\nimport json\nimport pkg_resources\n\npackages = []\nfor pkg in pkg_resources.working_set:\n    packages.append({\n        \"name\": pkg.project_name,\n        \"version\": pkg.version,\n        \"summary\": getattr(pkg, \"summary\", \"\")\n    })\nprint(json.dumps(packages))\n";

/// The ways of reaching a package manager, in the order they are tried.
#[derive(Debug, Clone, Copy, PartialEq, Eq, Structural)]
pub enum Strategy {
    /// The package manager executable itself.
    Pip,
    /// The package manager under its second install name.
    Pip3,
    /// The interpreter, running the package manager as a module.
    Module,
    /// The interpreter, running [`INTROSPECTION_SCRIPT`].
    Introspect,
}

/// What is asked of the package manager.
#[derive(Debug)]
pub enum Operation {
    List,
    Install(String),
    Uninstall(String),
}

/// The mathematical value of an [`Operation`].
pub ghost enum OperationModel {
    List,
    Install(Seq<char>),
    Uninstall(Seq<char>),
}

impl DeepView for Operation {
    type V = OperationModel;

    open spec fn deep_view(&self) -> OperationModel {
        match self {
            Operation::List => OperationModel::List,
            Operation::Install(p) => OperationModel::Install(p@),
            Operation::Uninstall(p) => OperationModel::Uninstall(p@),
        }
    }
}

/// Whose packages are meant: those of one environment, given by its
/// directory, or the machine-wide ones.
#[derive(Debug)]
pub enum Scope {
    Environment(String),
    Global,
}

/// The mathematical value of a [`Scope`].
pub ghost enum ScopeModel {
    Environment(Seq<char>),
    Global,
}

impl DeepView for Scope {
    type V = ScopeModel;

    open spec fn deep_view(&self) -> ScopeModel {
        match self {
            Scope::Environment(dir) => ScopeModel::Environment(dir@),
            Scope::Global => ScopeModel::Global,
        }
    }
}

/// The words that ask the package manager itself for `operation`.
pub open spec fn subcommand_text(operation: OperationModel) -> Seq<Seq<char>> {
    match operation {
        OperationModel::List => seq!["list"@, "--format=json"@],
        OperationModel::Install(package) => seq!["install"@, package],
        OperationModel::Uninstall(package) => seq!["uninstall"@, "-y"@, package],
    }
}

/// The arguments handed to the executable of `strategy` for `operation`.
/// The introspection routine only lists, whatever is asked.
pub open spec fn arguments_text(strategy: Strategy, operation: OperationModel) -> Seq<Seq<char>> {
    match strategy {
        Strategy::Pip | Strategy::Pip3 => subcommand_text(operation),
        Strategy::Module => seq!["-m"@, "pip"@] + subcommand_text(operation),
        Strategy::Introspect => seq!["-c"@, INTROSPECTION_SCRIPT@],
    }
}

/// The executable of `strategy` inside environment `dir`.
pub open spec fn local_program_text(dir: Seq<char>, layout: Layout, strategy: Strategy) -> Seq<
    char,
> {
    match strategy {
        Strategy::Pip => in_bin_dir(dir, pip_file_text(layout), layout),
        Strategy::Pip3 => in_bin_dir(dir, pip3_file_text(layout), layout),
        Strategy::Module => module_interpreter_path_text(dir, layout),
        Strategy::Introspect => interpreter_path_text(dir, layout),
    }
}

/// The machine-wide executable of `strategy`, found by name.
pub open spec fn global_program_text(strategy: Strategy) -> Seq<char> {
    match strategy {
        Strategy::Pip => "pip"@,
        Strategy::Pip3 => "pip3"@,
        Strategy::Module => "python"@,
        Strategy::Introspect => "python"@,
    }
}

/// The invocation of `strategy` for `operation` inside environment `dir`.
pub open spec fn local_invocation(
    dir: Seq<char>,
    layout: Layout,
    strategy: Strategy,
    operation: OperationModel,
) -> InvocationModel {
    InvocationModel {
        program: local_program_text(dir, layout, strategy),
        args: arguments_text(strategy, operation),
    }
}

/// The machine-wide invocation of `strategy` for `operation`.
pub open spec fn global_invocation(strategy: Strategy, operation: OperationModel) -> InvocationModel {
    InvocationModel {
        program: global_program_text(strategy),
        args: arguments_text(strategy, operation),
    }
}

/// The chain that lists packages. For one environment: the package manager,
/// its second name, the interpreter in module mode, the interpreter's own
/// introspection. Machine-wide: the same four by name, and the introspection
/// once more with the interpreter's second name.
pub open spec fn listing_plan_model(scope: ScopeModel, layout: Layout) -> Seq<InvocationModel> {
    match scope {
        ScopeModel::Environment(dir) => seq![
            local_invocation(dir, layout, Strategy::Pip, OperationModel::List),
            local_invocation(dir, layout, Strategy::Pip3, OperationModel::List),
            local_invocation(dir, layout, Strategy::Module, OperationModel::List),
            local_invocation(dir, layout, Strategy::Introspect, OperationModel::List),
        ],
        ScopeModel::Global => seq![
            global_invocation(Strategy::Pip, OperationModel::List),
            global_invocation(Strategy::Pip3, OperationModel::List),
            global_invocation(Strategy::Module, OperationModel::List),
            global_invocation(Strategy::Introspect, OperationModel::List),
            InvocationModel {
                program: "python3"@,
                args: arguments_text(Strategy::Introspect, OperationModel::List),
            },
        ],
    }
}

/// The chain that installs or uninstalls inside environment `dir`: the first
/// three candidates of the listing chain, with the subcommand of
/// `operation`.
pub open spec fn mutation_plan_model(dir: Seq<char>, layout: Layout, operation: OperationModel) -> Seq<
    InvocationModel,
> {
    seq![
        local_invocation(dir, layout, Strategy::Pip, operation),
        local_invocation(dir, layout, Strategy::Pip3, operation),
        local_invocation(dir, layout, Strategy::Module, operation),
    ]
}

/// Listing, installing and uninstalling go through the same candidates in
/// the same order: the executables of a mutation chain are those of the
/// first three steps of the listing chain of the same environment.
pub proof fn lemma_same_candidates(dir: Seq<char>, layout: Layout, operation: OperationModel)
    ensures
        mutation_plan_model(dir, layout, operation).len() == 3,
        listing_plan_model(ScopeModel::Environment(dir), layout).len() == 4,
        forall|i: int|
            0 <= i < 3 ==> (#[trigger] mutation_plan_model(dir, layout, operation)[i]).program
                == listing_plan_model(ScopeModel::Environment(dir), layout)[i].program,
        mutation_plan_model(dir, layout, OperationModel::List) == listing_plan_model(
            ScopeModel::Environment(dir),
            layout,
        ).take(3),
{
    assert(mutation_plan_model(dir, layout, OperationModel::List) =~= listing_plan_model(
        ScopeModel::Environment(dir),
        layout,
    ).take(3));
}

/// The words that ask the package manager itself for `operation`.
fn subcommand(operation: &Operation) -> (r: Vec<String>)
    ensures
        r.deep_view() == subcommand_text(operation.deep_view()),
{
    match operation {
        Operation::List => words2("list", "--format=json"),
        Operation::Install(package) => words2("install", package.as_str()),
        Operation::Uninstall(package) => words3("uninstall", "-y", package.as_str()),
    }
}

/// The arguments handed to the executable of `strategy` for `operation`.
pub fn arguments(strategy: Strategy, operation: &Operation) -> (r: Vec<String>)
    ensures
        r.deep_view() == arguments_text(strategy, operation.deep_view()),
{
    match strategy {
        Strategy::Pip | Strategy::Pip3 => subcommand(operation),
        Strategy::Module => {
            let r = match operation {
                Operation::List => words4("-m", "pip", "list", "--format=json"),
                Operation::Install(package) => words4("-m", "pip", "install", package.as_str()),
                Operation::Uninstall(package) => words5(
                    "-m",
                    "pip",
                    "uninstall",
                    "-y",
                    package.as_str(),
                ),
            };
            assert(r.deep_view() =~= seq!["-m"@, "pip"@] + subcommand_text(operation.deep_view()));
            r
        },
        Strategy::Introspect => words2("-c", INTROSPECTION_SCRIPT),
    }
}

/// The executable of `strategy` inside environment `dir`.
pub fn local_program(dir: &str, layout: Layout, strategy: Strategy) -> (r: String)
    ensures
        r@ == local_program_text(dir@, layout, strategy),
{
    match strategy {
        Strategy::Pip => bin_path(dir, layout.pip_file(), layout),
        Strategy::Pip3 => bin_path(dir, layout.pip3_file(), layout),
        Strategy::Module => module_interpreter_path(dir, layout),
        Strategy::Introspect => interpreter_path(dir, layout),
    }
}

/// The machine-wide executable of `strategy`.
pub fn global_program(strategy: Strategy) -> (r: String)
    ensures
        r@ == global_program_text(strategy),
{
    match strategy {
        Strategy::Pip => "pip".to_owned(),
        Strategy::Pip3 => "pip3".to_owned(),
        Strategy::Module => "python".to_owned(),
        Strategy::Introspect => "python".to_owned(),
    }
}

fn local(dir: &str, layout: Layout, strategy: Strategy, operation: &Operation) -> (r: Invocation)
    ensures
        r.deep_view() == local_invocation(dir@, layout, strategy, operation.deep_view()),
{
    Invocation {
        program: local_program(dir, layout, strategy),
        args: arguments(strategy, operation),
    }
}

fn global(strategy: Strategy, operation: &Operation) -> (r: Invocation)
    ensures
        r.deep_view() == global_invocation(strategy, operation.deep_view()),
{
    Invocation { program: global_program(strategy), args: arguments(strategy, operation) }
}

/// The invocations that list the packages of `scope`, in the order in which
/// they are tried.
pub fn listing_plan(scope: &Scope, layout: Layout) -> (r: Vec<Invocation>)
    ensures
        r.deep_view() == listing_plan_model(scope.deep_view(), layout),
{
    let op = Operation::List;
    let mut plan: Vec<Invocation> = Vec::new();
    match scope {
        Scope::Environment(dir) => {
            plan.push(local(dir.as_str(), layout, Strategy::Pip, &op));
            plan.push(local(dir.as_str(), layout, Strategy::Pip3, &op));
            plan.push(local(dir.as_str(), layout, Strategy::Module, &op));
            plan.push(local(dir.as_str(), layout, Strategy::Introspect, &op));
        },
        Scope::Global => {
            plan.push(global(Strategy::Pip, &op));
            plan.push(global(Strategy::Pip3, &op));
            plan.push(global(Strategy::Module, &op));
            plan.push(global(Strategy::Introspect, &op));
            plan.push(
                Invocation {
                    program: "python3".to_owned(),
                    args: arguments(Strategy::Introspect, &op),
                },
            );
        },
    }
    assert(plan.deep_view() =~= listing_plan_model(scope.deep_view(), layout));
    plan
}

/// The invocations that carry out `operation` inside environment `dir`, in
/// the order in which they are tried.
pub fn mutation_plan(dir: &str, layout: Layout, operation: &Operation) -> (r: Vec<Invocation>)
    ensures
        r.deep_view() == mutation_plan_model(dir@, layout, operation.deep_view()),
{
    let mut plan: Vec<Invocation> = Vec::new();
    plan.push(local(dir, layout, Strategy::Pip, operation));
    plan.push(local(dir, layout, Strategy::Pip3, operation));
    plan.push(local(dir, layout, Strategy::Module, operation));
    assert(plan.deep_view() =~= mutation_plan_model(dir@, layout, operation.deep_view()));
    plan
}

} // verus!
