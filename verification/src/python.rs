//! The data model: environments, their kinds, and packages.
//!
//! The operations on environments and packages live in the modules that
//! hold their rules; they are named here as well, next to the data they
//! work on.

pub use crate::detect::{is_virtualenv, list_environments};
pub use crate::inspect::{list_global_packages, list_packages};
pub use crate::mutate::{create_environment, install_package, uninstall_package};
use vstd::prelude::*;

verus! {

/// Where an environment comes from. The set is closed: every place that
/// branches on a kind handles all four.
#[derive(Debug, Clone, Copy, PartialEq, Eq, Structural)]
pub enum EnvironmentKind {
    /// An interpreter found on the search path.
    System,
    /// A virtual environment with its own activation script.
    Venv,
    /// An interpreter installed by a version manager.
    VersionManager,
    /// An environment tracked by a named-environment manager.
    NamedManager,
}

/// The short tag shown for each kind.
pub open spec fn kind_label(kind: EnvironmentKind) -> Seq<char> {
    match kind {
        EnvironmentKind::System => "system"@,
        EnvironmentKind::Venv => "venv"@,
        EnvironmentKind::VersionManager => "pyenv"@,
        EnvironmentKind::NamedManager => "conda"@,
    }
}

impl EnvironmentKind {
    /// The short tag shown for this kind.
    pub fn label(&self) -> (r: &'static str)
        ensures
            r@ == kind_label(*self),
    {
        match self {
            EnvironmentKind::System => "system",
            EnvironmentKind::Venv => "venv",
            EnvironmentKind::VersionManager => "pyenv",
            EnvironmentKind::NamedManager => "conda",
        }
    }
}

/// One discovered or created environment. Its `path` is its identity.
#[derive(Debug, PartialEq, Eq)]
pub struct PythonEnvironment {
    pub name: String,
    pub path: String,
    pub python_version: String,
    pub env_type: EnvironmentKind,
}

/// The mathematical value of a [`PythonEnvironment`].
pub ghost struct EnvironmentModel {
    pub name: Seq<char>,
    pub path: Seq<char>,
    pub python_version: Seq<char>,
    pub env_type: EnvironmentKind,
}

impl DeepView for PythonEnvironment {
    type V = EnvironmentModel;

    open spec fn deep_view(&self) -> EnvironmentModel {
        EnvironmentModel {
            name: self.name@,
            path: self.path@,
            python_version: self.python_version@,
            env_type: self.env_type,
        }
    }
}

impl Clone for PythonEnvironment {
    fn clone(&self) -> (r: Self)
        ensures
            r.deep_view() == self.deep_view(),
    {
        PythonEnvironment {
            name: self.name.clone(),
            path: self.path.clone(),
            python_version: self.python_version.clone(),
            env_type: self.env_type,
        }
    }
}

/// One installed package. The summary may be empty.
#[derive(Debug, PartialEq, Eq)]
pub struct Package {
    pub name: String,
    pub version: String,
    pub summary: String,
}

/// The mathematical value of a [`Package`].
pub ghost struct PackageModel {
    pub name: Seq<char>,
    pub version: Seq<char>,
    pub summary: Seq<char>,
}

impl DeepView for Package {
    type V = PackageModel;

    open spec fn deep_view(&self) -> PackageModel {
        PackageModel { name: self.name@, version: self.version@, summary: self.summary@ }
    }
}

impl Clone for Package {
    fn clone(&self) -> (r: Self)
        ensures
            r.deep_view() == self.deep_view(),
    {
        Package {
            name: self.name.clone(),
            version: self.version.clone(),
            summary: self.summary.clone(),
        }
    }
}

/// A copy of a list of environments, element by element.
pub fn clone_environments(list: &Vec<PythonEnvironment>) -> (r: Vec<PythonEnvironment>)
    ensures
        r.deep_view() == list.deep_view(),
{
    let mut out: Vec<PythonEnvironment> = Vec::new();
    let mut i: usize = 0;
    while i < list.len()
        invariant
            i <= list.len(),
            out.len() == i,
            forall|k: int| 0 <= k < i ==> out[k].deep_view() == list[k].deep_view(),
        decreases list.len() - i,
    {
        out.push(list[i].clone());
        i = i + 1;
    }
    assert(out.deep_view() =~= list.deep_view());
    out
}

/// A copy of a list of packages, element by element.
pub fn clone_packages(list: &Vec<Package>) -> (r: Vec<Package>)
    ensures
        r.deep_view() == list.deep_view(),
{
    let mut out: Vec<Package> = Vec::new();
    let mut i: usize = 0;
    while i < list.len()
        invariant
            i <= list.len(),
            out.len() == i,
            forall|k: int| 0 <= k < i ==> out[k].deep_view() == list[k].deep_view(),
        decreases list.len() - i,
    {
        out.push(list[i].clone());
        i = i + 1;
    }
    assert(out.deep_view() =~= list.deep_view());
    out
}

} // verus!
