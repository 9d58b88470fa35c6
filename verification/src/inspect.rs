//! Listing installed packages: reading a tool's structured output, and the
//! fallback chain in which the first tool that succeeds wins.

use crate::failure::{Failure, FailureModel};
use crate::json::{decode_rows, json_rows, TextRow, TextRowModel};
use crate::process::{RunModel, RunOutcome};
use crate::python::{Package, PackageModel};
use vstd::prelude::*;

verus! {

/// The package that one element of a listing describes: it must give a name
/// and a version; its summary is empty where it gives none.
pub open spec fn package_of_row(row: TextRowModel) -> Option<PackageModel> {
    match (row.0, row.1) {
        (Some(name), Some(version)) => Some(
            PackageModel {
                name,
                version,
                summary: match row.2 {
                    Some(summary) => summary,
                    None => Seq::empty(),
                },
            },
        ),
        _ => None,
    }
}

/// The packages that the elements of a listing describe, in order. Elements
/// that describe none are passed over one by one.
pub open spec fn packages_of_rows(rows: Seq<TextRowModel>) -> Seq<PackageModel>
    decreases rows.len(),
{
    if rows.len() == 0 {
        Seq::empty()
    } else {
        let before = packages_of_rows(rows.drop_last());
        match package_of_row(rows.last()) {
            Some(package) => before.push(package),
            None => before,
        }
    }
}

/// The packages that a tool's structured listing holds; `None` where the
/// text is not a structured array at all.
pub open spec fn listed_packages(text: Seq<char>) -> Option<Seq<PackageModel>> {
    match json_rows(text, "name"@, "version"@, "summary"@) {
        Some(rows) => Some(packages_of_rows(rows)),
        None => None,
    }
}

/// What one step of the listing chain yields: the packages, where the tool
/// started, exited cleanly and printed a structured array; else the reason
/// why the chain moves on.
pub open spec fn listing_of(outcome: RunModel) -> Result<Seq<PackageModel>, FailureModel> {
    match outcome {
        RunModel::NotStarted => Err(FailureModel::ToolMissing),
        RunModel::Exited { success, stdout, stderr } => if !success {
            Err(FailureModel::ExecutionFailure(stderr))
        } else {
            match listed_packages(stdout) {
                Some(packages) => Ok(packages),
                None => Err(FailureModel::ParseFailure),
            }
        },
    }
}

/// What a chain of steps yields: the packages of the first step that
/// succeeds, or `None` where no step does.
pub open spec fn chain_listing(outcomes: Seq<RunModel>) -> Option<Seq<PackageModel>>
    decreases outcomes.len(),
{
    if outcomes.len() == 0 {
        None
    } else {
        match chain_listing(outcomes.drop_last()) {
            Some(packages) => Some(packages),
            None => match listing_of(outcomes.last()) {
                Ok(packages) => Some(packages),
                Err(_) => None,
            },
        }
    }
}

/// The package list shown for a chain of steps: empty where no step
/// succeeds.
pub open spec fn shown_packages(outcomes: Seq<RunModel>) -> Seq<PackageModel> {
    match chain_listing(outcomes) {
        Some(packages) => packages,
        None => Seq::empty(),
    }
}

/// The first step that succeeds decides: where every step before `k` fails
/// and step `k` succeeds, the chain yields exactly the packages of step `k`,
/// whatever the later steps would have given.
pub proof fn lemma_first_success_wins(outcomes: Seq<RunModel>, k: int)
    requires
        0 <= k < outcomes.len(),
        forall|i: int| 0 <= i < k ==> listing_of(#[trigger] outcomes[i]) is Err,
        listing_of(outcomes[k]) is Ok,
    ensures
        chain_listing(outcomes) == Some(listing_of(outcomes[k])->Ok_0),
    decreases outcomes.len(),
{
    let before = outcomes.drop_last();
    if k == outcomes.len() - 1 {
        lemma_all_fail(before);
    } else {
        lemma_first_success_wins(before, k);
    }
}

/// A chain in which every step fails yields nothing.
pub proof fn lemma_all_fail(outcomes: Seq<RunModel>)
    requires
        forall|i: int| 0 <= i < outcomes.len() ==> listing_of(#[trigger] outcomes[i]) is Err,
    ensures
        chain_listing(outcomes) is None,
    decreases outcomes.len(),
{
    if outcomes.len() > 0 {
        lemma_all_fail(outcomes.drop_last());
    }
}

/// The package that one element of a listing describes, if it gives both a
/// name and a version.
pub fn package_from_row(row: &TextRow) -> (r: Option<Package>)
    ensures
        r.deep_view() == package_of_row(row.deep_view()),
{
    match (&row.0, &row.1) {
        (Some(name), Some(version)) => {
            let summary = match &row.2 {
                Some(summary) => summary.clone(),
                None => String::new(),
            };
            Some(Package { name: name.clone(), version: version.clone(), summary })
        },
        _ => None,
    }
}

/// The packages that the elements of a listing describe, in order.
pub fn packages_from_rows(rows: &Vec<TextRow>) -> (r: Vec<Package>)
    ensures
        r.deep_view() == packages_of_rows(rows.deep_view()),
{
    let mut out: Vec<Package> = Vec::new();
    let mut i: usize = 0;
    assert(rows.deep_view().take(0) =~= Seq::empty());
    assert(out.deep_view() =~= Seq::empty());
    while i < rows.len()
        invariant
            i <= rows.len(),
            out.deep_view() == packages_of_rows(rows.deep_view().take(i as int)),
        decreases rows.len() - i,
    {
        let ghost before = out.deep_view();
        let ghost upto = rows.deep_view().take(i + 1);
        assert(upto.drop_last() =~= rows.deep_view().take(i as int));
        assert(upto.last() == rows[i as int].deep_view());
        match package_from_row(&rows[i]) {
            Some(package) => {
                out.push(package);
                assert(out.deep_view() =~= before.push(package.deep_view()));
            },
            None => {},
        }
        i = i + 1;
    }
    assert(rows.deep_view().take(rows.len() as int) =~= rows.deep_view());
    out
}

/// Reads a tool's structured listing. `None` where the text is not a
/// structured array; elements without a name or a version are passed over.
pub fn parse_package_listing(text: &str) -> (r: Option<Vec<Package>>)
    ensures
        r.deep_view() == listed_packages(text@),
{
    match decode_rows(text, "name", "version", "summary") {
        Ok(rows) => Some(packages_from_rows(&rows)),
        Err(_) => None,
    }
}

/// Judges one step of the listing chain from the outcome of its tool.
pub fn interpret_listing(outcome: &RunOutcome) -> (r: Result<Vec<Package>, Failure>)
    ensures
        match r {
            Ok(packages) => listing_of(outcome.deep_view()) == Ok::<
                Seq<PackageModel>,
                FailureModel,
            >(packages.deep_view()),
            Err(failure) => listing_of(outcome.deep_view()) == Err::<
                Seq<PackageModel>,
                FailureModel,
            >(failure.deep_view()),
        },
{
    match outcome {
        RunOutcome::NotStarted => Err(Failure::ToolMissing),
        RunOutcome::Exited { success, stdout, stderr } => {
            if !*success {
                Err(Failure::ExecutionFailure(stderr.clone()))
            } else {
                match parse_package_listing(stdout.as_str()) {
                    Some(packages) => Ok(packages),
                    None => Err(Failure::ParseFailure),
                }
            }
        },
    }
}

/// The progress of one run through a listing chain of `steps` steps: how
/// many steps have been judged, and what was found.
#[derive(Debug)]
pub struct ListingChain {
    pub steps: usize,
    pub position: usize,
    pub found: Option<Vec<Package>>,
}

impl ListingChain {
    /// No more steps have been judged than the chain has.
    pub open spec fn wf(&self) -> bool {
        self.position <= self.steps
    }

    /// The step whose outcome the chain waits for, if it waits for one.
    pub open spec fn pending_step(&self) -> Option<usize> {
        if self.found is None && self.position < self.steps {
            Some(self.position)
        } else {
            None
        }
    }

    /// A run through a chain of `steps` steps, with nothing judged yet.
    pub fn new(steps: usize) -> (r: Self)
        ensures
            r.wf(),
            r.steps == steps,
            r.position == 0,
            r.found is None,
    {
        ListingChain { steps, position: 0, found: None }
    }

    /// The index of the step to run next. `None` once a step has succeeded
    /// or every step has failed.
    pub fn pending(&self) -> (r: Option<usize>)
        ensures
            r == self.pending_step(),
    {
        if self.found.is_none() && self.position < self.steps {
            Some(self.position)
        } else {
            None
        }
    }

    /// Takes in the outcome of the pending step: a success ends the run, a
    /// failure moves it on to the next step. Without a pending step nothing
    /// changes.
    pub fn record(&mut self, outcome: &RunOutcome)
        requires
            old(self).wf(),
        ensures
            final(self).wf(),
            final(self).steps == old(self).steps,
            old(self).pending_step() is None ==> *final(self) == *old(self),
            old(self).pending_step() is Some ==> {
                &&& final(self).position == old(self).position + 1
                &&& final(self).found.deep_view() == match listing_of(outcome.deep_view()) {
                    Ok(packages) => Some(packages),
                    Err(_) => None,
                }
            },
    {
        if self.found.is_none() && self.position < self.steps {
            self.position = self.position + 1;
            match interpret_listing(outcome) {
                Ok(packages) => {
                    self.found = Some(packages);
                },
                Err(_) => {},
            }
        }
    }

    /// Whether the run is over without any step having succeeded.
    pub fn is_exhausted(&self) -> (r: bool)
        ensures
            r == (self.found is None && self.position >= self.steps),
    {
        self.found.is_none() && self.position >= self.steps
    }

    /// The packages to show: those found, or none.
    pub fn finish(self) -> (r: Vec<Package>)
        ensures
            r.deep_view() == match self.found.deep_view() {
                Some(packages) => packages,
                None => Seq::empty(),
            },
    {
        match self.found {
            Some(packages) => packages,
            None => {
                let r: Vec<Package> = Vec::new();
                assert(r.deep_view() =~= Seq::empty());
                r
            },
        }
    }
}

/// The outcome of a whole listing chain, given what each of its steps led
/// to, in order: the packages of the first step that succeeded. Steps after
/// it are not looked at. Where no step succeeded the list is empty; this
/// never fails.
pub fn list_packages(outcomes: &Vec<RunOutcome>) -> (r: Vec<Package>)
    ensures
        r.deep_view() == shown_packages(outcomes.deep_view()),
{
    let mut chain = ListingChain::new(outcomes.len());
    assert(outcomes.deep_view().take(0) =~= Seq::empty());
    loop
        invariant
            chain.wf(),
            chain.steps == outcomes.len(),
            chain.found.deep_view() == chain_listing(
                outcomes.deep_view().take(chain.position as int),
            ),
        ensures
            chain.pending_step() is None,
        decreases outcomes.len() - chain.position,
    {
        match chain.pending() {
            Some(step) => {
                let ghost upto = outcomes.deep_view().take(step + 1);
                assert(upto.drop_last() =~= outcomes.deep_view().take(step as int));
                assert(upto.last() == outcomes[step as int].deep_view());
                chain.record(&outcomes[step]);
            },
            None => {
                break ;
            },
        }
    }
    proof {
        lemma_chain_listing_settles(outcomes.deep_view(), chain.position as int);
    }
    chain.finish()
}

/// Once a prefix of a chain has yielded packages, the whole chain yields the
/// same; and the whole chain is its own longest prefix.
proof fn lemma_chain_listing_settles(outcomes: Seq<RunModel>, n: int)
    requires
        0 <= n <= outcomes.len(),
        chain_listing(outcomes.take(n)) is Some || n == outcomes.len(),
    ensures
        chain_listing(outcomes) == chain_listing(outcomes.take(n)),
    decreases outcomes.len() - n,
{
    if n == outcomes.len() {
        assert(outcomes.take(n) =~= outcomes);
    } else {
        let next = outcomes.take(n + 1);
        assert(next.drop_last() =~= outcomes.take(n));
        lemma_chain_listing_settles(outcomes, n + 1);
    }
}

/// The outcome of the machine-wide listing chain, given what each of its
/// steps led to: as [`list_packages`], over the machine-wide executables.
pub fn list_global_packages(outcomes: &Vec<RunOutcome>) -> (r: Vec<Package>)
    ensures
        r.deep_view() == shown_packages(outcomes.deep_view()),
{
    list_packages(outcomes)
}

} // verus!
