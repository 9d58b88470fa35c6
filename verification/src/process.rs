//! External tools as plain values: what to run, and what came back.
//!
//! The library never starts a process. It describes each invocation it needs,
//! and decides from the outcome that its caller reports.

use crate::text::trim;
use crate::text::trim_text;
use vstd::prelude::*;

verus! {

/// One external command: the program to start and its arguments.
#[derive(Debug, PartialEq, Eq)]
pub struct Invocation {
    pub program: String,
    pub args: Vec<String>,
}

/// The mathematical value of an [`Invocation`].
pub ghost struct InvocationModel {
    pub program: Seq<char>,
    pub args: Seq<Seq<char>>,
}

impl DeepView for Invocation {
    type V = InvocationModel;

    open spec fn deep_view(&self) -> InvocationModel {
        InvocationModel { program: self.program@, args: self.args.deep_view() }
    }
}

/// What running an [`Invocation`] led to.
#[derive(Debug, PartialEq, Eq)]
pub enum RunOutcome {
    /// The program does not exist or could not be started.
    NotStarted,
    /// The program ran to its end.
    Exited { success: bool, stdout: String, stderr: String },
}

/// The mathematical value of a [`RunOutcome`].
pub ghost enum RunModel {
    NotStarted,
    Exited { success: bool, stdout: Seq<char>, stderr: Seq<char> },
}

impl DeepView for RunOutcome {
    type V = RunModel;

    open spec fn deep_view(&self) -> RunModel {
        match self {
            RunOutcome::NotStarted => RunModel::NotStarted,
            RunOutcome::Exited { success, stdout, stderr } => RunModel::Exited {
                success: *success,
                stdout: stdout@,
                stderr: stderr@,
            },
        }
    }
}

/// What a tool reported: its trimmed standard output, or its trimmed error
/// stream where the output is blank.
pub open spec fn reported_text(stdout: Seq<char>, stderr: Seq<char>) -> Seq<char> {
    if trim_text(stdout).len() > 0 {
        trim_text(stdout)
    } else {
        trim_text(stderr)
    }
}

/// The report of a tool that ran and exited cleanly; nothing otherwise.
pub open spec fn clean_report(outcome: RunModel) -> Option<Seq<char>> {
    match outcome {
        RunModel::Exited { success: true, stdout, stderr } => Some(reported_text(stdout, stderr)),
        _ => None,
    }
}

/// What a tool reported on its two streams: standard output is preferred,
/// the error stream is used where standard output is blank.
pub fn report(stdout: &str, stderr: &str) -> (r: String)
    ensures
        r@ == reported_text(stdout@, stderr@),
{
    let out = trim(stdout);
    if out.as_str().is_empty() {
        trim(stderr)
    } else {
        out
    }
}

impl RunOutcome {
    /// The report of a run that exited cleanly; `None` for a run that failed
    /// or never started.
    pub fn clean_report(&self) -> (r: Option<String>)
        ensures
            r.deep_view() == clean_report(self.deep_view()),
    {
        match self {
            RunOutcome::Exited { success, stdout, stderr } => {
                if *success {
                    Some(report(stdout.as_str(), stderr.as_str()))
                } else {
                    None
                }
            },
            RunOutcome::NotStarted => None,
        }
    }
}

/// An argument list made of the given words, in order.
pub fn words2(a: &str, b: &str) -> (r: Vec<String>)
    ensures
        r.deep_view() == seq![a@, b@],
{
    let mut v: Vec<String> = Vec::new();
    v.push(a.to_owned());
    v.push(b.to_owned());
    assert(v.deep_view() =~= seq![a@, b@]);
    v
}

/// An argument list made of the given words, in order.
pub fn words3(a: &str, b: &str, c: &str) -> (r: Vec<String>)
    ensures
        r.deep_view() == seq![a@, b@, c@],
{
    let mut v: Vec<String> = Vec::new();
    v.push(a.to_owned());
    v.push(b.to_owned());
    v.push(c.to_owned());
    assert(v.deep_view() =~= seq![a@, b@, c@]);
    v
}

/// An argument list made of the given words, in order.
pub fn words4(a: &str, b: &str, c: &str, d: &str) -> (r: Vec<String>)
    ensures
        r.deep_view() == seq![a@, b@, c@, d@],
{
    let mut v: Vec<String> = Vec::new();
    v.push(a.to_owned());
    v.push(b.to_owned());
    v.push(c.to_owned());
    v.push(d.to_owned());
    assert(v.deep_view() =~= seq![a@, b@, c@, d@]);
    v
}

/// An argument list made of the given words, in order.
pub fn words5(a: &str, b: &str, c: &str, d: &str, e: &str) -> (r: Vec<String>)
    ensures
        r.deep_view() == seq![a@, b@, c@, d@, e@],
{
    let mut v: Vec<String> = Vec::new();
    v.push(a.to_owned());
    v.push(b.to_owned());
    v.push(c.to_owned());
    v.push(d.to_owned());
    v.push(e.to_owned());
    assert(v.deep_view() =~= seq![a@, b@, c@, d@, e@]);
    v
}

} // verus!
