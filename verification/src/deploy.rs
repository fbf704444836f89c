//! Planning the deployment of a payload into the install target.
//!
//! A plan is a list of filesystem steps that the surrounding program runs
//! in order, stopping at the first failure. The plan is only produced once
//! every entry of the payload has passed the path-traversal guard; a
//! redeploy plan first removes the prior install's subtree. The effect of
//! running a plan is given by the model in `model`.

use vstd::prelude::*;
use crate::model::StepM;
use crate::payload::{PayloadEntry, is_safe_entry_name, safe_entry_name};
use crate::text::push_char;

verus! {

/// One step of a deployment plan, as handed to the surrounding program.
pub enum IoStep {
    /// Create a directory (and its missing ancestors) at the path.
    MakeDir(String),
    /// Create or overwrite a file at the path with the bytes.
    WriteFile(String, Vec<u8>),
    /// Remove the whole subtree at the path.
    RemoveSubtree(String),
}

/// A structured deployment failure.
pub enum DeployError {
    /// Removing the prior install failed, with the OS diagnostic;
    /// extraction was not attempted.
    RemovalFailed(String),
    /// A write or directory creation failed, with the OS diagnostic.
    ExtractionFailed(String),
    /// A payload entry's path would escape the target; nothing was run.
    PathTraversal(String),
}

/// The model of one plan step.
pub open spec fn step_model(s: IoStep) -> StepM {
    match s {
        IoStep::MakeDir(p) => StepM::MakeDir(p@),
        IoStep::WriteFile(p, d) => StepM::WriteFile(p@, d@),
        IoStep::RemoveSubtree(p) => StepM::RemoveSubtree(p@),
    }
}

/// The model of a whole plan.
pub open spec fn plan_model(v: Seq<IoStep>) -> Seq<StepM> {
    v.map_values(|s: IoStep| step_model(s))
}

/// The path of `name` placed under the directory `target`.
pub open spec fn joined(target: Seq<char>, name: Seq<char>) -> Seq<char> {
    target + "/"@ + name
}

/// The step that materializes entry `e` under `target`.
pub open spec fn entry_step(target: Seq<char>, e: PayloadEntry) -> StepM {
    if e.is_dir {
        StepM::MakeDir(joined(target, e.name@))
    } else {
        StepM::WriteFile(joined(target, e.name@), e.data@)
    }
}

/// Every entry of the payload passes the path-traversal guard.
pub open spec fn all_entries_safe(entries: Seq<PayloadEntry>) -> bool {
    forall|i: int| 0 <= i < entries.len() ==> safe_entry_name(#[trigger] entries[i].name@)
}

/// Builds the path of `name` under the directory `target`.
fn join_under(target: &str, name: &str) -> (s: String)
    ensures
        s@ == joined(target@, name@),
{
    let mut s = target.to_owned();
    push_char(&mut s, '/');
    s.append(name);
    proof {
        reveal_strlit("/");
        assert(s@ =~= joined(target@, name@));
    }
    s
}

/// Plans the installation of `entries` under `target`: one step per entry,
/// in payload order. If any entry's path would escape the target, the
/// result is `PathTraversal` with the first offending entry's name, and no
/// plan — so nothing at all is run for a traversing payload.
pub fn plan_deploy(entries: &Vec<PayloadEntry>, target: &str) -> (r: Result<
    Vec<IoStep>,
    DeployError,
>)
    ensures
        r is Ok <==> all_entries_safe(entries@),
        r matches Ok(steps) ==> plan_model(steps@) =~= Seq::new(
            entries@.len(),
            |i: int| entry_step(target@, entries@[i]),
        ),
        r matches Err(e) ==> (e matches DeployError::PathTraversal(n) && exists|i: int|
            {
                &&& 0 <= i < entries@.len()
                &&& !safe_entry_name(#[trigger] entries@[i].name@)
                &&& forall|j: int| 0 <= j < i ==> safe_entry_name(#[trigger] entries@[j].name@)
                &&& n@ == entries@[i].name@
            }),
{
    let mut steps: Vec<IoStep> = Vec::new();
    let mut i: usize = 0;
    while i < entries.len()
        invariant
            i <= entries@.len(),
            steps@.len() == i,
            forall|j: int| 0 <= j < i ==> safe_entry_name(#[trigger] entries@[j].name@),
            forall|j: int|
                0 <= j < i ==> step_model(#[trigger] steps@[j]) == entry_step(
                    target@,
                    entries@[j],
                ),
        decreases entries@.len() - i,
    {
        let e = &entries[i];
        if !is_safe_entry_name(e.name.as_str()) {
            let ghost bad = i as int;
            proof {
                assert(!safe_entry_name(entries@[bad].name@));
            }
            return Err(DeployError::PathTraversal(e.name.clone()));
        }
        let path = join_under(target, e.name.as_str());
        if e.is_dir {
            steps.push(IoStep::MakeDir(path));
        } else {
            steps.push(IoStep::WriteFile(path, e.data.clone()));
        }
        i = i + 1;
    }
    Ok(steps)
}

/// Plans a reinstallation: first remove the prior install's subtree at
/// `existing_subdir` under `target`, then install `entries` as
/// `plan_deploy` does. The guard is checked before anything else, so a
/// traversing payload aborts the whole operation with the prior install
/// left untouched.
pub fn plan_redeploy(entries: &Vec<PayloadEntry>, target: &str, existing_subdir: &str) -> (r:
    Result<Vec<IoStep>, DeployError>)
    ensures
        r is Ok <==> all_entries_safe(entries@),
        r matches Ok(steps) ==> plan_model(steps@) =~= seq![
            StepM::RemoveSubtree(joined(target@, existing_subdir@)),
        ] + Seq::new(entries@.len(), |i: int| entry_step(target@, entries@[i])),
        r matches Err(e) ==> (e matches DeployError::PathTraversal(n) && exists|i: int|
            {
                &&& 0 <= i < entries@.len()
                &&& !safe_entry_name(#[trigger] entries@[i].name@)
                &&& forall|j: int| 0 <= j < i ==> safe_entry_name(#[trigger] entries@[j].name@)
                &&& n@ == entries@[i].name@
            }),
{
    let mut rest = plan_deploy(entries, target)?;
    let ghost rest_model = plan_model(rest@);
    let mut steps: Vec<IoStep> = Vec::new();
    steps.push(IoStep::RemoveSubtree(join_under(target, existing_subdir)));
    steps.append(&mut rest);
    proof {
        assert(plan_model(steps@) =~= seq![
            StepM::RemoveSubtree(joined(target@, existing_subdir@)),
        ] + rest_model);
    }
    Ok(steps)
}

/// The verdict on one step's result, as reported by the surrounding
/// program while it runs a plan.
pub enum StepVerdict {
    /// The step succeeded; run the next one.
    Continue,
    /// The step failed; stop the run and report the error.
    Abort(DeployError),
}

/// Classifies the result of running step `i` of a plan: success continues
/// the run; a failed subtree removal aborts as `RemovalFailed` (so
/// extraction is never attempted over a half-removed prior install), and
/// any other failure aborts as `ExtractionFailed` with the OS diagnostic.
pub fn judge_step(steps: &Vec<IoStep>, i: usize, io_error: Option<String>) -> (r: StepVerdict)
    requires
        i < steps@.len(),
    ensures
        io_error is None ==> r is Continue,
        io_error matches Some(c) ==> (r matches StepVerdict::Abort(e) && (if steps@[i as int] is RemoveSubtree {
            e matches DeployError::RemovalFailed(c2) && c2@ == c@
        } else {
            e matches DeployError::ExtractionFailed(c2) && c2@ == c@
        })),
{
    match io_error {
        None => StepVerdict::Continue,
        Some(cause) => match &steps[i] {
            IoStep::RemoveSubtree(_) => StepVerdict::Abort(DeployError::RemovalFailed(cause)),
            _ => StepVerdict::Abort(DeployError::ExtractionFailed(cause)),
        },
    }
}

} // verus!
