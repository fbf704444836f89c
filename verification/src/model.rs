//! The mathematical model of a deployment: plan steps, the filesystem as a
//! map from paths to nodes, and the laws the deployer obeys.
//!
//! The surrounding program runs a plan's steps against the real filesystem
//! one by one and stops at the first failure; the laws here say what state
//! every such run leaves behind: a complete run writes exactly the plan's
//! nodes over the prior state, an interrupted run writes exactly the steps
//! already run, a repeated run changes nothing further, and a redeploy
//! leaves nothing of the prior install under the replaced subtree.

use vstd::prelude::*;

verus! {

/// One step of a deployment plan, in model form.
pub enum StepM {
    /// Create a directory (and its missing ancestors) at the path.
    MakeDir(Seq<char>),
    /// Create or overwrite a file at the path with the bytes.
    WriteFile(Seq<char>, Seq<u8>),
    /// Remove the whole subtree at the path.
    RemoveSubtree(Seq<char>),
}

/// One node of the modelled filesystem.
pub enum NodeM {
    Dir,
    File(Seq<u8>),
}

/// Whether path `k` is `p` itself or lies underneath the directory `p`.
pub open spec fn path_under(p: Seq<char>, k: Seq<char>) -> bool {
    k == p || (k.len() > p.len() && k.take(p.len() as int) == p && k[p.len() as int] == '/')
}

/// The effect of one step on the modelled filesystem.
pub open spec fn apply_step(m: Map<Seq<char>, NodeM>, s: StepM) -> Map<Seq<char>, NodeM> {
    match s {
        StepM::MakeDir(p) => m.insert(p, NodeM::Dir),
        StepM::WriteFile(p, d) => m.insert(p, NodeM::File(d)),
        StepM::RemoveSubtree(p) => Map::new(
            |k: Seq<char>| m.dom().contains(k) && !path_under(p, k),
            |k: Seq<char>| m[k],
        ),
    }
}

/// The effect of a plan run from front to back.
pub open spec fn apply_steps(m: Map<Seq<char>, NodeM>, ss: Seq<StepM>) -> Map<Seq<char>, NodeM>
    decreases ss.len(),
{
    if ss.len() == 0 {
        m
    } else {
        apply_steps(apply_step(m, ss[0]), ss.drop_first())
    }
}

/// A plan that only creates directories and writes files.
pub open spec fn write_only(ss: Seq<StepM>) -> bool {
    forall|i: int| 0 <= i < ss.len() ==> !(#[trigger] ss[i] is RemoveSubtree)
}

/// What a plan puts on the filesystem on its own, with no prior state.
pub open spec fn writes_of(ss: Seq<StepM>) -> Map<Seq<char>, NodeM> {
    apply_steps(Map::empty(), ss)
}

/// Law: a write-only plan overlays its own writes on the prior state; a
/// path it does not write keeps its prior node, and a path it writes holds
/// exactly the written node.
pub proof fn lemma_apply_is_overlay(m: Map<Seq<char>, NodeM>, ss: Seq<StepM>)
    requires
        write_only(ss),
    ensures
        apply_steps(m, ss) == m.union_prefer_right(writes_of(ss)),
    decreases ss.len(),
{
    if ss.len() == 0 {
        assert(m.union_prefer_right(Map::empty()) =~= m);
    } else {
        let rest = ss.drop_first();
        assert forall|i: int| 0 <= i < rest.len() implies !(#[trigger] rest[i] is RemoveSubtree) by {
            assert(rest[i] == ss[i + 1]);
        }
        let m1 = apply_step(m, ss[0]);
        let e1 = apply_step(Map::empty(), ss[0]);
        lemma_apply_is_overlay(m1, rest);
        lemma_apply_is_overlay(e1, rest);
        assert(writes_of(ss) == e1.union_prefer_right(writes_of(rest)));
        assert(!(ss[0] is RemoveSubtree));
        assert(m1.union_prefer_right(writes_of(rest)) =~= m.union_prefer_right(
            e1.union_prefer_right(writes_of(rest)),
        ));
    }
}

/// Law: running the same write-only plan a second time changes nothing;
/// deploying a payload twice to one target gives the state one deployment
/// gives.
pub proof fn lemma_deploy_idempotent(m: Map<Seq<char>, NodeM>, ss: Seq<StepM>)
    requires
        write_only(ss),
    ensures
        apply_steps(apply_steps(m, ss), ss) == apply_steps(m, ss),
{
    lemma_apply_is_overlay(m, ss);
    lemma_apply_is_overlay(apply_steps(m, ss), ss);
    assert(m.union_prefer_right(writes_of(ss)).union_prefer_right(writes_of(ss))
        =~= m.union_prefer_right(writes_of(ss)));
}

/// Law: an interrupted run of a write-only plan — its first `n` steps ran,
/// the rest did not — leaves the prior state overlaid with exactly those
/// `n` steps' writes, and touches nothing else.
pub proof fn lemma_partial_apply(m: Map<Seq<char>, NodeM>, ss: Seq<StepM>, n: int)
    requires
        write_only(ss),
        0 <= n <= ss.len(),
    ensures
        apply_steps(m, ss.take(n)) == m.union_prefer_right(writes_of(ss.take(n))),
{
    assert forall|i: int| 0 <= i < ss.take(n).len() implies !(#[trigger] ss.take(n)[i]
        is RemoveSubtree) by {
        assert(ss.take(n)[i] == ss[i]);
    }
    lemma_apply_is_overlay(m, ss.take(n));
}

/// Law: a redeploy — removing the prior subtree, then running a write-only
/// plan — leaves under that subtree exactly what the plan wrote there: no
/// path of the prior state survives under it, so old and new files never
/// mix.
pub proof fn lemma_redeploy_replaces_subtree(
    m: Map<Seq<char>, NodeM>,
    sub: Seq<char>,
    ss: Seq<StepM>,
    k: Seq<char>,
)
    requires
        write_only(ss),
        path_under(sub, k),
    ensures
        apply_steps(m, seq![StepM::RemoveSubtree(sub)] + ss).dom().contains(k)
            <==> writes_of(ss).dom().contains(k),
        apply_steps(m, seq![StepM::RemoveSubtree(sub)] + ss).dom().contains(k)
            ==> apply_steps(m, seq![StepM::RemoveSubtree(sub)] + ss)[k] == writes_of(ss)[k],
{
    let full = seq![StepM::RemoveSubtree(sub)] + ss;
    let m1 = apply_step(m, StepM::RemoveSubtree(sub));
    assert(full[0] == StepM::RemoveSubtree(sub));
    assert(full.drop_first() =~= ss);
    lemma_apply_is_overlay(m1, ss);
    assert(!m1.dom().contains(k));
}

} // verus!
