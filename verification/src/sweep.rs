//! Which of the known nodes a sweep for stale resources has to clean up.

use vstd::prelude::*;

verus! {

/// What the transport knows of the process behind a node.
#[derive(Debug, Clone, Copy, PartialEq, Eq, Structural)]
pub enum NodeCondition {
    /// The process is alive.
    Alive,
    /// The process died without cleaning up.
    Dead,
    /// This process may not find out whether the other one is alive.
    Inaccessible,
    /// The records of the node are incomplete or inconsistent.
    Undefined,
}

/// Whether a node's resources are stale: its process is dead.
pub open spec fn is_stale(condition: NodeCondition) -> bool {
    condition == NodeCondition::Dead
}

/// Whether `plan` lists, in rising order, exactly the places of the stale
/// nodes among the first `upto` of `nodes`.
pub open spec fn plans_sweep(nodes: Seq<NodeCondition>, upto: int, plan: Seq<usize>) -> bool {
    &&& forall|k: int| 0 <= k < plan.len() ==> 0 <= #[trigger] plan[k] < upto && is_stale(
        nodes[plan[k] as int],
    )
    &&& forall|j: int, k: int| 0 <= j < k < plan.len() ==> plan[j] < plan[k]
    &&& forall|i: int|
        0 <= i < upto && is_stale(#[trigger] nodes[i]) ==> exists|k: int|
            0 <= k < plan.len() && plan[k] == i
}

/// Whether the resources of a node in this condition are to be reclaimed.
#[verifier::when_used_as_spec(is_stale)]
pub fn must_reclaim(condition: NodeCondition) -> (stale: bool)
    ensures
        stale == is_stale(condition),
{
    matches!(condition, NodeCondition::Dead)
}

/// One pass over all known nodes: the places of those whose resources are
/// to be reclaimed, in the order in which the nodes were listed. Nodes that
/// are alive, inaccessible or undefined are left alone.
pub fn stale_nodes(nodes: &[NodeCondition]) -> (plan: Vec<usize>)
    ensures
        plans_sweep(nodes@, nodes@.len() as int, plan@),
{
    let mut plan: Vec<usize> = Vec::new();
    let mut i: usize = 0;
    while i < nodes.len()
        invariant
            i <= nodes@.len(),
            plans_sweep(nodes@, i as int, plan@),
        decreases nodes@.len() - i,
    {
        if must_reclaim(nodes[i]) {
            let ghost before = plan@;
            plan.push(i);
            proof {
                assert forall|at: int| 0 <= at < i + 1 && is_stale(
                    #[trigger] nodes@[at],
                ) implies exists|k: int| 0 <= k < plan@.len() && plan@[k] == at by {
                    if at < i {
                        let k = choose|k: int| 0 <= k < before.len() && before[k] == at;
                        assert(plan@[k] == at);
                    } else {
                        assert(plan@[before.len() as int] == at);
                    }
                }
            }
        }
        i += 1;
    }
    plan
}

} // verus!
