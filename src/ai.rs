//! The adversary's decision procedure.

use vstd::prelude::*;
use rand::Rng;
use crate::node::{views, Node, NodeView};

verus! {

/// What the adversary does on its turn, against the node of the given id.
#[derive(Debug, Clone, Copy, PartialEq, Eq, Structural)]
pub enum AiAction {
    /// Takes hit points from the target.
    Exploit(usize),
    /// Makes the target vulnerable.
    Weaken(usize),
}

/// The adversary. It keeps no state between turns.
pub struct AiMind;

/// Relies on rand's `Rng::random_range` on the thread-local generator, which
/// returns a value of the range and panics only on an empty one.
#[verifier::external_body]
pub(crate) fn random_below(n: usize) -> (r: usize)
    requires
        n > 0,
    ensures
        r < n,
{
    rand::rng().random_range(0..n)
}

/// The decision for the target at index `target` and the action kind at index
/// `kind` of `[Exploit, Weaken]`; none when there are no nodes.
pub open spec fn decision(nodes: Seq<NodeView>, target: int, kind: int) -> Option<AiAction> {
    if nodes.len() == 0 {
        None
    } else if kind == 0 {
        Some(AiAction::Exploit(nodes[target].id))
    } else {
        Some(AiAction::Weaken(nodes[target].id))
    }
}

/// A decision that the adversary may take: none exactly when there are no
/// nodes, else one of the two kinds against one of the nodes.
pub open spec fn possible_decision(nodes: Seq<NodeView>, d: Option<AiAction>) -> bool {
    if nodes.len() == 0 {
        d is None
    } else {
        exists|t: int, k: int| 0 <= t < nodes.len() && 0 <= k < 2 && d == decision(nodes, t, k)
    }
}

impl AiMind {
    /// The decision for given draws: `target` indexes the nodes, `kind` the
    /// action kinds `[Exploit, Weaken]`.
    pub fn decide_with(nodes: &[Node], target: usize, kind: usize) -> (r: Option<AiAction>)
        requires
            nodes@.len() == 0 || target < nodes@.len(),
            kind < 2,
        ensures
            r == decision(views(nodes@), target as int, kind as int),
    {
        if nodes.len() == 0 {
            None
        } else if kind == 0 {
            Some(AiAction::Exploit(nodes[target].id))
        } else {
            Some(AiAction::Weaken(nodes[target].id))
        }
    }

    /// Picks a target uniformly among the nodes, then one of the two action
    /// kinds uniformly; none when there are no nodes.
    pub fn decide_action(nodes: &[Node]) -> (r: Option<AiAction>)
        ensures
            possible_decision(views(nodes@), r),
    {
        if nodes.len() == 0 {
            return None;
        }
        let target = random_below(nodes.len());
        let kind = random_below(2);
        let r = AiMind::decide_with(nodes, target, kind);
        assert(0 <= target < views(nodes@).len() && 0 <= kind < 2 && r == decision(
            views(nodes@),
            target as int,
            kind as int,
        ));
        r
    }
}

} // verus!
