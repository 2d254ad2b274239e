//! Laws of the turn engine, proved over its step functions.

use vstd::prelude::*;
use crate::ai::AiAction;
use crate::command::CommandView;
use crate::engine::{
    ai_step, ai_turn, dispatch_step, exploited, fortified, fortify_step, index_by_id, index_by_name,
    logged, no_ap_line, player_step, turn_spent, weakened, AppView, FORTIFY_COST, SCAN_COST,
};
use crate::node::{add_once, lemma_add_once, NodeView, StatusEffect};
use crate::state::nodes_valid;

verus! {

/// The session after a run of commands, the adversary deciding `ds[k]` after
/// command `k` (no action where `ds` runs short).
pub open spec fn run_commands(
    s: AppView,
    cs: Seq<CommandView>,
    ds: Seq<Option<AiAction>>,
) -> AppView
    decreases cs.len(),
{
    if cs.len() == 0 {
        s
    } else {
        let d = if ds.len() > 0 {
            ds[0]
        } else {
            None
        };
        run_commands(
            dispatch_step(s, cs[0], d),
            cs.drop_first(),
            if ds.len() > 0 {
                ds.drop_first()
            } else {
                ds
            },
        )
    }
}

/// Fortifying the same name `k` times in a row.
pub open spec fn fortify_repeat(s: AppView, q: Seq<char>, k: nat) -> AppView
    decreases k,
{
    if k == 0 {
        s
    } else {
        fortify_step(fortify_repeat(s, q, (k - 1) as nat), q).0
    }
}

/// The adversary weakening the same id `k` times in a row.
pub open spec fn weaken_repeat(s: AppView, id: usize, k: nat) -> AppView
    decreases k,
{
    if k == 0 {
        s
    } else {
        ai_step(weaken_repeat(s, id, (k - 1) as nat), AiAction::Weaken(id))
    }
}

/// Two node lists of one length whose nodes agree on names and ids.
pub open spec fn same_labels(a: Seq<NodeView>, b: Seq<NodeView>) -> bool {
    &&& a.len() == b.len()
    &&& forall|j: int| 0 <= j < a.len() ==> #[trigger] a[j].name == b[j].name && a[j].id == b[j].id
}

proof fn lemma_same_labels_lookup(a: Seq<NodeView>, b: Seq<NodeView>, q: Seq<char>, id: usize, from: int)
    requires
        same_labels(a, b),
    ensures
        index_by_name(a, q, from) == index_by_name(b, q, from),
        index_by_id(a, id, from) == index_by_id(b, id, from),
    decreases a.len() - from,
{
    if 0 <= from < a.len() {
        assert(a[from].name == b[from].name && a[from].id == b[from].id);
        lemma_same_labels_lookup(a, b, q, id, from + 1);
    }
}

proof fn lemma_index_by_name_in_range(a: Seq<NodeView>, q: Seq<char>, from: int)
    ensures
        index_by_name(a, q, from) matches Some(i) ==> 0 <= i < a.len(),
    decreases a.len() - from,
{
    if 0 <= from < a.len() {
        lemma_index_by_name_in_range(a, q, from + 1);
    }
}

proof fn lemma_index_by_id_in_range(a: Seq<NodeView>, id: usize, from: int)
    ensures
        index_by_id(a, id, from) matches Some(i) ==> 0 <= i < a.len(),
    decreases a.len() - from,
{
    if 0 <= from < a.len() {
        lemma_index_by_id_in_range(a, id, from + 1);
    }
}

/// Replacing a node by one with the same id and cell that is itself
/// well-formed keeps the node list valid.
proof fn lemma_update_keeps_valid(nodes: Seq<NodeView>, i: int, n: NodeView)
    requires
        nodes_valid(nodes),
        0 <= i < nodes.len(),
        n.id == nodes[i].id,
        n.pos == nodes[i].pos,
        n.well_formed(),
    ensures
        nodes_valid(nodes.update(i, n)),
        same_labels(nodes, nodes.update(i, n)) <== n.name == nodes[i].name,
{
    let u = nodes.update(i, n);
    assert forall|j: int| 0 <= j < u.len() implies #[trigger] u[j].well_formed() by {
        if j != i {
            assert(nodes[j].well_formed());
        }
    }
}

proof fn lemma_node_effects_keep_form(n: NodeView)
    requires
        n.well_formed(),
    ensures
        fortified(n).well_formed(),
        exploited(n).well_formed(),
        weakened(n).well_formed(),
{
    lemma_add_once(n.status_effects, StatusEffect::Shield);
    lemma_add_once(n.status_effects, StatusEffect::Vulnerability);
}

proof fn lemma_player_step_keeps_form(s: AppView, c: CommandView)
    requires
        s.state.well_formed(),
    ensures
        player_step(s, c).0.state.well_formed(),
        same_labels(s.state.nodes, player_step(s, c).0.state.nodes),
{
    match c {
        CommandView::Fortify(q) | CommandView::Scan(q) => {
            lemma_index_by_name_in_range(s.state.nodes, q, 0);
            if let Some(i) = index_by_name(s.state.nodes, q, 0) {
                lemma_node_effects_keep_form(s.state.nodes[i]);
                lemma_update_keeps_valid(s.state.nodes, i, fortified(s.state.nodes[i]));
                lemma_update_keeps_valid(s.state.nodes, i, s.state.nodes[i]);
            }
        },
        _ => {},
    }
}

proof fn lemma_ai_turn_keeps_form(s: AppView, d: Option<AiAction>)
    requires
        s.state.well_formed(),
    ensures
        ai_turn(s, d).state.well_formed(),
        same_labels(s.state.nodes, ai_turn(s, d).state.nodes),
{
    if let Some(a) = d {
        let id = match a {
            AiAction::Exploit(id) => id,
            AiAction::Weaken(id) => id,
        };
        lemma_index_by_id_in_range(s.state.nodes, id, 0);
        if let Some(i) = index_by_id(s.state.nodes, id, 0) {
            lemma_node_effects_keep_form(s.state.nodes[i]);
            lemma_update_keeps_valid(s.state.nodes, i, exploited(s.state.nodes[i]));
            lemma_update_keeps_valid(s.state.nodes, i, weakened(s.state.nodes[i]));
        }
    }
}

/// One command, whatever the adversary decides, keeps the game state
/// well-formed: every node's hit points between zero and its ceiling, no
/// effect listed twice, no two nodes on one cell, and the same nodes by name
/// and id.
pub proof fn lemma_dispatch_keeps_form(s: AppView, c: CommandView, d: Option<AiAction>)
    requires
        s.state.well_formed(),
    ensures
        dispatch_step(s, c, d).state.well_formed(),
        same_labels(s.state.nodes, dispatch_step(s, c, d).state.nodes),
{
    match c {
        CommandView::Help(_) | CommandView::Invalid => {},
        _ => {
            lemma_player_step_keeps_form(s, c);
            let t = player_step(s, c).0;
            lemma_ai_turn_keeps_form(t, d);
        },
    }
}

/// Saturation: after any run of commands (fortifying among them) and any
/// decisions of the adversary, every node's hit points stay between zero and
/// its ceiling, and the game state stays well-formed.
pub proof fn lemma_hit_points_stay_bounded(
    s: AppView,
    cs: Seq<CommandView>,
    ds: Seq<Option<AiAction>>,
)
    requires
        s.state.well_formed(),
    ensures
        run_commands(s, cs, ds).state.well_formed(),
        forall|i: int|
            0 <= i < run_commands(s, cs, ds).state.nodes.len() ==> 0
                <= #[trigger] run_commands(s, cs, ds).state.nodes[i].hp <= run_commands(
                s,
                cs,
                ds,
            ).state.nodes[i].max_hp,
    decreases cs.len(),
{
    if cs.len() > 0 {
        let d = if ds.len() > 0 {
            ds[0]
        } else {
            None
        };
        lemma_dispatch_keeps_form(s, cs[0], d);
        lemma_hit_points_stay_bounded(
            dispatch_step(s, cs[0], d),
            cs.drop_first(),
            if ds.len() > 0 {
                ds.drop_first()
            } else {
                ds
            },
        );
    }
    let r = run_commands(s, cs, ds);
    assert forall|i: int| 0 <= i < r.state.nodes.len() implies 0 <= #[trigger] r.state.nodes[i].hp
        <= r.state.nodes[i].max_hp by {
        assert(r.state.nodes[i].well_formed());
    }
}

/// Fortifying a node already at its ceiling leaves its hit points as they
/// are, still shields it, and still charges the cost.
pub proof fn lemma_fortify_at_ceiling(s: AppView, q: Seq<char>)
    requires
        s.state.player_ap >= FORTIFY_COST,
        index_by_name(s.state.nodes, q, 0) matches Some(i) && s.state.nodes[i].hp
            == s.state.nodes[i].max_hp,
    ensures
        ({
            let i = index_by_name(s.state.nodes, q, 0)->Some_0;
            let (t, spent) = fortify_step(s, q);
            &&& spent
            &&& t.state.nodes[i].hp == s.state.nodes[i].hp
            &&& t.state.nodes[i].status_effects == add_once(
                s.state.nodes[i].status_effects,
                StatusEffect::Shield,
            )
            &&& t.state.nodes[i].status_effects.contains(StatusEffect::Shield)
            &&& t.state.player_ap == s.state.player_ap - FORTIFY_COST
        }),
{
    let i = index_by_name(s.state.nodes, q, 0)->Some_0;
    lemma_index_by_name_in_range(s.state.nodes, q, 0);
    let e = s.state.nodes[i].status_effects;
    if !e.contains(StatusEffect::Shield) {
        assert(e.push(StatusEffect::Shield)[e.len() as int] == StatusEffect::Shield);
    }
}

/// Fortifying the same name any number of times leaves the target's effects
/// as one fortification does: the shield is there once.
pub proof fn lemma_fortify_repeat_effects(s: AppView, q: Seq<char>, k: nat)
    requires
        k >= 1,
        s.state.player_ap >= FORTIFY_COST,
        index_by_name(s.state.nodes, q, 0) is Some,
    ensures
        ({
            let i = index_by_name(s.state.nodes, q, 0)->Some_0;
            fortify_repeat(s, q, k).state.nodes[i].status_effects == add_once(
                s.state.nodes[i].status_effects,
                StatusEffect::Shield,
            )
        }),
        same_labels(s.state.nodes, fortify_repeat(s, q, k).state.nodes),
    decreases k,
{
    let i = index_by_name(s.state.nodes, q, 0)->Some_0;
    lemma_index_by_name_in_range(s.state.nodes, q, 0);
    let e = s.state.nodes[i].status_effects;
    if k == 1 {
        assert(fortify_repeat(s, q, 0) == s);
        lemma_update_keeps_labels(s.state.nodes, i, fortified(s.state.nodes[i]));
    } else {
        lemma_fortify_repeat_effects(s, q, (k - 1) as nat);
        let t = fortify_repeat(s, q, (k - 1) as nat);
        lemma_same_labels_lookup(s.state.nodes, t.state.nodes, q, 0, 0);
        if t.state.player_ap >= FORTIFY_COST {
            lemma_update_keeps_labels(t.state.nodes, i, fortified(t.state.nodes[i]));
            lemma_same_labels_trans(s.state.nodes, t.state.nodes, fortify_step(t, q).0.state.nodes);
            if !e.contains(StatusEffect::Shield) {
                assert(e.push(StatusEffect::Shield)[e.len() as int] == StatusEffect::Shield);
            }
        }
    }
}

proof fn lemma_update_keeps_labels(nodes: Seq<NodeView>, i: int, n: NodeView)
    requires
        0 <= i < nodes.len(),
        n.name == nodes[i].name,
        n.id == nodes[i].id,
    ensures
        same_labels(nodes, nodes.update(i, n)),
{
}

proof fn lemma_same_labels_trans(a: Seq<NodeView>, b: Seq<NodeView>, c: Seq<NodeView>)
    requires
        same_labels(a, b),
        same_labels(b, c),
    ensures
        same_labels(a, c),
{
    assert forall|j: int| 0 <= j < a.len() implies #[trigger] a[j].name == c[j].name && a[j].id
        == c[j].id by {
        assert(a[j].name == b[j].name && b[j].name == c[j].name);
    }
}

/// Weakening a node that is already vulnerable changes nothing.
pub proof fn lemma_weaken_vulnerable(s: AppView, id: usize)
    requires
        index_by_id(s.state.nodes, id, 0) matches Some(i) && s.state.nodes[i].status_effects.contains(
            StatusEffect::Vulnerability,
        ),
    ensures
        ai_step(s, AiAction::Weaken(id)) == s,
{
}

/// Weakening the same id any number of times does what one weakening does.
pub proof fn lemma_weaken_repeat(s: AppView, id: usize, k: nat)
    requires
        k >= 1,
    ensures
        weaken_repeat(s, id, k) == ai_step(s, AiAction::Weaken(id)),
    decreases k,
{
    if k == 1 {
        assert(weaken_repeat(s, id, 0) == s);
    } else {
        lemma_weaken_repeat(s, id, (k - 1) as nat);
        let t = ai_step(s, AiAction::Weaken(id));
        lemma_index_by_id_in_range(s.state.nodes, id, 0);
        if let Some(i) = index_by_id(s.state.nodes, id, 0) {
            let n = s.state.nodes[i];
            if !n.status_effects.contains(StatusEffect::Vulnerability) {
                lemma_update_keeps_labels(s.state.nodes, i, weakened(n));
                lemma_same_labels_lookup(s.state.nodes, t.state.nodes, Seq::empty(), id, 0);
                let e = n.status_effects;
                assert(e.push(StatusEffect::Vulnerability)[e.len() as int]
                    == StatusEffect::Vulnerability);
            }
        }
    }
}

/// A node action refused for want of points changes nothing but the log,
/// which gains one line that does not depend on the name; the adversary does
/// not move, whatever it would decide.
pub proof fn lemma_short_of_points(s: AppView, c: CommandView, d: Option<AiAction>)
    requires
        (c matches CommandView::Fortify(_) && s.state.player_ap < FORTIFY_COST) || (c matches CommandView::Scan(
            _,
        ) && s.state.player_ap < SCAN_COST),
    ensures
        dispatch_step(s, c, d) == logged(s, seq![no_ap_line()]),
        !turn_spent(s, c),
{
}

/// A fortification or scan that finds its node charges exactly its cost and
/// is followed by exactly one adversary phase, on the decision given.
pub proof fn lemma_spent_turn(s: AppView, c: CommandView, d: Option<AiAction>)
    requires
        (c matches CommandView::Fortify(q) && s.state.player_ap >= FORTIFY_COST && index_by_name(
            s.state.nodes,
            q,
            0,
        ) is Some) || (c matches CommandView::Scan(q) && s.state.player_ap >= SCAN_COST
            && index_by_name(s.state.nodes, q, 0) is Some),
    ensures
        turn_spent(s, c),
        player_step(s, c).0.state.player_ap == s.state.player_ap - (if c is Fortify {
            FORTIFY_COST
        } else {
            SCAN_COST
        }),
        dispatch_step(s, c, d) == ai_turn(player_step(s, c).0, d),
{
}

/// Quitting and asking for help never start the adversary's phase and leave
/// the points and the nodes as they were.
pub proof fn lemma_quit_and_help_spend_nothing(s: AppView, c: CommandView, d: Option<AiAction>)
    requires
        c is Quit || c is Help,
    ensures
        !turn_spent(s, c),
        dispatch_step(s, c, d) == dispatch_step(s, c, None),
        dispatch_step(s, c, d).state == s.state,
{
}

} // verus!
