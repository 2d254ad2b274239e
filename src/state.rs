//! The game state and its creation.

use vstd::prelude::*;
use rand::seq::SliceRandom;
use crate::ai::random_below;
use crate::node::{kind_label, on_grid, views, Node, NodeType, NodeView, GRID_SIZE, MAX_HP};

verus! {

/// Fewest nodes a game starts with.
pub const MIN_NODES: usize = 5;

/// Most nodes a game starts with.
pub const MAX_NODES: usize = 6;

/// Action points at the start of a game.
pub const START_AP: u8 = 10;

/// System integrity at the start of a game.
pub const START_INTEGRITY: u8 = 50;

/// The whole mutable world.
#[derive(Debug)]
pub struct GameState {
    pub nodes: Vec<Node>,
    pub turn_count: u32,
    pub player_ap: u8,
    pub global_integrity: u8,
}

/// The game state as mathematical values.
pub struct GameStateView {
    pub nodes: Seq<NodeView>,
    pub turn_count: u32,
    pub player_ap: u8,
    pub global_integrity: u8,
}

impl View for GameState {
    type V = GameStateView;

    open spec fn view(&self) -> GameStateView {
        GameStateView {
            nodes: views(self.nodes@),
            turn_count: self.turn_count,
            player_ap: self.player_ap,
            global_integrity: self.global_integrity,
        }
    }
}

/// Every node within its bounds, and no two nodes sharing an id or a cell.
pub open spec fn nodes_valid(nodes: Seq<NodeView>) -> bool {
    &&& forall|i: int| 0 <= i < nodes.len() ==> #[trigger] nodes[i].well_formed()
    &&& forall|i: int, j: int|
        0 <= i < nodes.len() && 0 <= j < nodes.len() && i != j ==> nodes[i].id != nodes[j].id
            && nodes[i].pos != nodes[j].pos
}

impl GameStateView {
    /// The invariants of the game state.
    pub open spec fn well_formed(self) -> bool {
        &&& nodes_valid(self.nodes)
        &&& self.player_ap <= START_AP
        &&& self.global_integrity <= 100
    }
}

/// The cell of the grid at index `k`, counting row by row.
pub open spec fn cell(k: int) -> (u8, u8) {
    ((k % (GRID_SIZE as int)) as u8, (k / (GRID_SIZE as int)) as u8)
}

/// All cells of the grid, row by row.
pub open spec fn grid() -> Seq<(u8, u8)> {
    Seq::new(16, |k: int| cell(k))
}

/// The six node kinds, each once.
pub open spec fn all_kinds() -> Seq<NodeType> {
    seq![
        NodeType::Gateway,
        NodeType::WebServer,
        NodeType::Authentication,
        NodeType::Database,
        NodeType::Firewall,
        NodeType::InternalApi,
    ]
}

/// Relies on rand's `SliceRandom::shuffle` on the thread-local generator,
/// which only swaps elements: the result is a permutation of the input.
#[verifier::external_body]
fn shuffle_kinds(v: &mut Vec<NodeType>)
    ensures
        final(v)@.to_multiset() == old(v)@.to_multiset(),
{
    v.shuffle(&mut rand::rng());
}

/// Holds of the cells that no position in `taken` occupies.
pub open spec fn is_free(taken: Seq<(u8, u8)>) -> spec_fn((u8, u8)) -> bool {
    |p: (u8, u8)| !taken.contains(p)
}

/// The free cells of the grid, row by row.
pub open spec fn free_of(taken: Seq<(u8, u8)>) -> Seq<(u8, u8)> {
    grid().filter(is_free(taken))
}

/// The cells that nodes take when each draws, in turn, one of the cells that
/// the nodes before it left free: the `picks[i]`-th of them, row by row.
pub open spec fn layout(picks: Seq<usize>) -> Seq<(u8, u8)>
    decreases picks.len(),
{
    if picks.len() == 0 {
        Seq::empty()
    } else {
        let before = layout(picks.drop_last());
        before.push(free_of(before)[picks.last() as int])
    }
}

/// The cells of the grid that no position in `taken` occupies, row by row.
pub fn free_cells(taken: &Vec<(u8, u8)>) -> (r: Vec<(u8, u8)>)
    ensures
        r@ == free_of(taken@),
        forall|p: (u8, u8)| #[trigger] r@.contains(p) <==> on_grid(p) && !taken@.contains(p),
{
    let mut r: Vec<(u8, u8)> = Vec::new();
    let mut k: u8 = 0;
    while k < 16
        invariant
            k <= 16,
            r@ == grid().take(k as int).filter(is_free(taken@)),
            forall|p: (u8, u8)|
                #[trigger] r@.contains(p) <==> on_grid(p) && (p.1 as int) * 4 + (p.0 as int) < k
                    && !taken@.contains(p),
        decreases 16 - k,
    {
        let x = k % GRID_SIZE;
        let y = k / GRID_SIZE;
        assert(cell(k as int) == (x, y));
        let mut seen = false;
        let mut j: usize = 0;
        while j < taken.len()
            invariant
                j <= taken@.len(),
                seen <==> exists|i: int| 0 <= i < j && taken@[i] == (x, y),
            decreases taken@.len() - j,
        {
            if taken[j].0 == x && taken[j].1 == y {
                seen = true;
            }
            j = j + 1;
        }
        assert(seen <==> taken@.contains((x, y)));
        if !seen {
            r.push((x, y));
        }
        proof {
            broadcast use vstd::seq_lib::lemma_seq_contains_after_push;

            assert(grid().take(k + 1) =~= grid().take(k as int).push(cell(k as int)));
            grid().take(k as int).lemma_filter_push(cell(k as int), is_free(taken@));
        }
        k = k + 1;
    }
    assert(grid().take(16) =~= grid());
    r
}

/// At least as many cells are free as the grid has cells not taken.
proof fn lemma_free_count(taken: Seq<(u8, u8)>, free: Seq<(u8, u8)>)
    requires
        forall|p: (u8, u8)| free.contains(p) <==> on_grid(p) && !taken.contains(p),
    ensures
        free.len() + taken.len() >= 16,
{
    let g = grid();
    assert forall|i: int, j: int| 0 <= i < g.len() && 0 <= j < g.len() && i != j implies g[i]
        != g[j] by {
        assert(g[i] == cell(i) && g[j] == cell(j));
    }
    g.unique_seq_to_set();
    assert forall|p: (u8, u8)| g.to_set().contains(p) implies free.to_set().union(
        taken.to_set(),
    ).contains(p) by {
        let k = choose|k: int| 0 <= k < g.len() && g[k] == p;
        assert(g[k] == cell(k));
        assert(on_grid(p));
        if !taken.contains(p) {
            assert(free.contains(p));
        }
    }
    vstd::set_lib::lemma_len_union(free.to_set(), taken.to_set());
    vstd::set_lib::lemma_len_subset(g.to_set(), free.to_set().union(taken.to_set()));
    taken.lemma_cardinality_of_set();
    free.lemma_cardinality_of_set();
}

/// The kinds taken in turn from the end of `kinds`, one per node.
pub open spec fn kind_of(kinds: Seq<NodeType>, i: int) -> NodeType {
    kinds[kinds.len() - 1 - i]
}

/// Draws that `from_draws` can take: a kind for each node, and for node `i`
/// an index among the `16 - i` cells still free.
pub open spec fn draws_fit(kinds: Seq<NodeType>, picks: Seq<usize>) -> bool {
    &&& picks.len() <= kinds.len()
    &&& forall|i: int| 0 <= i < picks.len() ==> #[trigger] picks[i] < 16 - i
}

proof fn lemma_layout(picks: Seq<usize>)
    requires
        forall|i: int| 0 <= i < picks.len() ==> #[trigger] picks[i] < 16 - i,
    ensures
        layout(picks).len() == picks.len(),
        forall|i: int| 0 <= i < picks.len() ==> on_grid(#[trigger] layout(picks)[i]),
        layout(picks).no_duplicates(),
    decreases picks.len(),
{
    if picks.len() > 0 {
        let rest = picks.drop_last();
        assert forall|i: int| 0 <= i < rest.len() implies #[trigger] rest[i] < 16 - i by {
            assert(rest[i] == picks[i]);
        }
        lemma_layout(rest);
        let before = layout(rest);
        let free = free_of(before);
        lemma_free_of_contains(before);
        lemma_free_count(before, free);
        let p = free[picks.last() as int];
        assert(free.contains(p));
        assert forall|i: int, j: int|
            0 <= i < before.len() + 1 && 0 <= j < before.len() + 1 && i != j implies before.push(
            p,
        )[i] != before.push(p)[j] by {
            if i == before.len() {
                assert(before.push(p)[j] == before[j]);
                assert(before.contains(before[j]));
            } else if j == before.len() {
                assert(before.push(p)[i] == before[i]);
                assert(before.contains(before[i]));
            }
        }
    }
}

proof fn lemma_free_of_contains(taken: Seq<(u8, u8)>)
    ensures
        forall|p: (u8, u8)| #[trigger] free_of(taken).contains(p) <==> on_grid(p) && !taken.contains(p),
{
    assert forall|p: (u8, u8)| #[trigger] free_of(taken).contains(p) <==> on_grid(p) && !taken.contains(p) by {
        let g = grid();
        if free_of(taken).contains(p) {
            g.lemma_filter_contains_rev(is_free(taken), p);
            let k = choose|k: int| 0 <= k < g.len() && g[k] == p;
            assert(g[k] == cell(k));
        }
        if on_grid(p) && !taken.contains(p) {
            let k = (p.1 as int) * 4 + (p.0 as int);
            assert(g[k] == p);
            g.lemma_filter_contains(is_free(taken), k);
        }
    }
}

impl GameState {
    /// A new game from given draws: node `i` has id `i`, the kind
    /// `kind_of(kinds, i)` and the cell `layout(picks)[i]`, full health and
    /// no effects.
    pub fn from_draws(kinds: Vec<NodeType>, picks: &Vec<usize>) -> (r: GameState)
        requires
            draws_fit(kinds@, picks@),
        ensures
            r@.nodes.len() == picks@.len(),
            forall|i: int|
                0 <= i < picks@.len() ==> #[trigger] r@.nodes[i] == (NodeView {
                    id: i as usize,
                    node_type: kind_of(kinds@, i),
                    name: kind_label(kind_of(kinds@, i)),
                    hp: MAX_HP,
                    max_hp: MAX_HP,
                    pos: layout(picks@)[i],
                    status_effects: Seq::empty(),
                }),
            r@.turn_count == 1,
            r@.player_ap == START_AP,
            r@.global_integrity == START_INTEGRITY,
            r@.well_formed(),
    {
        let ghost all = kinds@;
        let mut kinds = kinds;
        let mut nodes: Vec<Node> = Vec::new();
        let mut positions: Vec<(u8, u8)> = Vec::new();
        let mut i: usize = 0;
        proof {
            lemma_layout(picks@);
        }
        while i < picks.len()
            invariant
                draws_fit(all, picks@),
                i <= picks@.len(),
                kinds@ == all.subrange(0, all.len() - i),
                nodes@.len() == i,
                positions@ == layout(picks@.take(i as int)),
                layout(picks@).len() == picks@.len(),
                forall|k: int|
                    0 <= k < i ==> #[trigger] nodes@[k]@ == (NodeView {
                        id: k as usize,
                        node_type: kind_of(all, k),
                        name: kind_label(kind_of(all, k)),
                        hp: MAX_HP,
                        max_hp: MAX_HP,
                        pos: layout(picks@)[k],
                        status_effects: Seq::empty(),
                    }),
            decreases picks@.len() - i,
        {
            proof {
                lemma_layout(picks@.take(i as int));
                assert(picks@.take(i + 1).drop_last() =~= picks@.take(i as int));
                lemma_prefix_layout(picks@, i + 1);
            }
            let free = free_cells(&positions);
            proof {
                lemma_free_count(positions@, free@);
                assert(picks@[i as int] < 16 - i);
            }
            let pos = free[picks[i]];
            positions.push(pos);
            proof {
                assert(picks@.take(i + 1).last() == picks@[i as int]);
                assert(layout(picks@.take(i + 1)) == layout(picks@.take(i as int)).push(pos));
                assert(layout(picks@).take(i + 1)[i as int] == layout(picks@)[i as int]);
                assert(layout(picks@)[i as int] == pos);
            }
            let kind = kinds.pop().unwrap();
            assert(kind == kind_of(all, i as int));
            assert(kinds@ =~= all.subrange(0, all.len() - (i + 1)));
            nodes.push(Node::new(i, kind, pos));
            i = i + 1;
        }
        let r = GameState {
            nodes,
            turn_count: 1,
            player_ap: START_AP,
            global_integrity: START_INTEGRITY,
        };
        assert forall|k: int| 0 <= k < i implies #[trigger] r@.nodes[k] == nodes@[k]@ by {}
        proof {
            lemma_layout(picks@);
            let ns = r@.nodes;
            assert forall|a: int, b: int|
                0 <= a < ns.len() && 0 <= b < ns.len() && a != b implies ns[a].id != ns[b].id
                && ns[a].pos != ns[b].pos by {
                assert(ns[a] == nodes@[a]@ && ns[b] == nodes@[b]@);
            }
            assert forall|a: int| 0 <= a < ns.len() implies #[trigger] ns[a].well_formed() by {
                assert(ns[a] == nodes@[a]@);
            }
        }
        r
    }

    /// A new game: five or six nodes of distinct kinds, in an order and on
    /// cells drawn at random, no two on one cell.
    pub fn new() -> (r: GameState)
        ensures
            r@.well_formed(),
            MIN_NODES <= r@.nodes.len() <= MAX_NODES,
            forall|i: int|
                0 <= i < r@.nodes.len() ==> {
                    let n = #[trigger] r@.nodes[i];
                    &&& n.id == i
                    &&& n.name == kind_label(n.node_type)
                    &&& n.hp == MAX_HP
                    &&& n.max_hp == MAX_HP
                    &&& on_grid(n.pos)
                    &&& n.status_effects.len() == 0
                },
            forall|i: int, j: int|
                0 <= i < r@.nodes.len() && 0 <= j < r@.nodes.len() && i != j
                    ==> r@.nodes[i].node_type != r@.nodes[j].node_type,
            r@.turn_count == 1,
            r@.player_ap == START_AP,
            r@.global_integrity == START_INTEGRITY,
    {
        let count = MIN_NODES + random_below(MAX_NODES - MIN_NODES + 1);
        let mut kinds: Vec<NodeType> = vec![
            NodeType::Gateway,
            NodeType::WebServer,
            NodeType::Authentication,
            NodeType::Database,
            NodeType::Firewall,
            NodeType::InternalApi,
        ];
        assert(kinds@ =~= all_kinds());
        assert(all_kinds().no_duplicates());
        proof {
            all_kinds().lemma_multiset_has_no_duplicates();
        }
        let ghost initial = kinds@;
        shuffle_kinds(&mut kinds);
        let ghost order = kinds@;
        proof {
            broadcast use vstd::seq_lib::to_multiset_len;

            assert(order.to_multiset() == initial.to_multiset());
            assert(order.to_multiset().len() == order.len());
            assert(initial.to_multiset().len() == initial.len());
            assert(order.len() == 6);
            order.lemma_multiset_has_no_duplicates_conv();
        }
        let mut picks: Vec<usize> = Vec::new();
        let mut i: usize = 0;
        while i < count
            invariant
                MIN_NODES <= count <= MAX_NODES,
                i <= count,
                picks@.len() == i,
                forall|k: int| 0 <= k < i ==> #[trigger] picks@[k] < 16 - k,
            decreases count - i,
        {
            picks.push(random_below(16 - i));
            i = i + 1;
        }
        let r = GameState::from_draws(kinds, &picks);
        proof {
            lemma_layout(picks@);
            assert forall|a: int, b: int|
                0 <= a < r@.nodes.len() && 0 <= b < r@.nodes.len() && a != b implies r@.nodes[a].node_type
                != r@.nodes[b].node_type by {
                assert(r@.nodes[a].node_type == order[5 - a]);
                assert(r@.nodes[b].node_type == order[5 - b]);
            }
            assert forall|k: int| 0 <= k < r@.nodes.len() implies on_grid(#[trigger] r@.nodes[k].pos) by {
                assert(r@.nodes[k].pos == layout(picks@)[k]);
            }
        }
        r
    }
}

/// The layout of a prefix of the draws is a prefix of the layout.
proof fn lemma_prefix_layout(picks: Seq<usize>, n: int)
    requires
        0 <= n <= picks.len(),
    ensures
        layout(picks.take(n)) == layout(picks).take(n),
        layout(picks).len() == picks.len(),
    decreases picks.len(),
{
    lemma_layout_len(picks);
    if n < picks.len() {
        assert(picks.drop_last().take(n) =~= picks.take(n));
        lemma_prefix_layout(picks.drop_last(), n);
        assert(layout(picks).take(n) =~= layout(picks.drop_last()).take(n));
    } else {
        assert(picks.take(n) =~= picks);
        assert(layout(picks).take(n) =~= layout(picks));
    }
}

proof fn lemma_layout_len(picks: Seq<usize>)
    ensures
        layout(picks).len() == picks.len(),
    decreases picks.len(),
{
    if picks.len() > 0 {
        lemma_layout_len(picks.drop_last());
    }
}

} // verus!
