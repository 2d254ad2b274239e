//! Nodes of the defended network and their status effects.

use vstd::prelude::*;

verus! {

/// The kind of infrastructure a node stands for.
#[derive(Debug, Clone, Copy, PartialEq, Eq, Structural)]
pub enum NodeType {
    Gateway,
    WebServer,
    Authentication,
    Database,
    Firewall,
    InternalApi,
}

/// A tag carried by a node.
#[derive(Debug, Clone, Copy, PartialEq, Eq, Structural)]
pub enum StatusEffect {
    /// Applied by fortifying a node.
    Shield,
    /// Applied by the adversary's weakening.
    Vulnerability,
    /// Reserved: no rule applies it yet.
    Malware,
    /// Reserved: no rule applies it yet.
    Backdoor,
}

/// How healthy a node looks on the map.
#[derive(Debug, Clone, Copy, PartialEq, Eq, Structural)]
pub enum Health {
    /// Above 70 hit points.
    Good,
    /// Above 30 hit points, up to 70.
    Damaged,
    /// 30 hit points or fewer.
    Critical,
}

/// The health band of a hit-point value.
pub open spec fn health_of(hp: u8) -> Health {
    if hp > 70 {
        Health::Good
    } else if hp > 30 {
        Health::Damaged
    } else {
        Health::Critical
    }
}

/// Hit points of a fresh node; also the ceiling of every node.
pub const MAX_HP: u8 = 100;

/// Side of the square grid on which nodes stand.
pub const GRID_SIZE: u8 = 4;

/// A defended asset.
#[derive(Debug)]
pub struct Node {
    pub id: usize,
    pub node_type: NodeType,
    pub name: String,
    pub hp: u8,
    pub max_hp: u8,
    /// Column and row on the grid.
    pub pos: (u8, u8),
    pub status_effects: Vec<StatusEffect>,
}

impl Clone for Node {
    fn clone(&self) -> (r: Node)
        ensures
            r@ == self@,
    {
        let mut effects: Vec<StatusEffect> = Vec::new();
        let mut i: usize = 0;
        while i < self.status_effects.len()
            invariant
                i <= self.status_effects@.len(),
                effects@ == self.status_effects@.subrange(0, i as int),
            decreases self.status_effects@.len() - i,
        {
            effects.push(self.status_effects[i]);
            i = i + 1;
        }
        assert(effects@ =~= self.status_effects@);
        Node {
            id: self.id,
            node_type: self.node_type,
            name: self.name.clone(),
            hp: self.hp,
            max_hp: self.max_hp,
            pos: (self.pos.0, self.pos.1),
            status_effects: effects,
        }
    }
}

/// What a node holds, as mathematical values.
pub struct NodeView {
    pub id: usize,
    pub node_type: NodeType,
    pub name: Seq<char>,
    pub hp: u8,
    pub max_hp: u8,
    pub pos: (u8, u8),
    pub status_effects: Seq<StatusEffect>,
}

impl View for Node {
    type V = NodeView;

    open spec fn view(&self) -> NodeView {
        NodeView {
            id: self.id,
            node_type: self.node_type,
            name: self.name@,
            hp: self.hp,
            max_hp: self.max_hp,
            pos: self.pos,
            status_effects: self.status_effects@,
        }
    }
}

impl NodeView {
    /// Hit points within bounds and no effect listed twice.
    pub open spec fn well_formed(self) -> bool {
        &&& self.hp <= self.max_hp
        &&& self.status_effects.no_duplicates()
    }
}

/// The views of a sequence of nodes.
pub open spec fn views(s: Seq<Node>) -> Seq<NodeView> {
    s.map_values(|n: Node| n@)
}

/// The display label of a kind.
pub open spec fn kind_label(t: NodeType) -> Seq<char> {
    match t {
        NodeType::Gateway => seq!['G', 'a', 't', 'e', 'w', 'a', 'y'],
        NodeType::WebServer => seq!['W', 'e', 'b', 'S', 'e', 'r', 'v', 'e', 'r'],
        NodeType::Authentication => seq![
            'A', 'u', 't', 'h', 'e', 'n', 't', 'i', 'c', 'a', 't', 'i', 'o', 'n',
        ],
        NodeType::Database => seq!['D', 'a', 't', 'a', 'b', 'a', 's', 'e'],
        NodeType::Firewall => seq!['F', 'i', 'r', 'e', 'w', 'a', 'l', 'l'],
        NodeType::InternalApi => seq!['I', 'n', 't', 'e', 'r', 'n', 'a', 'l', 'A', 'p', 'i'],
    }
}

impl NodeType {
    /// The display label of this kind, which is also the name of its node.
    pub fn name(&self) -> (r: String)
        ensures
            r@ == kind_label(*self),
    {
        let s = match self {
            NodeType::Gateway => "Gateway",
            NodeType::WebServer => "WebServer",
            NodeType::Authentication => "Authentication",
            NodeType::Database => "Database",
            NodeType::Firewall => "Firewall",
            NodeType::InternalApi => "InternalApi",
        };
        proof {
            reveal_strlit("Gateway");
            reveal_strlit("WebServer");
            reveal_strlit("Authentication");
            reveal_strlit("Database");
            reveal_strlit("Firewall");
            reveal_strlit("InternalApi");
        }
        let r = String::from_str(s);
        assert(r@ =~= kind_label(*self));
        r
    }
}

/// The first cell is the column, the second the row; both below `GRID_SIZE`.
pub open spec fn on_grid(p: (u8, u8)) -> bool {
    p.0 < GRID_SIZE && p.1 < GRID_SIZE
}

impl Node {
    /// A fresh node of the given kind: full health, named after its kind, no effects.
    pub fn new(id: usize, node_type: NodeType, pos: (u8, u8)) -> (r: Node)
        ensures
            r@.id == id,
            r@.node_type == node_type,
            r@.name == kind_label(node_type),
            r@.hp == MAX_HP,
            r@.max_hp == MAX_HP,
            r@.pos == pos,
            r@.status_effects == Seq::<StatusEffect>::empty(),
    {
        Node {
            id,
            node_type,
            name: node_type.name(),
            hp: MAX_HP,
            max_hp: MAX_HP,
            pos,
            status_effects: Vec::new(),
        }
    }

    /// The node's health band, by its hit points.
    pub fn health(&self) -> (r: Health)
        ensures
            r == health_of(self.hp),
    {
        if self.hp > 70 {
            Health::Good
        } else if self.hp > 30 {
            Health::Damaged
        } else {
            Health::Critical
        }
    }

    /// Whether the node carries the effect.
    pub fn has_effect(&self, e: StatusEffect) -> (r: bool)
        ensures
            r == self@.status_effects.contains(e),
    {
        let mut i: usize = 0;
        while i < self.status_effects.len()
            invariant
                i <= self.status_effects@.len(),
                forall|j: int| 0 <= j < i ==> self.status_effects@[j] != e,
            decreases self.status_effects@.len() - i,
        {
            if self.status_effects[i] == e {
                return true;
            }
            i = i + 1;
        }
        false
    }

    /// Adds the effect unless the node already carries it.
    pub fn add_effect(&mut self, e: StatusEffect)
        ensures
            final(self)@ == (NodeView {
                status_effects: add_once(old(self)@.status_effects, e),
                ..old(self)@
            }),
    {
        if !self.has_effect(e) {
            self.status_effects.push(e);
        }
    }
}

/// The effects with `e` added at the end, unless already present.
pub open spec fn add_once(s: Seq<StatusEffect>, e: StatusEffect) -> Seq<StatusEffect> {
    if s.contains(e) {
        s
    } else {
        s.push(e)
    }
}

/// Adding an effect keeps the effects free of duplicates, and adding it again changes nothing.
pub proof fn lemma_add_once(s: Seq<StatusEffect>, e: StatusEffect)
    requires
        s.no_duplicates(),
    ensures
        add_once(s, e).no_duplicates(),
        add_once(s, e).contains(e),
        add_once(add_once(s, e), e) == add_once(s, e),
{
    if !s.contains(e) {
        assert(s.push(e)[s.len() as int] == e);
        assert forall|i: int, j: int|
            0 <= i < s.push(e).len() && 0 <= j < s.push(e).len() && i != j implies s.push(e)[i]
            != s.push(e)[j] by {
            if i < s.len() && j < s.len() {
            } else if i < s.len() {
                assert(s.contains(s[i]));
            } else {
                assert(s.contains(s[j]));
            }
        }
    }
}

} // verus!
