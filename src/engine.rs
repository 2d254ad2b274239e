//! The turn engine: it owns the game state, resolves the player's commands,
//! runs the adversary's reply and keeps the log that the display shows.

use vstd::prelude::*;
use crate::ai::{possible_decision, AiAction, AiMind};
use crate::command::{parse, parse_command, Command, CommandView};
use crate::node::{add_once, Node, NodeType, NodeView, StatusEffect};
use crate::state::{GameState, GameStateView, MAX_NODES, MIN_NODES, START_AP, START_INTEGRITY};
use crate::text::{decimal, decimal_string, eq_ignore_case, pop_char, push_char, same_ignoring_case};

verus! {

/// Action points that fortifying costs.
pub const FORTIFY_COST: u8 = 2;

/// Action points that scanning costs.
pub const SCAN_COST: u8 = 1;

/// Hit points that fortifying restores.
pub const FORTIFY_HEAL: u8 = 25;

/// Hit points that an exploit takes.
pub const EXPLOIT_DAMAGE: u8 = 15;

/// How the display should present a log line.
#[derive(Debug, Clone, Copy, PartialEq, Eq, Structural)]
pub enum Tone {
    Plain,
    /// The echo of what the player typed.
    Input,
    Error,
    Warning,
    Success,
    Info,
    Attack,
    /// Opens the adversary's turn.
    HostileTurn,
    /// Hands the turn back to the player.
    FriendlyTurn,
    /// Help text and quiet notes.
    Muted,
}

/// One line of the log.
#[derive(Debug)]
pub struct LogLine {
    pub tone: Tone,
    pub text: String,
}

impl Clone for LogLine {
    fn clone(&self) -> (r: LogLine)
        ensures
            r.tone == self.tone,
            r.text@ == self.text@,
    {
        LogLine { tone: self.tone, text: self.text.clone() }
    }
}

/// A key press, as the input layer reports it.
#[derive(Debug, Clone, Copy, PartialEq, Eq)]
pub enum Key {
    /// Submit the line typed so far.
    Enter,
    /// Append a character to the line.
    Char(char),
    /// Remove the last character of the line.
    Backspace,
    /// Any other key: ignored.
    Other,
}

/// The session: game state, log, and the line being typed.
pub struct App {
    /// Set once the player asks to quit.
    pub exit: bool,
    pub game_state: GameState,
    pub input_text: String,
    pub system_log: Vec<LogLine>,
}

/// A log line as values.
pub type Entry = (Tone, Seq<char>);

/// The session as mathematical values.
pub struct AppView {
    pub exit: bool,
    pub state: GameStateView,
    pub input: Seq<char>,
    pub log: Seq<Entry>,
}

/// The log lines as values.
pub open spec fn entries(log: Seq<LogLine>) -> Seq<Entry> {
    log.map_values(|l: LogLine| (l.tone, l.text@))
}

impl View for App {
    type V = AppView;

    open spec fn view(&self) -> AppView {
        AppView {
            exit: self.exit,
            state: self.game_state@,
            input: self.input_text@,
            log: entries(self.system_log@),
        }
    }
}

// ---- Nodes: lookup and the effect of each action ----
/// Index of the first node at or after `from` whose name equals `q` up to ASCII case.
pub open spec fn index_by_name(nodes: Seq<NodeView>, q: Seq<char>, from: int) -> Option<int>
    decreases nodes.len() - from,
{
    if from < 0 || from >= nodes.len() {
        None
    } else if same_ignoring_case(nodes[from].name, q) {
        Some(from)
    } else {
        index_by_name(nodes, q, from + 1)
    }
}

/// Index of the first node at or after `from` with the given id.
pub open spec fn index_by_id(nodes: Seq<NodeView>, id: usize, from: int) -> Option<int>
    decreases nodes.len() - from,
{
    if from < 0 || from >= nodes.len() {
        None
    } else if nodes[from].id == id {
        Some(from)
    } else {
        index_by_id(nodes, id, from + 1)
    }
}

/// The node after fortifying: healed up to its ceiling, and shielded.
pub open spec fn fortified(n: NodeView) -> NodeView {
    let h = n.hp.saturating_add(FORTIFY_HEAL);
    NodeView {
        hp: if h < n.max_hp {
            h
        } else {
            n.max_hp
        },
        status_effects: add_once(n.status_effects, StatusEffect::Shield),
        ..n
    }
}

/// The node after an exploit: hit points down, stopping at zero.
pub open spec fn exploited(n: NodeView) -> NodeView {
    NodeView { hp: n.hp.saturating_sub(EXPLOIT_DAMAGE), ..n }
}

/// The node after weakening: vulnerable.
pub open spec fn weakened(n: NodeView) -> NodeView {
    NodeView { status_effects: add_once(n.status_effects, StatusEffect::Vulnerability), ..n }
}

// ---- Log lines ----
pub open spec fn echo_line(line: Seq<char>) -> Entry {
    (Tone::Input, "> "@ + line)
}

pub open spec fn invalid_line() -> Entry {
    (Tone::Error, "Error: Invalid command. Use help() for details."@)
}

pub open spec fn no_ap_line() -> Entry {
    (Tone::Warning, "Error: Not enough Action Points."@)
}

pub open spec fn not_found_line(q: Seq<char>) -> Entry {
    (Tone::Error, "Error: Node '"@ + q + "' not found."@)
}

pub open spec fn fortified_line(n: NodeView) -> Entry {
    (Tone::Success, "[SUCCESS] Fortified node "@ + n.name + ". HP is now "@ + decimal(n.hp as nat) + "."@)
}

pub open spec fn scanned_line(n: NodeView) -> Entry {
    (Tone::Info, "[INFO] Scan of node "@ + n.name + " complete. No hidden threats detected."@)
}

pub open spec fn exploit_line(n: NodeView) -> Entry {
    (
        Tone::Attack,
        "[ATTACK] Black Hat launched an Exploit against "@ + n.name + ". HP is now "@ + decimal(
            n.hp as nat,
        ) + "."@,
    )
}

pub open spec fn weaken_line(n: NodeView) -> Entry {
    (Tone::Attack, "[ATTACK] Black Hat weakened "@ + n.name + ". It is now vulnerable."@)
}

pub open spec fn hostile_turn_line() -> Entry {
    (Tone::HostileTurn, "--- Black Hat Turn ---"@)
}

pub open spec fn friendly_turn_line() -> Entry {
    (Tone::FriendlyTurn, "--- White Hat Turn ---"@)
}

pub open spec fn no_target_line() -> Entry {
    (Tone::Muted, "[INFO] AI has no available targets."@)
}

/// The help text: the command list, a command's documentation, a node's
/// description, or a note that the topic is unknown.
pub open spec fn help_lines(nodes: Seq<NodeView>, topic: Option<Seq<char>>) -> Seq<Entry> {
    match topic {
        None => seq![
            (Tone::Muted, "--- AVAILABLE COMMANDS ---"@),
            (Tone::Muted, "  Fortify(NodeName)"@),
            (Tone::Muted, "  Scan(NodeName)"@),
            (Tone::Muted, "  help(topic)"@),
            (Tone::Muted, "  quit"@),
            (Tone::Muted, ""@),
            (Tone::Muted, "For details, use help(command_name) or help(NodeName)."@),
        ],
        Some(t) => if same_ignoring_case(t, "fortify"@) {
            seq![
                (Tone::Muted, "--- COMMAND: Fortify ---"@),
                (Tone::Muted, "Syntax: Fortify(NodeName)"@),
                (Tone::Muted, "AP Cost: 2"@),
                (Tone::Muted, "Effect: Restores 25 HP to a node and applies [Shield] status, which absorbs the next attack."@),
            ]
        } else if same_ignoring_case(t, "scan"@) {
            seq![
                (Tone::Muted, "--- COMMAND: Scan ---"@),
                (Tone::Muted, "Syntax: Scan(NodeName)"@),
                (Tone::Muted, "AP Cost: 1"@),
                (Tone::Muted, "Effect: Reveals hidden threats like [Backdoor] on a node."@),
            ]
        } else {
            match index_by_name(nodes, t, 0) {
                Some(i) => node_lore(nodes[i]),
                None => seq![(Tone::Muted, "Help topic '"@ + t + "' not found."@)],
            }
        },
    }
}

/// What help says of a node, by its kind.
pub open spec fn node_lore(n: NodeView) -> Seq<Entry> {
    match n.node_type {
        NodeType::Database => seq![
            (Tone::Muted, "--- NODE: Database [DB] ---"@),
            (Tone::Muted, "Core of the system. Stores critical data. If destroyed, you lose the game. Vulnerable to [SQL_Injection]."@),
        ],
        NodeType::Firewall => seq![
            (Tone::Muted, "--- NODE: Firewall [FW] ---"@),
            (Tone::Muted, "Defensive node. Takes 25% less damage from all attacks."@),
        ],
        NodeType::Authentication => seq![
            (Tone::Muted, "--- NODE: Authentication [AUTH] ---"@),
            (Tone::Muted, "Manages logins and permissions. If compromised, the Black Hat gains extra actions."@),
        ],
        _ => seq![
            (Tone::Muted, "--- NODE: "@ + n.name + " ---"@),
            (Tone::Muted, "No special properties known."@),
        ],
    }
}

// ---- Steps of the engine ----
/// The session with lines appended to the log.
pub open spec fn logged(s: AppView, lines: Seq<Entry>) -> AppView {
    AppView { log: s.log + lines, ..s }
}

/// The session after a node action that costs `cost`: refused without enough
/// points, else refused when no node bears the name, else `act` applied to the
/// node, the cost charged and `line` of the new node logged. The flag says
/// whether the turn was spent.
pub open spec fn node_action(
    s: AppView,
    q: Seq<char>,
    cost: u8,
    act: spec_fn(NodeView) -> NodeView,
    line: spec_fn(NodeView) -> Entry,
) -> (AppView, bool) {
    if s.state.player_ap < cost {
        (logged(s, seq![no_ap_line()]), false)
    } else {
        match index_by_name(s.state.nodes, q, 0) {
            None => (logged(s, seq![not_found_line(q)]), false),
            Some(i) => {
                let n = act(s.state.nodes[i]);
                (
                    AppView {
                        state: GameStateView {
                            nodes: s.state.nodes.update(i, n),
                            player_ap: (s.state.player_ap - cost) as u8,
                            ..s.state
                        },
                        log: s.log + seq![line(n)],
                        ..s
                    },
                    true,
                )
            },
        }
    }
}

pub open spec fn fortify_step(s: AppView, q: Seq<char>) -> (AppView, bool) {
    node_action(s, q, FORTIFY_COST, |n: NodeView| fortified(n), |n: NodeView| fortified_line(n))
}

pub open spec fn scan_step(s: AppView, q: Seq<char>) -> (AppView, bool) {
    node_action(s, q, SCAN_COST, |n: NodeView| n, |n: NodeView| scanned_line(n))
}

/// The player's part of a command other than help and invalid input; the
/// flag says whether the turn was spent.
pub open spec fn player_step(s: AppView, c: CommandView) -> (AppView, bool) {
    match c {
        CommandView::Fortify(q) => fortify_step(s, q),
        CommandView::Scan(q) => scan_step(s, q),
        CommandView::Quit => (AppView { exit: true, ..s }, false),
        _ => (s, false),
    }
}

/// The session after the adversary's action; an action against an id that
/// no node bears does nothing.
pub open spec fn ai_step(s: AppView, a: AiAction) -> AppView {
    match a {
        AiAction::Exploit(id) => match index_by_id(s.state.nodes, id, 0) {
            Some(i) => {
                let n = exploited(s.state.nodes[i]);
                AppView {
                    state: GameStateView { nodes: s.state.nodes.update(i, n), ..s.state },
                    log: s.log + seq![exploit_line(n)],
                    ..s
                }
            },
            None => s,
        },
        AiAction::Weaken(id) => match index_by_id(s.state.nodes, id, 0) {
            Some(i) => {
                let old_node = s.state.nodes[i];
                if old_node.status_effects.contains(StatusEffect::Vulnerability) {
                    s
                } else {
                    let n = weakened(old_node);
                    AppView {
                        state: GameStateView { nodes: s.state.nodes.update(i, n), ..s.state },
                        log: s.log + seq![weaken_line(n)],
                        ..s
                    }
                }
            },
            None => s,
        },
    }
}

/// The adversary's phase for a decision: opening marker, the action or a
/// note that there is no target, closing marker; the turn is then complete.
pub open spec fn ai_turn(s: AppView, d: Option<AiAction>) -> AppView {
    let opened = logged(s, seq![hostile_turn_line()]);
    let acted = match d {
        Some(a) => ai_step(opened, a),
        None => logged(opened, seq![no_target_line()]),
    };
    let closed = logged(acted, seq![friendly_turn_line()]);
    AppView {
        state: GameStateView {
            turn_count: if closed.state.turn_count < u32::MAX {
                (closed.state.turn_count + 1) as u32
            } else {
                closed.state.turn_count
            },
            ..closed.state
        },
        ..closed
    }
}

/// The session after a command, with `d` the adversary's decision should its
/// phase run.
pub open spec fn dispatch_step(s: AppView, c: CommandView, d: Option<AiAction>) -> AppView {
    match c {
        CommandView::Help(topic) => logged(s, help_lines(s.state.nodes, topic)),
        CommandView::Invalid => logged(s, seq![invalid_line()]),
        _ => {
            let (t, spent) = player_step(s, c);
            if spent {
                ai_turn(t, d)
            } else {
                t
            }
        },
    }
}

/// Whether the adversary's phase runs for the command.
pub open spec fn turn_spent(s: AppView, c: CommandView) -> bool {
    match c {
        CommandView::Help(_) | CommandView::Invalid => false,
        _ => player_step(s, c).1,
    }
}

/// The session after a submitted line: nothing for an empty line, else the
/// line echoed and its command dispatched.
pub open spec fn submit_step(s: AppView, line: Seq<char>, d: Option<AiAction>) -> AppView {
    if line.len() == 0 {
        s
    } else {
        dispatch_step(logged(s, seq![echo_line(line)]), parse(line), d)
    }
}

/// The nodes on which the adversary decides when the command spends the turn.
pub open spec fn nodes_after_player(s: AppView, c: CommandView) -> Seq<NodeView> {
    player_step(s, c).0.state.nodes
}

/// The topic of a help request, as characters.
pub open spec fn topic_view(arg: Option<String>) -> Option<Seq<char>> {
    match arg {
        Some(t) => Some(t@),
        None => None,
    }
}

/// A log line of the given tone and text.
pub fn line(tone: Tone, text: &str) -> (r: LogLine)
    ensures
        r.tone == tone,
        r.text@ == text@,
{
    LogLine { tone, text: String::from_str(text) }
}

/// Appends a line to a list of log lines.
fn add_line(v: &mut Vec<LogLine>, l: LogLine)
    ensures
        entries(final(v)@) == entries(old(v)@).push((l.tone, l.text@)),
{
    let ghost e = (l.tone, l.text@);
    v.push(l);
    assert(entries(v@) =~= entries(old(v)@).push(e));
}

fn not_found_text(q: &str) -> (r: String)
    ensures
        r@ == not_found_line(q@).1,
{
    let mut t = String::from_str("Error: Node '");
    t.append(q);
    t.append("' not found.");
    t
}

fn fortified_text(n: &Node) -> (r: String)
    ensures
        r@ == fortified_line(n@).1,
{
    let mut t = String::from_str("[SUCCESS] Fortified node ");
    t.append(n.name.as_str());
    t.append(". HP is now ");
    let d = decimal_string(n.hp);
    t.append(d.as_str());
    t.append(".");
    t
}

fn scanned_text(n: &Node) -> (r: String)
    ensures
        r@ == scanned_line(n@).1,
{
    let mut t = String::from_str("[INFO] Scan of node ");
    t.append(n.name.as_str());
    t.append(" complete. No hidden threats detected.");
    t
}

fn exploit_text(n: &Node) -> (r: String)
    ensures
        r@ == exploit_line(n@).1,
{
    let mut t = String::from_str("[ATTACK] Black Hat launched an Exploit against ");
    t.append(n.name.as_str());
    t.append(". HP is now ");
    let d = decimal_string(n.hp);
    t.append(d.as_str());
    t.append(".");
    t
}

fn weaken_text(n: &Node) -> (r: String)
    ensures
        r@ == weaken_line(n@).1,
{
    let mut t = String::from_str("[ATTACK] Black Hat weakened ");
    t.append(n.name.as_str());
    t.append(". It is now vulnerable.");
    t
}

impl GameState {
    /// The index of the first node whose name equals `q` up to ASCII case.
    pub fn find_by_name(&self, q: &str) -> (r: Option<usize>)
        ensures
            match r {
                Some(i) => index_by_name(self@.nodes, q@, 0) == Some(i as int),
                None => index_by_name(self@.nodes, q@, 0) is None,
            },
            r matches Some(i) ==> i < self.nodes@.len(),
    {
        let mut i: usize = 0;
        while i < self.nodes.len()
            invariant
                i <= self.nodes@.len(),
                index_by_name(self@.nodes, q@, 0) == index_by_name(self@.nodes, q@, i as int),
            decreases self.nodes@.len() - i,
        {
            if eq_ignore_case(self.nodes[i].name.as_str(), q) {
                return Some(i);
            }
            i = i + 1;
        }
        None
    }

    /// The index of the first node with the given id.
    pub fn find_by_id(&self, id: usize) -> (r: Option<usize>)
        ensures
            match r {
                Some(i) => index_by_id(self@.nodes, id, 0) == Some(i as int),
                None => index_by_id(self@.nodes, id, 0) is None,
            },
            r matches Some(i) ==> i < self.nodes@.len(),
    {
        let mut i: usize = 0;
        while i < self.nodes.len()
            invariant
                i <= self.nodes@.len(),
                index_by_id(self@.nodes, id, 0) == index_by_id(self@.nodes, id, i as int),
            decreases self.nodes@.len() - i,
        {
            if self.nodes[i].id == id {
                return Some(i);
            }
            i = i + 1;
        }
        None
    }
}

impl App {
    /// A new session on a freshly generated game, with a welcome line.
    pub fn new() -> (r: App)
        ensures
            !r@.exit,
            r@.state.well_formed(),
            MIN_NODES <= r@.state.nodes.len() <= MAX_NODES,
            r@.state.turn_count == 1,
            r@.state.player_ap == START_AP,
            r@.state.global_integrity == START_INTEGRITY,
            r@.input.len() == 0,
            r@.log == seq![(Tone::Plain, "Welcome to Integrity Zero. Type 'help()' for commands."@)],
    {
        let mut system_log: Vec<LogLine> = Vec::new();
        add_line(
            &mut system_log,
            line(Tone::Plain, "Welcome to Integrity Zero. Type 'help()' for commands."),
        );
        App { exit: false, game_state: GameState::new(), input_text: String::new(), system_log }
    }

    /// Appends one line to the log.
    fn log_text(&mut self, tone: Tone, text: String)
        ensures
            final(self)@ == logged(old(self)@, seq![(tone, text@)]),
    {
        add_line(&mut self.system_log, LogLine { tone, text });
        assert(entries(self.system_log@) =~= entries(old(self).system_log@) + seq![(tone, text@)]);
    }

    /// Appends lines to the log, in order.
    fn log_all(&mut self, lines: Vec<LogLine>)
        ensures
            final(self)@ == logged(old(self)@, entries(lines@)),
    {
        let mut i: usize = 0;
        while i < lines.len()
            invariant
                i <= lines@.len(),
                self@ == logged(old(self)@, entries(lines@.subrange(0, i as int))),
            decreases lines@.len() - i,
        {
            let l = lines[i].clone();
            add_line(&mut self.system_log, l);
            assert(entries(lines@.subrange(0, i + 1)) =~= entries(lines@.subrange(0, i as int)).push(
                (lines@[i as int].tone, lines@[i as int].text@),
            ));
            i = i + 1;
        }
        assert(lines@.subrange(0, lines@.len() as int) =~= lines@);
    }

    /// Puts `n` in place of the node at index `i`.
    fn set_node(&mut self, i: usize, n: Node)
        requires
            i < old(self).game_state.nodes@.len(),
        ensures
            final(self)@ == (AppView {
                state: GameStateView {
                    nodes: old(self)@.state.nodes.update(i as int, n@),
                    ..old(self)@.state
                },
                ..old(self)@
            }),
    {
        let ghost v = n@;
        self.game_state.nodes.set(i, n);
        assert(self@.state.nodes =~= old(self)@.state.nodes.update(i as int, v));
    }
}

impl App {
    /// Fortifies the named node: with enough points and a node of that name,
    /// heals it by `FORTIFY_HEAL` up to its ceiling, shields it, charges
    /// `FORTIFY_COST` and returns true. The points are checked before the name.
    pub fn handle_fortify(&mut self, node_name: String) -> (r: bool)
        ensures
            (final(self)@, r) == fortify_step(old(self)@, node_name@),
    {
        if self.game_state.player_ap < FORTIFY_COST {
            self.log_text(Tone::Warning, String::from_str("Error: Not enough Action Points."));
            return false;
        }
        match self.game_state.find_by_name(node_name.as_str()) {
            None => {
                self.log_text(Tone::Error, not_found_text(node_name.as_str()));
                false
            },
            Some(i) => {
                let mut node = self.game_state.nodes[i].clone();
                let h = node.hp.saturating_add(FORTIFY_HEAL);
                node.hp = if h < node.max_hp {
                    h
                } else {
                    node.max_hp
                };
                node.add_effect(StatusEffect::Shield);
                let text = fortified_text(&node);
                self.set_node(i, node);
                self.game_state.player_ap = self.game_state.player_ap - FORTIFY_COST;
                self.log_text(Tone::Success, text);
                true
            },
        }
    }

    /// Scans the named node: with enough points and a node of that name,
    /// reports on it, charges `SCAN_COST` and returns true.
    pub fn handle_scan(&mut self, node_name: String) -> (r: bool)
        ensures
            (final(self)@, r) == scan_step(old(self)@, node_name@),
    {
        if self.game_state.player_ap < SCAN_COST {
            self.log_text(Tone::Warning, String::from_str("Error: Not enough Action Points."));
            return false;
        }
        match self.game_state.find_by_name(node_name.as_str()) {
            None => {
                self.log_text(Tone::Error, not_found_text(node_name.as_str()));
                false
            },
            Some(i) => {
                let text = scanned_text(&self.game_state.nodes[i]);
                self.game_state.player_ap = self.game_state.player_ap - SCAN_COST;
                self.log_text(Tone::Info, text);
                proof {
                    assert(self@.state.nodes =~= old(self)@.state.nodes.update(
                        i as int,
                        old(self)@.state.nodes[i as int],
                    ));
                }
                true
            },
        }
    }

    /// The lines that help shows for a topic, or for none.
    pub fn help_text(&self, arg: &Option<String>) -> (r: Vec<LogLine>)
        ensures
            entries(r@) == help_lines(self@.state.nodes, topic_view(*arg)),
    {
        let mut v: Vec<LogLine> = Vec::new();
        match arg {
            None => {
                add_line(&mut v, line(Tone::Muted, "--- AVAILABLE COMMANDS ---"));
                add_line(&mut v, line(Tone::Muted, "  Fortify(NodeName)"));
                add_line(&mut v, line(Tone::Muted, "  Scan(NodeName)"));
                add_line(&mut v, line(Tone::Muted, "  help(topic)"));
                add_line(&mut v, line(Tone::Muted, "  quit"));
                add_line(&mut v, line(Tone::Muted, ""));
                add_line(
                    &mut v,
                    line(Tone::Muted, "For details, use help(command_name) or help(NodeName)."),
                );
            },
            Some(topic) => {
                if eq_ignore_case(topic.as_str(), "fortify") {
                    add_line(&mut v, line(Tone::Muted, "--- COMMAND: Fortify ---"));
                    add_line(&mut v, line(Tone::Muted, "Syntax: Fortify(NodeName)"));
                    add_line(&mut v, line(Tone::Muted, "AP Cost: 2"));
                    add_line(
                        &mut v,
                        line(
                            Tone::Muted,
                            "Effect: Restores 25 HP to a node and applies [Shield] status, which absorbs the next attack.",
                        ),
                    );
                } else if eq_ignore_case(topic.as_str(), "scan") {
                    add_line(&mut v, line(Tone::Muted, "--- COMMAND: Scan ---"));
                    add_line(&mut v, line(Tone::Muted, "Syntax: Scan(NodeName)"));
                    add_line(&mut v, line(Tone::Muted, "AP Cost: 1"));
                    add_line(
                        &mut v,
                        line(Tone::Muted, "Effect: Reveals hidden threats like [Backdoor] on a node."),
                    );
                } else {
                    match self.game_state.find_by_name(topic.as_str()) {
                        Some(i) => {
                            let node = &self.game_state.nodes[i];
                            match node.node_type {
                                NodeType::Database => {
                                    add_line(&mut v, line(Tone::Muted, "--- NODE: Database [DB] ---"));
                                    add_line(
                                        &mut v,
                                        line(
                                            Tone::Muted,
                                            "Core of the system. Stores critical data. If destroyed, you lose the game. Vulnerable to [SQL_Injection].",
                                        ),
                                    );
                                },
                                NodeType::Firewall => {
                                    add_line(&mut v, line(Tone::Muted, "--- NODE: Firewall [FW] ---"));
                                    add_line(
                                        &mut v,
                                        line(
                                            Tone::Muted,
                                            "Defensive node. Takes 25% less damage from all attacks.",
                                        ),
                                    );
                                },
                                NodeType::Authentication => {
                                    add_line(
                                        &mut v,
                                        line(Tone::Muted, "--- NODE: Authentication [AUTH] ---"),
                                    );
                                    add_line(
                                        &mut v,
                                        line(
                                            Tone::Muted,
                                            "Manages logins and permissions. If compromised, the Black Hat gains extra actions.",
                                        ),
                                    );
                                },
                                _ => {
                                    let mut t = String::from_str("--- NODE: ");
                                    t.append(node.name.as_str());
                                    t.append(" ---");
                                    add_line(&mut v, LogLine { tone: Tone::Muted, text: t });
                                    add_line(&mut v, line(Tone::Muted, "No special properties known."));
                                },
                            }
                        },
                        None => {
                            let mut t = String::from_str("Help topic '");
                            t.append(topic.as_str());
                            t.append("' not found.");
                            add_line(&mut v, LogLine { tone: Tone::Muted, text: t });
                        },
                    }
                }
            },
        }
        assert(entries(v@) =~= help_lines(self@.state.nodes, topic_view(*arg)));
        v
    }

    /// Shows help: read-only, spends no points and no turn.
    pub fn handle_help(&mut self, arg: Option<String>)
        ensures
            final(self)@ == logged(old(self)@, help_lines(old(self)@.state.nodes, topic_view(arg))),
    {
        let lines = self.help_text(&arg);
        self.log_all(lines);
    }

    /// The player's part of a command; true when the turn was spent.
    pub fn handle_player_action(&mut self, command: Command) -> (r: bool)
        ensures
            (final(self)@, r) == player_step(old(self)@, command@),
    {
        match command {
            Command::Fortify(node_name) => self.handle_fortify(node_name),
            Command::Scan(node_name) => self.handle_scan(node_name),
            Command::Quit => {
                self.exit = true;
                false
            },
            Command::Help(_) | Command::Invalid => false,
        }
    }

    /// Applies the adversary's action to the node of its id.
    pub fn apply_ai_action(&mut self, action: AiAction)
        ensures
            final(self)@ == ai_step(old(self)@, action),
    {
        match action {
            AiAction::Exploit(target_id) => {
                if let Some(i) = self.game_state.find_by_id(target_id) {
                    let mut node = self.game_state.nodes[i].clone();
                    node.hp = node.hp.saturating_sub(EXPLOIT_DAMAGE);
                    let text = exploit_text(&node);
                    self.set_node(i, node);
                    self.log_text(Tone::Attack, text);
                }
            },
            AiAction::Weaken(target_id) => {
                if let Some(i) = self.game_state.find_by_id(target_id) {
                    if !self.game_state.nodes[i].has_effect(StatusEffect::Vulnerability) {
                        let mut node = self.game_state.nodes[i].clone();
                        node.add_effect(StatusEffect::Vulnerability);
                        let text = weaken_text(&node);
                        self.set_node(i, node);
                        self.log_text(Tone::Attack, text);
                    }
                }
            },
        }
    }

    /// The adversary's phase for a given decision.
    pub fn run_ai_turn_with(&mut self, decision: Option<AiAction>)
        ensures
            final(self)@ == ai_turn(old(self)@, decision),
    {
        self.log_text(Tone::HostileTurn, String::from_str("--- Black Hat Turn ---"));
        match decision {
            Some(action) => self.apply_ai_action(action),
            None => self.log_text(
                Tone::Muted,
                String::from_str("[INFO] AI has no available targets."),
            ),
        }
        self.log_text(Tone::FriendlyTurn, String::from_str("--- White Hat Turn ---"));
        if self.game_state.turn_count < u32::MAX {
            self.game_state.turn_count = self.game_state.turn_count + 1;
        }
    }

    /// The adversary's phase: it decides once on the current nodes, then acts.
    pub fn run_ai_turn(&mut self)
        ensures
            exists|d: Option<AiAction>|
                possible_decision(old(self)@.state.nodes, d) && final(self)@ == ai_turn(
                    old(self)@,
                    d,
                ),
    {
        let decision = AiMind::decide_action(self.game_state.nodes.as_slice());
        self.run_ai_turn_with(decision);
    }

    /// Resolves a command; when it spends the turn, the adversary replies at once.
    pub fn dispatch(&mut self, command: Command)
        ensures
            !turn_spent(old(self)@, command@) ==> final(self)@ == dispatch_step(
                old(self)@,
                command@,
                None,
            ),
            turn_spent(old(self)@, command@) ==> exists|d: Option<AiAction>|
                possible_decision(nodes_after_player(old(self)@, command@), d) && final(self)@
                    == dispatch_step(old(self)@, command@, d),
    {
        let ghost c = command@;
        match command {
            Command::Help(arg) => self.handle_help(arg),
            Command::Invalid => {
                self.log_text(
                    Tone::Error,
                    String::from_str("Error: Invalid command. Use help() for details."),
                );
            },
            _ => {
                if self.handle_player_action(command) {
                    let ghost mid = self@;
                    self.run_ai_turn();
                    proof {
                        let d = choose|d: Option<AiAction>|
                            possible_decision(mid.state.nodes, d) && self@ == ai_turn(mid, d);
                        assert(dispatch_step(old(self)@, c, d) == ai_turn(mid, d));
                    }
                }
            },
        }
    }

    /// Handles a submitted line: an empty one is ignored; any other is echoed
    /// to the log, parsed and dispatched.
    pub fn submit(&mut self, input: String)
        ensures
            input@.len() == 0 ==> final(self)@ == old(self)@,
            input@.len() > 0 && !turn_spent(logged(old(self)@, seq![echo_line(input@)]), parse(input@))
                ==> final(self)@ == submit_step(old(self)@, input@, None),
            input@.len() > 0 && turn_spent(logged(old(self)@, seq![echo_line(input@)]), parse(input@))
                ==> exists|d: Option<AiAction>|
                possible_decision(
                    nodes_after_player(logged(old(self)@, seq![echo_line(input@)]), parse(input@)),
                    d,
                ) && final(self)@ == submit_step(old(self)@, input@, d),
    {
        if input.as_str().unicode_len() == 0 {
            return ;
        }
        let mut echo = String::from_str("> ");
        echo.append(input.as_str());
        self.log_text(Tone::Input, echo);
        let ghost echoed = self@;
        assert(echoed == logged(old(self)@, seq![echo_line(input@)]));
        let command = parse_command(input.as_str());
        self.dispatch(command);
        proof {
            if turn_spent(echoed, parse(input@)) {
                let d = choose|d: Option<AiAction>|
                    possible_decision(nodes_after_player(echoed, parse(input@)), d) && self@
                        == dispatch_step(echoed, parse(input@), d);
                assert(self@ == submit_step(old(self)@, input@, d));
            }
        }
    }

    /// Handles a key press: characters edit the line being typed, `Enter`
    /// submits it and clears it.
    pub fn handle_key(&mut self, key: Key)
        ensures
            key == Key::Enter ==> final(self)@.input.len() == 0,
            key == Key::Enter && old(self)@.input.len() == 0 ==> final(self)@ == old(self)@,
            key == Key::Enter && old(self)@.input.len() > 0 ==> {
                let s = AppView { input: Seq::empty(), ..old(self)@ };
                let line = old(self)@.input;
                let echoed = logged(s, seq![echo_line(line)]);
                if turn_spent(echoed, parse(line)) {
                    exists|d: Option<AiAction>|
                        possible_decision(nodes_after_player(echoed, parse(line)), d) && final(self)@
                            == submit_step(s, line, d)
                } else {
                    final(self)@ == submit_step(s, line, None)
                }
            },
            forall|c: char|
                key == Key::Char(c) ==> final(self)@ == (AppView {
                    input: old(self)@.input.push(c),
                    ..old(self)@
                }),
            key == Key::Backspace ==> final(self)@ == (AppView {
                input: if old(self)@.input.len() > 0 {
                    old(self)@.input.drop_last()
                } else {
                    old(self)@.input
                },
                ..old(self)@
            }),
            key == Key::Other ==> final(self)@ == old(self)@,
    {
        match key {
            Key::Enter => {
                let line = self.input_text.clone();
                self.input_text = String::new();
                assert(line@ == old(self)@.input);
                proof {
                    if line@.len() == 0 {
                        assert(self@.input =~= old(self)@.input);
                    }
                }
                self.submit(line);
            },
            Key::Char(c) => push_char(&mut self.input_text, c),
            Key::Backspace => {
                pop_char(&mut self.input_text);
            },
            Key::Other => {},
        }
    }
}

} // verus!
