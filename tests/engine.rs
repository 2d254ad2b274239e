use integrity_zero::ai::{AiAction, AiMind};
use integrity_zero::command::{parse_command, Command};
use integrity_zero::engine::{App, Key, LogLine, Tone};
use integrity_zero::node::{Health, Node, NodeType, StatusEffect};
use integrity_zero::state::{free_cells, GameState};

use integrity_zero::text::{decimal_string, eq_ignore_case, find_char, str_eq, trim_str};

fn node(id: usize, node_type: NodeType, hp: u8, pos: (u8, u8)) -> Node {
    let mut n = Node::new(id, node_type, pos);
    n.hp = hp;
    n
}

fn app_with(nodes: Vec<Node>, ap: u8) -> App {
    App {
        exit: false,
        game_state: GameState { nodes, turn_count: 1, player_ap: ap, global_integrity: 50 },
        input_text: String::new(),
        system_log: Vec::new(),
    }
}

fn texts(app: &App) -> Vec<String> {
    app.system_log.iter().map(|l: &LogLine| l.text.clone()).collect()
}

fn count(app: &App, text: &str) -> usize {
    texts(app).iter().filter(|t| t.as_str() == text).count()
}

fn submit_line(app: &mut App, line: &str) {
    for c in line.chars() {
        app.handle_key(Key::Char(c));
    }
    app.handle_key(Key::Enter);
}

#[test]
fn parse_call_forms() {
    assert_eq!(parse_command("fortify(Gateway)"), Command::Fortify("Gateway".to_string()));
    assert_eq!(parse_command("scan(Database)"), Command::Scan("Database".to_string()));
    assert_eq!(parse_command("help()"), Command::Help(None));
    assert_eq!(parse_command("help(Database)"), Command::Help(Some("Database".to_string())));
    assert_eq!(parse_command("  fortify  (Web Server)"), Command::Fortify("Web Server".to_string()));
    assert_eq!(parse_command("fortify()"), Command::Fortify(String::new()));
    assert_eq!(parse_command("Fortify(Gateway)"), Command::Invalid);
    assert_eq!(parse_command("attack(Gateway)"), Command::Invalid);
    assert_eq!(parse_command("scan(a)b)"), Command::Scan("a".to_string()));
}

#[test]
fn parse_bare_words() {
    assert_eq!(parse_command("  quit  "), Command::Quit);
    assert_eq!(parse_command("q"), Command::Quit);
    assert_eq!(parse_command("help"), Command::Help(None));
    assert_eq!(parse_command("foobar"), Command::Invalid);
    assert_eq!(parse_command(""), Command::Invalid);
    assert_eq!(parse_command("   "), Command::Invalid);
    assert_eq!(parse_command("QUIT"), Command::Invalid);
}

#[test]
fn parse_unclosed_or_reversed_parentheses() {
    assert_eq!(parse_command("fortify(Gateway"), Command::Invalid);
    assert_eq!(parse_command("quit("), Command::Invalid);
    assert_eq!(parse_command(")quit("), Command::Invalid);
    assert_eq!(parse_command(")help("), Command::Invalid);
}

#[test]
fn fortify_case_mismatched_name_at_ceiling() {
    let mut app = app_with(vec![node(0, NodeType::Gateway, 100, (0, 0))], 10);
    submit_line(&mut app, "fortify(gateway)");
    let n = &app.game_state.nodes[0];
    assert!(n.status_effects.contains(&StatusEffect::Shield));
    assert_eq!(app.game_state.player_ap, 8);
    assert_eq!(app.game_state.turn_count, 2);
    let log = texts(&app);
    assert_eq!(log[0], "> fortify(gateway)");
    assert_eq!(log[1], "[SUCCESS] Fortified node Gateway. HP is now 100.");
    assert!(log.iter().any(|t| t.starts_with("[SUCCESS]")));
    assert_eq!(count(&app, "--- Black Hat Turn ---"), 1);
    assert_eq!(count(&app, "--- White Hat Turn ---"), 1);
    let exploited = n.hp == 85 && log.contains(&"[ATTACK] Black Hat launched an Exploit against Gateway. HP is now 85.".to_string());
    let weakened = n.hp == 100
        && n.status_effects.contains(&StatusEffect::Vulnerability)
        && log.contains(&"[ATTACK] Black Hat weakened Gateway. It is now vulnerable.".to_string());
    assert!(exploited || weakened);
}

#[test]
fn fortify_short_of_points_reveals_nothing() {
    let mut app = app_with(vec![node(0, NodeType::Gateway, 50, (0, 0))], 1);
    app.submit("fortify(Gateway)".to_string());
    let mut other = app_with(vec![node(0, NodeType::Gateway, 50, (0, 0))], 1);
    other.submit("fortify(Nowhere)".to_string());
    assert_eq!(app.game_state.player_ap, 1);
    assert_eq!(app.game_state.nodes[0].hp, 50);
    assert!(app.game_state.nodes[0].status_effects.is_empty());
    assert_eq!(texts(&app)[1], "Error: Not enough Action Points.");
    assert_eq!(texts(&other)[1], "Error: Not enough Action Points.");
    assert_eq!(app.system_log.len(), 2);
    assert_eq!(other.system_log.len(), 2);
    assert_eq!(count(&app, "--- Black Hat Turn ---"), 0);
    assert_eq!(app.game_state.turn_count, 1);
}

#[test]
fn scan_short_of_points() {
    let mut app = app_with(vec![node(0, NodeType::Database, 40, (1, 1))], 0);
    app.dispatch(Command::Scan("Database".to_string()));
    assert_eq!(app.game_state.player_ap, 0);
    assert_eq!(texts(&app), vec!["Error: Not enough Action Points.".to_string()]);
}

#[test]
fn fortify_heals_and_saturates() {
    let mut app = app_with(vec![node(0, NodeType::Firewall, 50, (0, 0))], 10);
    assert!(app.handle_fortify("firewall".to_string()));
    assert_eq!(app.game_state.nodes[0].hp, 75);
    assert_eq!(app.game_state.player_ap, 8);
    assert!(app.handle_fortify("FIREWALL".to_string()));
    assert_eq!(app.game_state.nodes[0].hp, 100);
    assert!(app.handle_fortify("Firewall".to_string()));
    assert_eq!(app.game_state.nodes[0].hp, 100);
    assert_eq!(app.game_state.player_ap, 4);
    assert_eq!(texts(&app)[1], "[SUCCESS] Fortified node Firewall. HP is now 100.");
}

#[test]
fn fortify_many_times_keeps_bounds() {
    let mut app = app_with(vec![node(0, NodeType::Gateway, 0, (0, 0)), node(1, NodeType::Database, 99, (1, 0))], 10);
    for _ in 0..8 {
        app.dispatch(Command::Fortify("Database".to_string()));
        app.dispatch(Command::Fortify("Gateway".to_string()));
        for n in &app.game_state.nodes {
            assert!(n.hp <= n.max_hp);
        }
    }
    assert_eq!(app.game_state.player_ap, 0);
}

#[test]
fn fortify_at_ceiling_still_shields_and_charges() {
    let mut app = app_with(vec![node(0, NodeType::WebServer, 100, (2, 3))], 3);
    assert!(app.handle_fortify("WebServer".to_string()));
    assert_eq!(app.game_state.nodes[0].hp, 100);
    assert_eq!(app.game_state.nodes[0].status_effects, vec![StatusEffect::Shield]);
    assert_eq!(app.game_state.player_ap, 1);
}

#[test]
fn repeated_effects_are_not_duplicated() {
    let mut app = app_with(vec![node(0, NodeType::Gateway, 30, (0, 0))], 10);
    for _ in 0..4 {
        app.handle_fortify("Gateway".to_string());
    }
    assert_eq!(app.game_state.nodes[0].status_effects, vec![StatusEffect::Shield]);
    for _ in 0..3 {
        app.apply_ai_action(AiAction::Weaken(0));
    }
    assert_eq!(
        app.game_state.nodes[0].status_effects,
        vec![StatusEffect::Shield, StatusEffect::Vulnerability]
    );
    assert_eq!(count(&app, "[ATTACK] Black Hat weakened Gateway. It is now vulnerable."), 1);
}

#[test]
fn unknown_node_is_free() {
    let mut app = app_with(vec![node(0, NodeType::Gateway, 30, (0, 0))], 10);
    app.dispatch(Command::Fortify("Mainframe".to_string()));
    app.dispatch(Command::Scan("Gate".to_string()));
    assert_eq!(app.game_state.player_ap, 10);
    assert_eq!(
        texts(&app),
        vec!["Error: Node 'Mainframe' not found.".to_string(), "Error: Node 'Gate' not found.".to_string()]
    );
}

#[test]
fn scan_charges_one_point_and_one_adversary_phase() {
    let mut app = app_with(vec![node(0, NodeType::Authentication, 60, (0, 0))], 5);
    app.dispatch(Command::Scan("authentication".to_string()));
    assert_eq!(app.game_state.player_ap, 4);
    let log = texts(&app);
    assert_eq!(log[0], "[INFO] Scan of node Authentication complete. No hidden threats detected.");
    assert_eq!(log[1], "--- Black Hat Turn ---");
    assert_eq!(log.last().unwrap(), "--- White Hat Turn ---");
    assert_eq!(count(&app, "--- Black Hat Turn ---"), 1);
    assert_eq!(app.game_state.turn_count, 2);
}

#[test]
fn quit_and_help_spend_nothing() {
    let mut app = app_with(vec![node(0, NodeType::Database, 70, (0, 0))], 6);
    app.dispatch(Command::Help(None));
    app.dispatch(Command::Help(Some("database".to_string())));
    assert!(!app.exit);
    app.dispatch(Command::Quit);
    assert!(app.exit);
    assert_eq!(app.game_state.player_ap, 6);
    assert_eq!(app.game_state.nodes[0].hp, 70);
    assert!(app.game_state.nodes[0].status_effects.is_empty());
    assert_eq!(count(&app, "--- Black Hat Turn ---"), 0);
    assert_eq!(app.game_state.turn_count, 1);
}

#[test]
fn invalid_command_is_logged() {
    let mut app = app_with(vec![], 10);
    submit_line(&mut app, "foobar");
    assert_eq!(
        texts(&app),
        vec!["> foobar".to_string(), "Error: Invalid command. Use help() for details.".to_string()]
    );
    assert_eq!(app.system_log[1].tone, Tone::Error);
}

#[test]
fn empty_submission_does_nothing() {
    let mut app = app_with(vec![], 10);
    app.handle_key(Key::Enter);
    app.submit(String::new());
    assert!(app.system_log.is_empty());
}

#[test]
fn key_editing() {
    let mut app = app_with(vec![], 10);
    app.handle_key(Key::Char('h'));
    app.handle_key(Key::Char('x'));
    app.handle_key(Key::Backspace);
    app.handle_key(Key::Char('e'));
    app.handle_key(Key::Other);
    assert_eq!(app.input_text, "he");
    app.handle_key(Key::Backspace);
    app.handle_key(Key::Backspace);
    app.handle_key(Key::Backspace);
    assert_eq!(app.input_text, "");
    submit_line(&mut app, "quit");
    assert!(app.exit);
    assert_eq!(app.input_text, "");
}

#[test]
fn help_topics() {
    let nodes = vec![
        node(0, NodeType::Database, 100, (0, 0)),
        node(1, NodeType::Gateway, 100, (1, 0)),
        node(2, NodeType::Authentication, 100, (2, 0)),
        node(3, NodeType::Firewall, 100, (3, 0)),
    ];
    let mut app = app_with(nodes, 10);
    app.handle_help(None);
    assert_eq!(app.system_log.len(), 7);
    assert_eq!(texts(&app)[0], "--- AVAILABLE COMMANDS ---");
    assert_eq!(texts(&app)[5], "");
    let cases: Vec<(&str, &str)> = vec![
        ("FORTIFY", "--- COMMAND: Fortify ---"),
        ("scan", "--- COMMAND: Scan ---"),
        ("DATABASE", "--- NODE: Database [DB] ---"),
        ("firewall", "--- NODE: Firewall [FW] ---"),
        ("authentication", "--- NODE: Authentication [AUTH] ---"),
        ("gateway", "--- NODE: Gateway ---"),
        ("Mainframe", "Help topic 'Mainframe' not found."),
    ];
    for (topic, first) in cases {
        let mut a = app_with(app.game_state.nodes.clone(), 10);
        a.handle_help(Some(topic.to_string()));
        assert_eq!(texts(&a)[0], first);
        assert!(a.system_log.iter().all(|l| l.tone == Tone::Muted));
    }
    let mut a = app_with(app.game_state.nodes.clone(), 10);
    a.handle_help(Some("Gateway".to_string()));
    assert_eq!(texts(&a), vec!["--- NODE: Gateway ---".to_string(), "No special properties known.".to_string()]);
    let mut b = app_with(app.game_state.nodes.clone(), 10);
    b.handle_help(Some("fortify".to_string()));
    assert_eq!(b.system_log.len(), 4);
    assert_eq!(texts(&b)[2], "AP Cost: 2");
}

#[test]
fn exploit_saturates_at_zero() {
    let mut app = app_with(vec![node(3, NodeType::Gateway, 10, (0, 0))], 10);
    app.apply_ai_action(AiAction::Exploit(3));
    assert_eq!(app.game_state.nodes[0].hp, 0);
    assert_eq!(texts(&app)[0], "[ATTACK] Black Hat launched an Exploit against Gateway. HP is now 0.");
    app.apply_ai_action(AiAction::Exploit(3));
    assert_eq!(app.game_state.nodes[0].hp, 0);
    app.apply_ai_action(AiAction::Exploit(9));
    app.apply_ai_action(AiAction::Weaken(9));
    assert_eq!(app.system_log.len(), 2);
}

#[test]
fn adversary_turn_without_nodes() {
    let mut app = app_with(vec![], 10);
    app.run_ai_turn();
    assert_eq!(
        texts(&app),
        vec![
            "--- Black Hat Turn ---".to_string(),
            "[INFO] AI has no available targets.".to_string(),
            "--- White Hat Turn ---".to_string()
        ]
    );
}

#[test]
fn decide_with_given_draws() {
    let nodes = vec![node(4, NodeType::Gateway, 100, (0, 0)), node(7, NodeType::Database, 100, (1, 0))];
    assert_eq!(AiMind::decide_with(&nodes, 1, 0), Some(AiAction::Exploit(7)));
    assert_eq!(AiMind::decide_with(&nodes, 0, 1), Some(AiAction::Weaken(4)));
    assert_eq!(AiMind::decide_with(&[], 0, 0), None);
    assert_eq!(AiMind::decide_action(&[]), None);
}

#[test]
fn decisions_split_evenly() {
    let nodes = vec![node(0, NodeType::Gateway, 100, (0, 0))];
    let mut exploits = 0usize;
    let total = 20000usize;
    for _ in 0..total {
        match AiMind::decide_action(&nodes) {
            Some(AiAction::Exploit(0)) => exploits += 1,
            Some(AiAction::Weaken(0)) => {}
            other => panic!("unexpected decision {:?}", other),
        }
    }
    assert!(exploits > 9400 && exploits < 10600, "exploits: {}", exploits);
}

#[test]
fn decisions_cover_every_target() {
    let nodes = vec![
        node(0, NodeType::Gateway, 100, (0, 0)),
        node(1, NodeType::Database, 100, (1, 0)),
        node(2, NodeType::Firewall, 100, (2, 0)),
    ];
    let mut seen = [0usize; 3];
    for _ in 0..3000 {
        match AiMind::decide_action(&nodes) {
            Some(AiAction::Exploit(i)) | Some(AiAction::Weaken(i)) => seen[i] += 1,
            None => panic!("no decision"),
        }
    }
    assert!(seen.iter().all(|&c| c > 800));
}

#[test]
fn new_game_layout() {
    for _ in 0..50 {
        let g = GameState::new();
        assert!(g.nodes.len() == 5 || g.nodes.len() == 6);
        assert_eq!(g.turn_count, 1);
        assert_eq!(g.player_ap, 10);
        assert_eq!(g.global_integrity, 50);
        for (i, n) in g.nodes.iter().enumerate() {
            assert_eq!(n.id, i);
            assert_eq!(n.hp, 100);
            assert_eq!(n.max_hp, 100);
            assert!(n.pos.0 < 4 && n.pos.1 < 4);
            assert!(n.status_effects.is_empty());
            assert_eq!(n.name, n.node_type.name());
            for m in &g.nodes[i + 1..] {
                assert_ne!(n.pos, m.pos);
                assert_ne!(n.node_type, m.node_type);
            }
        }
    }
}

#[test]
fn new_session_welcomes() {
    let app = App::new();
    assert!(!app.exit);
    assert_eq!(texts(&app), vec!["Welcome to Integrity Zero. Type 'help()' for commands.".to_string()]);
}

#[test]
fn free_cells_skip_taken() {
    let taken = vec![(0u8, 0u8), (3, 3), (1, 2)];
    let free = free_cells(&taken);
    assert_eq!(free.len(), 13);
    assert!(!free.contains(&(0, 0)) && !free.contains(&(3, 3)) && !free.contains(&(1, 2)));
    assert!(free.contains(&(2, 1)));
    assert_eq!(free_cells(&vec![]).len(), 16);
}

#[test]
fn node_type_names() {
    assert_eq!(NodeType::Gateway.name(), "Gateway");
    assert_eq!(NodeType::WebServer.name(), "WebServer");
    assert_eq!(NodeType::Authentication.name(), "Authentication");
    assert_eq!(NodeType::Database.name(), "Database");
    assert_eq!(NodeType::Firewall.name(), "Firewall");
    assert_eq!(NodeType::InternalApi.name(), "InternalApi");
}

#[test]
fn text_helpers() {
    assert_eq!(decimal_string(0), "0");
    assert_eq!(decimal_string(7), "7");
    assert_eq!(decimal_string(85), "85");
    assert_eq!(decimal_string(100), "100");
    assert_eq!(decimal_string(255), "255");
    assert_eq!(trim_str(" \t a b \n"), "a b");
    assert_eq!(trim_str("\u{3000}x\u{a0}"), "x");
    assert_eq!(trim_str("   "), "");
    assert!(eq_ignore_case("GaTeWaY", "gateway"));
    assert!(!eq_ignore_case("Gateway", "Gateways"));
    assert!(!eq_ignore_case("Gatewäy", "GATEWÄY"));
    assert!(str_eq("abc", "abc"));
    assert!(!str_eq("abc", "abd"));
    assert_eq!(find_char("a(b)c(", '(', 0), Some(1));
    assert_eq!(find_char("a(b)c(", '(', 2), Some(5));
    assert_eq!(find_char("a(b)c", ')', 4), None);
    assert_eq!(find_char("é(x)", '(', 0), Some(1));
}

#[test]
fn node_clone_keeps_fields() {
    let mut n = node(2, NodeType::InternalApi, 42, (1, 3));
    n.add_effect(StatusEffect::Backdoor);
    n.add_effect(StatusEffect::Backdoor);
    let c = n.clone();
    assert_eq!(c.id, 2);
    assert_eq!(c.hp, 42);
    assert_eq!(c.pos, (1, 3));
    assert_eq!(c.name, "InternalApi");
    assert_eq!(c.status_effects, vec![StatusEffect::Backdoor]);
    assert!(c.has_effect(StatusEffect::Backdoor));
    assert!(!c.has_effect(StatusEffect::Malware));
}

#[test]
fn game_from_given_draws() {
    let kinds = vec![NodeType::Gateway, NodeType::Database, NodeType::Firewall];
    let picks = vec![0usize, 0, 13];
    let g = GameState::from_draws(kinds, &picks);
    assert_eq!(g.nodes.len(), 3);
    assert_eq!(g.nodes[0].node_type, NodeType::Firewall);
    assert_eq!(g.nodes[1].node_type, NodeType::Database);
    assert_eq!(g.nodes[2].node_type, NodeType::Gateway);
    assert_eq!(g.nodes[0].name, "Firewall");
    assert_eq!(g.nodes[0].pos, (0, 0));
    assert_eq!(g.nodes[1].pos, (1, 0));
    assert_eq!(g.nodes[2].pos, (3, 3));
    assert_eq!(g.nodes[2].id, 2);
    assert_eq!(g.player_ap, 10);
    assert_eq!(g.turn_count, 1);
    assert_eq!(g.global_integrity, 50);
    let g = GameState::from_draws(vec![NodeType::WebServer], &vec![5]);
    assert_eq!(g.nodes[0].pos, (1, 1));
    assert_eq!(GameState::from_draws(vec![], &vec![]).nodes.len(), 0);
}

#[test]
fn free_cells_run_row_by_row() {
    let free = free_cells(&vec![(1u8, 0u8)]);
    assert_eq!(&free[..4], &[(0, 0), (2, 0), (3, 0), (0, 1)]);
    assert_eq!(free[14], (3, 3));
}

#[test]
fn health_bands() {
    let cases: Vec<(u8, Health)> = vec![
        (100, Health::Good),
        (71, Health::Good),
        (70, Health::Damaged),
        (31, Health::Damaged),
        (30, Health::Critical),
        (0, Health::Critical),
    ];
    for (hp, band) in cases {
        assert_eq!(node(0, NodeType::Gateway, hp, (0, 0)).health(), band);
    }
}
