//! Shortcuts: reading, writing, merging, validating and resolving them.

use attacode::keybindings::defaults::{default_bindings, unmappable_shortcuts};
use attacode::keybindings::loader::{
    merge_bindings, user_bindings, KeybindingsFile, UserBindingEntry,
};
use attacode::keybindings::parser::{parse_chord, parse_shortcut, KeyCode, ParseError, Shortcut};
use attacode::keybindings::reserved::is_reserved_shortcut;
use attacode::keybindings::resolver::{KeyEvent, KeyPress, ResolveOutcome, Resolver};
use attacode::keybindings::schema::USER_BINDINGS_JSON_SCHEMA;
use attacode::keybindings::validate::{validate_bindings, ValidationIssue};
use attacode::keybindings::{Keybinding, KeybindingSource};

#[derive(PartialEq)]
enum Mods {
    Bare,
    Control,
}

/// The bindings of a file in JSON.
fn load(json: &str) -> Vec<Keybinding> {
    let value: serde_json::Value = serde_json::from_str(json).unwrap();
    let text = |v: Option<&serde_json::Value>| v.and_then(|s| s.as_str()).map(str::to_string);
    let bindings = value["bindings"]
        .as_array()
        .unwrap()
        .iter()
        .map(|e| UserBindingEntry {
            shortcut: text(e.get("shortcut")).unwrap(),
            action: text(e.get("action")).unwrap(),
            description: text(e.get("description")),
        })
        .collect();
    user_bindings(KeybindingsFile { bindings })
}

#[test]
fn parse_simple_ctrl_letter() {
    let s = parse_shortcut("Ctrl+P").unwrap();
    assert!(s.has_ctrl());
    assert_eq!(s.key, KeyCode::Char('p'));
}

#[test]
fn parse_dash_separator_works() {
    let s = parse_shortcut("Ctrl-X").unwrap();
    assert!(s.has_ctrl());
    assert_eq!(s.key, KeyCode::Char('x'));
}

#[test]
fn parse_multiple_modifiers() {
    let s = parse_shortcut("Ctrl+Shift+Alt+P").unwrap();
    assert!(s.has_ctrl());
    assert!(s.has_shift());
    assert!(s.has_alt());
    assert_eq!(s.key, KeyCode::Char('p'));
}

#[test]
fn parse_named_keys() {
    assert_eq!(parse_shortcut("Esc").unwrap().key, KeyCode::Esc);
    assert_eq!(parse_shortcut("Up").unwrap().key, KeyCode::Up);
    assert_eq!(parse_shortcut("F5").unwrap().key, KeyCode::Function(5));
    assert_eq!(parse_shortcut("Space").unwrap().key, KeyCode::Space);
}

#[test]
fn parse_chord_two_shortcuts() {
    let c = parse_chord("Ctrl+X Ctrl+C").unwrap();
    assert_eq!(c.len(), 2);
    assert_eq!(c[0], Shortcut::ctrl('x'));
    assert_eq!(c[1], Shortcut::ctrl('c'));
}

#[test]
fn parse_chord_three_keys() {
    let c = parse_chord("Esc K D").unwrap();
    assert_eq!(c.len(), 3);
    assert_eq!(c[0].key, KeyCode::Esc);
}

#[test]
fn rejects_empty() {
    assert!(matches!(parse_shortcut(""), Err(ParseError::Empty)));
    assert!(matches!(parse_chord(""), Err(ParseError::Empty)));
}

#[test]
fn rejects_unknown_function_key() {
    assert!(matches!(
        parse_shortcut("F25"),
        Err(ParseError::UnknownKey(_))
    ));
}

#[test]
fn render_round_trips() {
    for input in ["Ctrl+P", "Ctrl+Shift+A", "F5", "Esc"] {
        let s = parse_shortcut(input).unwrap();
        let parsed_back = parse_shortcut(&s.render()).unwrap();
        assert_eq!(s, parsed_back, "{input} did not round-trip");
    }
}

#[test]
fn ctrl_z_is_reserved() {
    assert!(is_reserved_shortcut(&Shortcut::ctrl('z')));
}

#[test]
fn ctrl_s_and_ctrl_q_are_reserved() {
    assert!(is_reserved_shortcut(&Shortcut::ctrl('s')));
    assert!(is_reserved_shortcut(&Shortcut::ctrl('q')));
}

#[test]
fn ctrl_c_is_not_reserved_we_handle_it() {
    assert!(!is_reserved_shortcut(&Shortcut::ctrl('c')));
}

#[test]
fn arbitrary_letter_is_not_reserved() {
    assert!(!is_reserved_shortcut(&Shortcut::ctrl('p')));
}

#[test]
fn all_defaults_have_descriptions() {
    for b in default_bindings() {
        assert!(b.description.is_some(), "{} missing description", b.action);
    }
}

#[test]
fn the_default_binding_table_is_pinned() {
    let mut actual: Vec<String> = default_bindings()
        .iter()
        .map(|b| {
            let keys: Vec<String> = b.chord.iter().map(|s| s.render()).collect();
            format!("{} = {}", keys.join(" "), b.action)
        })
        .collect();
    actual.sort();

    let mut expected: Vec<String> = [
        "Alt+Down = transcript.select-next",
        "Alt+Left = editor.cursor.word-left",
        "Alt+Right = editor.cursor.word-right",
        "Alt+Up = transcript.select-prev",
        "Ctrl+c = repl.cancel",
        "Ctrl+d = repl.exit",
        "Ctrl+k = editor.kill-to-eol",
        "Ctrl+l = editor.redraw",
        "Ctrl+u = editor.clear",
        "Ctrl+w = editor.delete-word",
        "Delete = editor.delete-forward",
        "Down = ask.next",
        "Down = editor.history.next",
        "End = editor.cursor.line-end",
        "Enter = ask.confirm",
        "Enter = editor.submit",
        "Esc = repl.dismiss",
        "F5 = transcript.toggle-expand",
        "Home = editor.cursor.line-start",
        "Left = editor.cursor.left",
        "PageDown = repl.scroll-down",
        "PageUp = repl.scroll-up",
        "Right = editor.cursor.right",
        "Shift+Enter = editor.newline",
        "Tab = ask.next-request",
        "Up = ask.prev",
        "Up = editor.history.prev",
        "n = ask.no-shortcut",
        "y = ask.yes-shortcut",
    ]
    .map(str::to_string)
    .to_vec();
    expected.sort();

    assert_eq!(actual, expected);
}

#[test]
fn shadowed_bindings_are_exactly_the_ones_we_know_about() {
    let mut seen: Vec<String> = Vec::new();
    let mut shadowed: Vec<String> = Vec::new();
    for b in &default_bindings() {
        let key = b
            .chord
            .iter()
            .map(|s| s.render())
            .collect::<Vec<_>>()
            .join(" ");
        if seen.contains(&key) {
            shadowed.push(b.action.clone());
        } else {
            seen.push(key);
        }
    }
    shadowed.sort();
    assert_eq!(shadowed, vec!["ask.confirm", "ask.next", "ask.prev"]);
}

fn user(chord: &str, action: &str) -> Keybinding {
    Keybinding {
        chord: parse_chord(chord).unwrap(),
        action: action.into(),
        description: None,
        source: KeybindingSource::User,
    }
}

#[test]
fn no_issues_for_clean_bindings() {
    let bs = vec![user("Ctrl+P", "a"), user("Ctrl+Q", "b"), user("F5", "c")];
    let issues = validate_bindings(&bs);
    assert_eq!(issues.len(), 1);
    match &issues[0] {
        ValidationIssue::ReservedShortcut { action, .. } => assert_eq!(action, "b"),
        other => panic!("unexpected: {other:?}"),
    }
}

#[test]
fn duplicate_chord_reported() {
    let bs = vec![user("Ctrl+P", "a"), user("Ctrl+P", "b")];
    let issues = validate_bindings(&bs);
    assert!(issues
        .iter()
        .any(|i| matches!(i, ValidationIssue::DuplicateChord { .. })));
}

#[test]
fn reserved_shortcut_flagged() {
    let bs = vec![Keybinding {
        chord: vec![parse_shortcut("Ctrl+Z").unwrap()],
        action: "x".into(),
        description: None,
        source: KeybindingSource::User,
    }];
    let issues = validate_bindings(&bs);
    assert!(issues
        .iter()
        .any(|i| matches!(i, ValidationIssue::ReservedShortcut { .. })));
}

#[test]
fn chord_shadowing_flagged() {
    let bs = vec![user("Ctrl+P", "a"), user("Ctrl+P Ctrl+R", "b")];
    let issues = validate_bindings(&bs);
    assert!(issues
        .iter()
        .any(|i| matches!(i, ValidationIssue::ChordShadowed { .. })));
}

#[test]
fn no_shadowing_when_no_prefix_relation() {
    let bs = vec![user("Ctrl+P", "a"), user("Ctrl+Q Ctrl+R", "b")];
    let issues = validate_bindings(&bs);
    assert!(issues
        .iter()
        .all(|i| !matches!(i, ValidationIssue::ChordShadowed { .. })));
}

fn ke(c: char, mods: Mods) -> KeyEvent {
    KeyEvent {
        code: KeyPress::Char(c),
        control: mods == Mods::Control,
        alt: false,
        shift: false,
        super_key: false,
        meta: false,
    }
}

fn binding(chord: &str, action: &str) -> Keybinding {
    Keybinding {
        chord: parse_chord(chord).unwrap(),
        action: action.into(),
        description: None,
        source: KeybindingSource::Default,
    }
}

#[test]
fn single_shortcut_resolves_immediately() {
    let mut r = Resolver::new(vec![binding("Ctrl+P", "go")]);
    let out = r.on_key(&ke('p', Mods::Control));
    assert_eq!(out, ResolveOutcome::Action("go".into()));
    assert!(!r.is_in_chord());
}

#[test]
fn chord_two_step_resolves() {
    let mut r = Resolver::new(vec![binding("Ctrl+X Ctrl+C", "exit")]);
    assert_eq!(
        r.on_key(&ke('x', Mods::Control)),
        ResolveOutcome::Partial
    );
    assert!(r.is_in_chord());
    assert_eq!(r.chord_hint(), Some("Ctrl+x".into()));
    assert_eq!(
        r.on_key(&ke('c', Mods::Control)),
        ResolveOutcome::Action("exit".into())
    );
    assert!(!r.is_in_chord());
}

#[test]
fn unmatched_key_resets_state() {
    let mut r = Resolver::new(vec![binding("Ctrl+P", "go")]);
    let out = r.on_key(&ke('a', Mods::Bare));
    assert!(matches!(out, ResolveOutcome::Unmatched(_)));
    assert!(!r.is_in_chord());
}

#[test]
fn esc_cancels_chord_in_progress() {
    let mut r = Resolver::new(vec![binding("Ctrl+X Ctrl+C", "exit")]);
    let _ = r.on_key(&ke('x', Mods::Control));
    assert!(r.is_in_chord());
    let out = r.on_key(&KeyEvent { code: KeyPress::Esc, ..ke('x', Mods::Bare) });
    assert_eq!(out, ResolveOutcome::ChordCancelled);
    assert!(!r.is_in_chord());
}

#[test]
fn chord_prefix_unmatched_continuation_resets() {
    let mut r = Resolver::new(vec![binding("Ctrl+X Ctrl+C", "exit")]);
    let _ = r.on_key(&ke('x', Mods::Control));
    assert!(r.is_in_chord());
    let out = r.on_key(&ke('z', Mods::Bare));
    match out {
        ResolveOutcome::Unmatched(_) => assert!(!r.is_in_chord()),
        other => panic!("expected Unmatched, got {other:?}"),
    }
}

#[test]
fn ambiguous_short_match_wins() {
    let mut r = Resolver::new(vec![
        binding("Ctrl+P", "single"),
        binding("Ctrl+P Ctrl+Q", "chord"),
    ]);
    let out = r.on_key(&ke('p', Mods::Control));
    assert_eq!(out, ResolveOutcome::Action("single".into()));
    assert!(!r.is_in_chord());
}

#[test]
fn reset_clears_chord_prefix() {
    let mut r = Resolver::new(vec![binding("Ctrl+X Ctrl+C", "exit")]);
    let _ = r.on_key(&ke('x', Mods::Control));
    assert!(r.is_in_chord());
    r.reset();
    assert!(!r.is_in_chord());
}

#[test]
fn merge_user_overrides_default() {
    let defaults = vec![Keybinding {
        chord: vec![parse_shortcut("Ctrl+C").unwrap()],
        action: "repl.cancel".into(),
        description: None,
        source: KeybindingSource::Default,
    }];
    let user = vec![Keybinding {
        chord: vec![parse_shortcut("Ctrl+C").unwrap()],
        action: "custom.action".into(),
        description: None,
        source: KeybindingSource::User,
    }];
    let merged = merge_bindings(defaults, user);
    assert_eq!(merged.len(), 1);
    assert_eq!(merged[0].action, "custom.action");
}

#[test]
fn merge_user_appends_new_binding() {
    let defaults = vec![Keybinding {
        chord: vec![parse_shortcut("Ctrl+C").unwrap()],
        action: "repl.cancel".into(),
        description: None,
        source: KeybindingSource::Default,
    }];
    let user = vec![Keybinding {
        chord: vec![parse_shortcut("Ctrl+P").unwrap()],
        action: "palette".into(),
        description: None,
        source: KeybindingSource::User,
    }];
    let merged = merge_bindings(defaults, user);
    assert_eq!(merged.len(), 2);
}

#[test]
fn load_parses_basic_entries() {
    let r = load(
        r#"{
            "bindings": [
                {"shortcut": "Ctrl+P", "action": "palette", "description": "open palette"},
                {"shortcut": "Ctrl+X Ctrl+C", "action": "force-exit"}
            ]
        }"#,
    );
    assert_eq!(r.len(), 2);
    assert_eq!(r[0].action, "palette");
    assert_eq!(r[1].chord.len(), 2);
}

#[test]
fn load_skips_bad_entries_keeps_good_ones() {
    let r = load(
        r#"{"bindings":[
            {"shortcut": "F25", "action": "broken"},
            {"shortcut": "Ctrl+P", "action": "ok"}
        ]}"#,
    );
    assert_eq!(r.len(), 1);
    assert_eq!(r[0].action, "ok");
}

#[test]
fn schema_is_valid_json() {
    let v: serde_json::Value = serde_json::from_str(USER_BINDINGS_JSON_SCHEMA).unwrap();
    assert!(v.get("title").is_some());
    assert!(v.get("$schema").is_some());
}
