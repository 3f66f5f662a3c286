//! What holds over several operations, on values.

use attacode::ask::{PendingQuestion, QuestionEvent};
use attacode::bootstrap::{resolve_provider, BootstrapError, ProviderConfig, Settings};
use attacode::btw::{say, Exchange, MessageRole, SideQuestions};
use attacode::canvas::{blank, Area, Style};
use attacode::dispatch::{active_choice, dispatch_ask_action, dispatch_key, submit};
use attacode::domain::{AgentEvent, Now};
use attacode::frame_state::{
    AnswerWith, AskOption, AskRequest, BtwState, FrameState, ItemStatus, LineKind, PickerCandidate,
    TaskListState,
};
use attacode::handle::{BridgeCommand, BtwKey};
use attacode::keybindings::defaults::default_bindings;
use attacode::keybindings::loader::{merge_bindings, user_bindings, KeybindingsFile, UserBindingEntry};
use attacode::keybindings::parser::{parse_chord, parse_shortcut, KeyCode, ParseError};
use attacode::keybindings::resolver::{KeyEvent, KeyPress, ResolveOutcome, Resolver};
use attacode::keybindings::validate::{render_chord, validate_bindings};
use attacode::keybindings::{Keybinding, KeybindingSource};
use attacode::layout::{place, render, transcript_body_height};
use attacode::local_ui::{foldable_blocks, LocalUi};
use attacode::merge::{merge, spinner_at, user_prompts};
use attacode::picker::{compute_command_picker, step};
use attacode::reducer::{
    can_summarize, compact_note, cut_summary, early_stop_note, parse_todos, spinner_char,
    summarize_input, tasks_from, Reducer, TodoEntry,
};
use attacode::regions::composer::{card_inner_height, fit_card, wrapped_line_count};
use attacode::regions::footer_hints::UsageText;
use attacode::regions::operation_status::{render_task_list, task_list_height};
use attacode::restore::try_restore_turns;
use attacode::side_panel;
use attacode::transcript_lines::FOLD_LINE_THRESHOLD;

const NOW: Now = Now { steady_ms: 10_000, wall_ms: 1_700_000_000_000 };
const LATER: Now = Now { steady_ms: 13_500, wall_ms: 1_700_000_003_500 };

fn at(draft: &str, cursor: usize) -> LocalUi {
    let mut local = LocalUi::new(Vec::new());
    local.draft = draft.to_string();
    local.cursor = cursor;
    local
}

fn session() -> Reducer {
    Reducer::new("m".into(), "/tmp".into(), Vec::new())
}

fn json(text: &str) -> serde_json::Value {
    serde_json::from_str(text).unwrap()
}

fn tool_use(id: &str, turn: &str, input: &str) -> AgentEvent {
    AgentEvent::ToolUse {
        id: id.into(),
        name: "Bash".into(),
        input: json(input),
        turn_id: turn.into(),
    }
}

fn tool_result(id: &str, turn: &str, content: &str) -> AgentEvent {
    AgentEvent::ToolResult {
        id: id.into(),
        name: "Bash".into(),
        content: content.into(),
        is_error: None,
        turn_id: turn.into(),
    }
}

fn texts(frame: &FrameState) -> Vec<String> {
    frame.transcript.body.entries.iter().map(|e| e.text.clone()).collect()
}

fn question(id: &str) -> QuestionEvent {
    QuestionEvent::Ask(PendingQuestion {
        id: id.into(),
        header: "H".into(),
        question: "which?".into(),
        options: vec![("a".into(), "A".into()), ("b".into(), "B".into())],
    })
}

fn pending(frame: &FrameState) -> Vec<String> {
    match &frame.composer.content.ask {
        Some(ask) => ask.pending.iter().map(|r| r.prompt_id.clone()).collect(),
        None => Vec::new(),
    }
}

fn press(code: KeyPress) -> KeyEvent {
    KeyEvent { code, control: false, alt: false, shift: false, super_key: false, meta: false }
}

fn control(c: char) -> KeyEvent {
    KeyEvent { control: true, ..press(KeyPress::Char(c)) }
}

fn binding(shortcut: &str, action: &str) -> Keybinding {
    Keybinding {
        chord: parse_chord(shortcut).unwrap(),
        action: action.into(),
        description: None,
        source: KeybindingSource::User,
    }
}

// ---- the editor ----------------------------------------------------------------------

#[test]
fn a_typed_character_can_be_taken_back_both_ways() {
    let mut local = at("重构ab", 6);
    local.insert('é');
    assert_eq!((local.draft.as_str(), local.cursor), ("重构éab", 8));
    local.delete_backward();
    assert_eq!((local.draft.as_str(), local.cursor), ("重构ab", 6));
    local.insert('é');
    local.move_char(-1);
    local.delete_forward();
    assert_eq!((local.draft.as_str(), local.cursor), ("重构ab", 6));
}

#[test]
fn right_and_left_lead_back() {
    let mut local = at("重x", 0);
    local.move_char(1);
    assert_eq!(local.cursor, 3);
    local.move_char(-1);
    assert_eq!(local.cursor, 0);
}

#[test]
fn moves_stay_inside_the_draft() {
    let local = at("one two\nthree four", 12);
    assert_eq!(local.word_boundary(-1), 8);
    assert_eq!(local.word_boundary(1), 13);
    assert_eq!(local.line_start(), 8);
    assert_eq!(local.line_end(), 18);
    assert!(!local.draft[local.line_start()..local.line_end()].contains('\n'));
    let mut start = at("x", 0);
    start.move_char(-1);
    start.move_word(-1);
    assert_eq!(start.cursor, 0);
}

#[test]
fn killing_keeps_what_stands_around_the_rest_of_the_line() {
    let mut local = at("ab\ncd\nef", 4);
    local.kill_to_line_end();
    assert_eq!((local.draft.as_str(), local.cursor), ("ab\nc\nef", 4));
    assert_eq!(local.line_end(), 4);
}

#[test]
fn a_trip_into_the_history_and_back_keeps_the_draft() {
    let mut local = at("half", 4);
    for text in ["one", "two", "two", "three"] {
        local.remember(text);
    }
    assert_eq!(local.history, ["one", "two", "three"]);
    for _ in 0..3 {
        local.recall(-1);
    }
    assert_eq!(local.draft, "one");
    local.recall(-1);
    assert_eq!(local.draft, "one");
    for _ in 0..3 {
        local.recall(1);
    }
    assert_eq!(local.draft, "half");
    assert_eq!(local.history_pos, None);
}

#[test]
fn a_page_down_undoes_a_page_up_from_the_end() {
    let mut local = at("", 0);
    local.viewport_lines = 10;
    local.scroll_up(100);
    assert_eq!(local.scroll_offset, Some(80));
    local.scroll_down(100);
    assert_eq!(local.scroll_offset, None);
    local.scroll_offset = Some(5);
    local.scroll_down(100);
    assert_eq!(local.scroll_offset, Some(15));
}

#[test]
fn steps_go_round() {
    assert_eq!(step(0, -1, 3), 2);
    assert_eq!(step(2, 1, 3), 0);
    assert_eq!(step(step(1, 1, 3), -1, 3), 1);
    assert_eq!(step(3, 1, 0), 3);
}

#[test]
fn a_submitted_draft_leaves_the_editor_for_the_history() {
    let mut local = at("hello", 2);
    local.scroll_offset = Some(1);
    let r = submit(&mut local, &session().render(NOW));
    assert!(matches!(r.command, Some(BridgeCommand::Submit { text }) if text == "hello"));
    assert_eq!(local.draft, "");
    assert_eq!(local.history, ["hello"]);
    assert_eq!(local.scroll_offset, None);
    assert!(submit(&mut local, &session().render(NOW)).command.is_none());
}

#[test]
fn the_lists_are_never_open_together() {
    let commands = vec![PickerCandidate { name: "/help".into(), description: "Show help".into() }];
    let mut local = LocalUi::new(commands);
    local.draft = "/h".into();
    local.cursor = 2;
    assert!(compute_command_picker(&local).is_some());
    local.session_picker = Some(Vec::new());
    assert!(compute_command_picker(&local).is_none());
}

// ---- dialogs -------------------------------------------------------------------------

#[test]
fn enter_answers_the_option_that_is_highlighted() {
    let mut s = session();
    s.apply_question(question("q1"));
    let mut local = at("", 0);
    local.ask_selected = 1;
    let frame = s.render(NOW);
    local.reconcile(&frame);
    let shown = merge(s.render(NOW), &local);
    let req = active_choice(&shown).unwrap();
    assert_eq!(req.selected_option, 1);
    let r = dispatch_ask_action("ask.confirm", &mut local, req, 1);
    assert!(matches!(
        r.command,
        Some(BridgeCommand::Respond { prompt_id, decision: AskOption::Answer { key, .. } })
            if prompt_id == "q1" && key == "b"
    ));
}

#[test]
fn reconciling_twice_changes_nothing_more() {
    let mut s = session();
    s.apply_question(question("q1"));
    let frame = s.render(NOW);
    let mut local = at("", 0);
    local.ask_selected = 9;
    local.ask_active = 4;
    local.reconcile(&frame);
    let once = (local.ask_selected, local.ask_active);
    local.reconcile(&frame);
    assert_eq!((local.ask_selected, local.ask_active), once);
    assert!(once.0 < 2 && once.1 == 0);
}

#[test]
fn a_locked_editor_keeps_its_draft() {
    let mut s = session();
    s.apply_question(question("q1"));
    let mut resolver = Resolver::new(default_bindings());
    for key in [press(KeyPress::Char('z')), press(KeyPress::Backspace), press(KeyPress::Enter)] {
        let mut local = at("draft", 3);
        let shown = merge(s.render(NOW), &local);
        assert!(shown.composer.content.editor.locked);
        let r = dispatch_key(key, &mut resolver, &mut local, &shown);
        assert_eq!((local.draft.as_str(), local.cursor), ("draft", 3));
        assert!(!matches!(r.command, Some(BridgeCommand::Submit { .. })));
    }
}

#[test]
fn an_open_side_question_keeps_the_keys_to_itself() {
    let mut frame = session().render(NOW);
    frame.btw = Some(BtwState {
        question: "why?".into(),
        answer: "because".into(),
        streaming: false,
        scroll: 0,
        earlier: Vec::new(),
        older: 0,
        viewing: 0,
    });
    let mut resolver = Resolver::new(default_bindings());
    let mut local = at("draft", 5);
    for key in [press(KeyPress::Char('z')), press(KeyPress::Backspace), press(KeyPress::Enter)] {
        dispatch_key(key, &mut resolver, &mut local, &frame);
        assert_eq!((local.draft.as_str(), local.cursor), ("draft", 5));
    }
}

// ---- shortcuts -----------------------------------------------------------------------

#[test]
fn what_is_written_reads_back() {
    for text in ["Ctrl+Alt+Shift+Meta+F12", "ctrl+k ctrl+s", "Escape", "PageUp", "Ctrl+É", "+"] {
        if let Ok(chord) = parse_chord(text) {
            assert_eq!(parse_chord(&render_chord(&chord)), Ok(chord));
        }
    }
    for b in default_bindings() {
        assert_eq!(parse_chord(&render_chord(&b.chord)), Ok(b.chord));
    }
}

#[test]
fn letters_beyond_ascii_are_lowered_too() {
    assert_eq!(parse_shortcut("Ctrl+É").unwrap().key, KeyCode::Char('é'));
    assert_eq!(parse_shortcut("CTRL+ENTER").unwrap().key, KeyCode::Enter);
}

#[test]
fn the_last_binding_of_a_chord_wins_and_none_is_invented() {
    let entry = |s: &str, a: &str| UserBindingEntry {
        shortcut: s.into(),
        action: a.into(),
        description: None,
    };
    let user = user_bindings(KeybindingsFile {
        bindings: vec![entry("Ctrl+C", "first"), entry("Ctrl+C", "last"), entry("Ctrl+", "bad")],
    });
    let defaults = default_bindings();
    let n = defaults.len();
    let merged = merge_bindings(defaults, user);
    let c = parse_chord("Ctrl+C").unwrap();
    let mine: Vec<_> = merged.iter().filter(|b| b.chord == c).map(|b| b.action.as_str()).collect();
    assert_eq!(mine, ["last"]);
    assert_eq!(merged.len(), n);
}

#[test]
fn a_chord_resolves_key_by_key_and_escape_lets_go_of_it() {
    let mut r = Resolver::new(vec![binding("Ctrl+K Ctrl+S", "keys.show")]);
    assert!(matches!(r.on_key(&control('k')), ResolveOutcome::Partial));
    assert!(r.is_in_chord());
    assert!(matches!(
        r.on_key(&control('s')),
        ResolveOutcome::Action(action) if action == "keys.show"
    ));
    assert!(!r.is_in_chord());
    r.on_key(&control('k'));
    r.on_key(&press(KeyPress::Esc));
    assert!(!r.is_in_chord());
}

#[test]
fn a_chord_behind_a_shorter_one_is_never_reached() {
    let mut r = Resolver::new(vec![binding("Ctrl+K", "short"), binding("Ctrl+K Ctrl+S", "long")]);
    assert!(matches!(
        r.on_key(&control('k')),
        ResolveOutcome::Action(action) if action == "short"
    ));
    assert!(!validate_bindings(r.bindings()).is_empty());
    assert!(validate_bindings(&[binding("Ctrl+K", "short"), binding("Ctrl+L", "other")]).is_empty());
}

#[test]
fn a_shortcut_that_cannot_be_read_says_why() {
    assert_eq!(parse_shortcut(""), Err(ParseError::Empty));
    let e = parse_shortcut("Ctrl+NoSuchKey").unwrap_err();
    assert_eq!(e, ParseError::MultiChar("nosuchkey".into()));
    assert_eq!(e.message(), "multi-char keys must be named (got `nosuchkey`)");
    let e = parse_shortcut("F99").unwrap_err();
    assert_eq!(e.message(), "unknown key `f99`");
}

#[test]
fn separators_and_case_do_not_matter() {
    for text in ["Ctrl+Shift+P", "ctrl-x", "Alt+F4", "nonsense+y", "-", "Ctrl+É", "oΔυΣ", "aΣ+x", " meta + enter "] {
        let other: String =
            text.chars().map(|c| if c == '+' { '-' } else if c == '-' { '+' } else { c }).collect();
        assert_eq!(parse_shortcut(&other), parse_shortcut(text));
        assert_eq!(parse_shortcut(&text.to_ascii_uppercase()), parse_shortcut(text));
    }
    assert_eq!(parse_chord("CTRL-X ctrl+c"), parse_chord("ctrl+x CTRL-C"));
}

#[test]
fn a_key_without_a_name_gives_up_the_chord() {
    let mut r = Resolver::new(vec![binding("Ctrl+X Ctrl+C", "exit")]);
    assert!(matches!(r.on_key(&control('x')), ResolveOutcome::Partial));
    assert!(matches!(r.on_key(&press(KeyPress::Other)), ResolveOutcome::Unmatched(_)));
    assert!(!r.is_in_chord());
    assert!(matches!(r.on_key(&control('c')), ResolveOutcome::Unmatched(_)));
}

// ---- the session ---------------------------------------------------------------------

#[test]
fn entries_are_single_lines_and_folding_loses_none() {
    let mut s = session();
    s.begin_turn("t".into(), "one\r\ntwo\n".into(), NOW);
    s.apply_event(tool_use("c", "t", "{}"), NOW);
    let lines: Vec<String> = (0..12).map(|i| format!("line {i}")).collect();
    s.apply_event(tool_result("c", "t", &lines.join("\n")), NOW);
    let folded = s.render(NOW);
    s.toggle_expand("c");
    let open = s.render(NOW);
    let results = |f: &FrameState| {
        f.transcript.body.entries.iter().filter(|e| e.kind == LineKind::ToolResultOk).count()
    };
    assert_eq!(results(&open), 12);
    assert_eq!(results(&folded), FOLD_LINE_THRESHOLD);
    assert_eq!(texts(&folded).len(), texts(&open).len() - 12 + FOLD_LINE_THRESHOLD + 1);
    assert!(texts(&open).iter().all(|t| !t.contains('\n')));
    s.toggle_expand("c");
    assert_eq!(texts(&s.render(NOW)), texts(&folded));
    assert_eq!(foldable_blocks(&folded), ["c"]);
}

#[test]
fn a_block_is_listed_once_however_it_is_spread() {
    let mut s = session();
    s.begin_turn("t".into(), "go".into(), NOW);
    s.apply_event(tool_use("a", "t", "{}"), NOW);
    s.apply_event(tool_use("b", "t", "{}"), NOW);
    s.apply_event(tool_use("a", "t", "{}"), NOW);
    assert_eq!(foldable_blocks(&s.render(NOW)), ["a", "b"]);
}

#[test]
fn headings_are_single_lines() {
    let mut s = session();
    s.begin_turn("t".into(), "go".into(), NOW);
    s.apply_event(tool_use("a", "t", "{\n \"cmd\": \"one\\ntwo\"\n}"), NOW);
    assert_eq!(texts(&s.render(NOW)), ["go", "Bash({\"cmd\":\"one\\ntwo\"})"]);
}

#[test]
fn a_prompt_comes_back_whole() {
    let mut s = session();
    s.begin_turn("a".into(), "first".into(), NOW);
    s.begin_turn("b".into(), "one\n\ntwo".into(), NOW);
    s.begin_turn("c".into(), "last".into(), NOW);
    assert_eq!(user_prompts(&s.render(NOW)), ["first", "one\n\ntwo", "last"]);
}

#[test]
fn resolving_takes_off_that_request_once() {
    let mut s = session();
    s.apply_question(question("q1"));
    s.apply_question(question("q2"));
    assert_eq!(pending(&s.render(NOW)), ["q1", "q2"]);
    s.resolve_prompt("q1");
    assert_eq!(pending(&s.render(NOW)), ["q2"]);
    s.resolve_prompt("q1");
    assert_eq!(pending(&s.render(NOW)), ["q2"]);
}

#[test]
fn events_of_one_turn_leave_the_others_alone() {
    let mut s = session();
    s.begin_turn("a".into(), "first".into(), NOW);
    s.begin_turn("b".into(), "second".into(), NOW);
    s.apply_event(AgentEvent::TextDelta { text: "late".into(), turn_id: "a".into() }, NOW);
    assert_eq!(texts(&s.render(NOW)), ["first", "late", "second"]);
    s.note("seen".into());
    assert_eq!(texts(&s.render(NOW)), ["first", "late", "second", "seen"]);
}

#[test]
fn a_text_shows_the_same_in_any_pieces() {
    let delta = |text: &str| AgentEvent::TextDelta { text: text.into(), turn_id: "a".into() };
    let mut pieces = session();
    pieces.begin_turn("a".into(), "first".into(), NOW);
    pieces.apply_event(delta("one\ntw"), NOW);
    pieces.apply_event(delta("o\nthree"), NOW);
    let mut whole = session();
    whole.begin_turn("a".into(), "first".into(), NOW);
    whole.apply_event(delta("one\ntwo\nthree"), NOW);
    assert_eq!(texts(&pieces.render(NOW)), ["first", "one", "two", "three"]);
    assert_eq!(texts(&pieces.render(NOW)), texts(&whole.render(NOW)));
}

#[test]
fn usage_adds_up_and_requests_wait() {
    let mut s = session();
    s.apply_question(question("q1"));
    for _ in 0..2 {
        s.apply_event(
            AgentEvent::TurnComplete {
                stop_reason: "end_turn".into(),
                input_tokens: 10,
                output_tokens: 3,
            },
            NOW,
        );
    }
    s.apply_event(
        AgentEvent::PermissionPrompt {
            prompt_id: "p".into(),
            tool_name: "Bash".into(),
            message: "run?".into(),
        },
        NOW,
    );
    let frame = s.render(NOW);
    assert_eq!(frame.footer_hints.usage.token_in, 20);
    assert_eq!(frame.footer_hints.usage.token_out, 6);
    assert_eq!(frame.footer_hints.usage.turn_count, 2);
    assert_eq!(pending(&frame), ["q1", "p"]);
}

#[test]
fn a_result_without_its_call_is_kept_as_a_note() {
    let mut s = session();
    s.begin_turn("a".into(), "first".into(), NOW);
    s.apply_event(tool_result("nowhere", "a", "kept"), NOW);
    let frame = s.render(NOW);
    let last = frame.transcript.body.entries.last().unwrap();
    assert_eq!(last.kind, LineKind::Note);
    assert!(last.text.contains("nowhere") && last.text.contains("kept"));
}

#[test]
fn an_ended_turn_stands_still_and_a_cancelled_one_waits() {
    let mut s = session();
    s.request_cancel(NOW);
    assert!(s.render(NOW).operation_status.status_line.content.is_none());
    s.begin_turn("a".into(), "first".into(), NOW);
    s.request_cancel(NOW);
    let before = texts(&s.render(NOW));
    assert!(s.render(NOW).operation_status.status_line.content.is_some());
    assert_eq!(before, ["first"]);
    s.apply_event(
        AgentEvent::TurnComplete {
            stop_reason: "end_turn".into(),
            input_tokens: 1200,
            output_tokens: 34,
        },
        NOW,
    );
    assert!(s.render(NOW).operation_status.status_line.content.is_none());
    s.tick(LATER);
    assert!(s.render(LATER).operation_status.status_line.content.is_none());
    assert_eq!(s.render(NOW).footer_hints.usage.token_in, 1200);
}

#[test]
fn a_sub_agent_keeps_one_row() {
    let mut s = session();
    s.apply_event(
        AgentEvent::SubagentProgress {
            agent_label: "x".into(),
            event: Box::new(AgentEvent::TextDelta { text: "t".into(), turn_id: "u".into() }),
        },
        NOW,
    );
    s.apply_event(AgentEvent::AgentSpawned { agent_id: "x".into() }, NOW);
    s.apply_event(AgentEvent::AgentSpawned { agent_id: "y".into() }, NOW);
    assert_eq!(s.render(NOW).sub_agent_bar.agents.len(), 2);
}

#[test]
fn a_summary_is_compact_and_short() {
    assert_eq!(summarize_input(&json("{ \"b\" : 1,\n \"a\" : [ true ] }")), "{\"a\":[true],\"b\":1}");
    assert_eq!(cut_summary("short"), "short");
    let long = format!("\"{}\"", "x".repeat(200));
    let cut = summarize_input(&json(&long));
    assert_eq!(cut.len(), 83);
    assert!(cut.ends_with('…'));
}

#[test]
fn a_summary_shows_the_value_as_it_is() {
    let deep = (0..200).fold(json("1"), |v, _| serde_json::Value::Array(vec![v]));
    assert_eq!(summarize_input(&deep), format!("{}…", "[".repeat(80)));
    let odd = serde_json::Value::from(0.1f64 + 0.2f64);
    assert_eq!(summarize_input(&odd), "0.30000000000000004");
}

#[test]
fn a_summary_is_never_cut_inside_a_character() {
    let odd = format!("\"{}\"", "é".repeat(60));
    assert!(!can_summarize(&json(&odd)));
    let mut s = session();
    s.begin_turn("a".into(), "first".into(), NOW);
    assert!(!s.can_apply(&tool_use("c", "a", &odd)));
    assert_eq!(s.try_apply_event(tool_use("c", "a", &odd), NOW), None);
    assert_eq!(texts(&s.render(NOW)), ["first"]);
    assert_eq!(s.try_apply_event(AgentEvent::SkillsChanged, NOW), Some(true));
    assert_eq!(s.try_apply_event(AgentEvent::SystemInit, NOW), Some(false));
    assert!(try_restore_turns(Vec::new()).unwrap().is_empty());
}

#[test]
fn todos_are_read_from_json() {
    let todos = parse_todos(&json(
        "{\"todos\":[{\"content\":\"write\",\"active_form\":\"writing\",\"status\":\"in_progress\"},\
         {\"content\":\"test\",\"active_form\":\"testing\",\"status\":\"pending\"},\
         {\"content\":\"plan\",\"status\":\"completed\"},{\"status\":\"pending\"}]}",
    ))
    .unwrap();
    assert_eq!(todos.len(), 3);
    assert!(matches!(todos[0].status, ItemStatus::Running));
    assert_eq!(todos[0].label, "writing");
    assert_eq!(todos[1].label, "test");
    assert!(parse_todos(&json("{\"todos\":7}")).is_none());
    assert!(parse_todos(&json("{}")).is_none());
}

#[test]
fn tasks_are_made_of_their_members() {
    let entry = |status: Option<&str>, active_form: Option<&str>, content: Option<&str>| TodoEntry {
        status: status.map(Into::into),
        active_form: active_form.map(Into::into),
        content: content.map(Into::into),
    };
    let tasks = tasks_from(vec![
        entry(Some("in_progress"), Some("writing"), Some("write")),
        entry(Some("in_progress"), Some(""), Some("read")),
        entry(Some("completed"), Some("planning"), Some("plan")),
        entry(Some("anything"), None, Some("test")),
        entry(None, Some("lost"), Some("lost")),
        entry(Some("pending"), Some("lost"), None),
    ]);
    let labels: Vec<_> = tasks.iter().map(|t| t.label.as_str()).collect();
    assert_eq!(labels, ["writing", "read", "plan", "test"]);
    assert!(matches!(tasks[2].status, ItemStatus::Done));
    assert!(matches!(tasks[3].status, ItemStatus::Pending));
}

#[test]
fn notes_say_what_happened() {
    assert_eq!(early_stop_note("end_turn"), None);
    assert_eq!(early_stop_note("cancelled").as_deref(), Some("Turn cancelled."));
    assert_eq!(
        early_stop_note("max_turns").as_deref(),
        Some("Turn stopped: hit the per-turn API call limit (max_turns).")
    );
    assert_eq!(
        compact_note("auto", 40, 10, Some(3), Some(1200)),
        "Context compacted (auto): 40 → 10 messages, 3 rounds dropped, ~1200 tokens saved"
    );
    assert_eq!(
        compact_note("auto", 40, 10, None, None),
        "Context compacted (auto): 40 → 10 messages"
    );
}

#[test]
fn the_spinner_turns_with_the_clock() {
    let turn: String = (0u128..5).map(|i| spinner_char(i * 150)).collect();
    assert_eq!(turn, "|/-\\|");
    assert_eq!(spinner_char(149), '|');
    let bar: String = (0u128..5).map(|i| spinner_at(i * 120)).collect();
    assert_eq!(bar, "|/-\\|");
    assert_eq!(spinner_at(119), '|');
}

// ---- providers and side questions ----------------------------------------------------

#[test]
fn providers_are_named_in_order() {
    let p = |id: &str| {
        (
            id.to_string(),
            ProviderConfig { api_type: None, base_url: None, api_key: None, default_model: None },
        )
    };
    let s = Settings {
        model_name: "m".into(),
        max_tokens: 1,
        providers: vec![p("c"), p("a"), p("b")],
        default_provider: None,
        session_dir: None,
        allow_client_permission_override: false,
        instruction_file: None,
    };
    assert_eq!(
        resolve_provider(&s, None).unwrap_err(),
        BootstrapError::AmbiguousProvider("a, b, c".into())
    );
}

#[test]
fn the_conversation_goes_along_unchanged() {
    let mut side = SideQuestions::new();
    let told = || vec![say(MessageRole::User, "a"), say(MessageRole::Assistant, "b")];
    side.mirror(told());
    let (_, messages) = side.begin("why?", 1).unwrap();
    assert_eq!(format!("{:?}", &messages[..2]), format!("{:?}", told()));
}

#[test]
fn the_panel_walks_through_the_exchanges() {
    let told: Vec<Exchange> = (0..7)
        .map(|i| Exchange { question: format!("q{i}"), answer: format!("a{i}") })
        .collect();
    let mut p = side_panel::show(&told, 0);
    assert_eq!((p.question.as_str(), p.answer.as_str(), p.viewing), ("q6", "a6", 0));
    assert_eq!(p.earlier, ["q6", "q5", "q4", "q3", "q2"]);
    assert_eq!(p.older, 2);
    p = side_panel::press(p, BtwKey::Scroll(3), &told).unwrap();
    p = side_panel::press(p, BtwKey::Scroll(-1), &told).unwrap();
    assert_eq!(p.scroll, 2);
    p = side_panel::press(p, BtwKey::Scroll(isize::MIN), &told).unwrap();
    assert_eq!(p.scroll, 0);
    p = side_panel::press(p, BtwKey::Older, &told).unwrap();
    assert_eq!((p.question.as_str(), p.viewing), ("q5", 1));
    p = side_panel::press(p, BtwKey::Newer, &told).unwrap();
    assert_eq!((p.question.as_str(), p.viewing), ("q6", 0));
    p = side_panel::press(p, BtwKey::Newer, &told).unwrap();
    assert_eq!(p.viewing, 0);
    for _ in 0..9 {
        p = side_panel::press(p, BtwKey::Older, &told).unwrap();
    }
    assert_eq!((p.question.as_str(), p.viewing), ("q0", 6));
    side_panel::put(&mut p, "new".into(), "half".into(), true);
    assert_eq!((p.question.as_str(), p.answer.as_str(), p.streaming), ("new", "half", true));
    p = side_panel::press(p, BtwKey::ClearEarlier, &Vec::new()).unwrap();
    assert_eq!((p.earlier.len(), p.older, p.viewing), (0, 0, 0));
    assert_eq!(p.question, "new");
    assert!(side_panel::press(p, BtwKey::Close, &told).is_none());
    assert_eq!(side_panel::show(&Vec::new(), 4).question, "");
}

// ---- the screen ----------------------------------------------------------------------

fn numbered(prefix: &str, n: usize) -> Vec<attacode::canvas::Line> {
    (0..n).map(|i| attacode::canvas::line(format!("{prefix}{i}"), Style::plain())).collect()
}

#[test]
fn a_card_keeps_its_head_and_its_end() {
    let first = |l: &attacode::canvas::Line| l.spans.first().map(|s| s.text.clone());
    let full = fit_card(numbered("h", 1), numbered("b", 5), numbered("t", 2), 8);
    assert_eq!(full.len(), 8);
    let cut = fit_card(numbered("h", 1), numbered("b", 5), numbered("t", 2), 5);
    assert_eq!(cut.len(), 5);
    assert_eq!(first(&cut[0]).as_deref(), Some("h0"));
    assert_eq!(first(&cut[3]).as_deref(), Some("t0"));
    assert_eq!(first(&cut[4]).as_deref(), Some("t1"));
    assert!(blank().spans.is_empty());
}

#[test]
fn heights_count_what_is_shown() {
    let req = AskRequest {
        prompt_id: "p".into(),
        tool_name: "Bash".into(),
        message: "one\ntwo".into(),
        answer_with: AnswerWith::Choose,
        options: vec![AskOption::PermitOnce, AskOption::Deny],
        selected_option: 0,
    };
    assert_eq!(card_inner_height(&req), 8);
    let empty = TaskListState { items: Vec::new() };
    assert_eq!(task_list_height(&empty), 0);
    assert!(render_task_list(Area { x: 0, y: 0, width: 10, height: 0 }, &empty).is_empty());
}

#[test]
fn wide_characters_take_two_columns() {
    assert_eq!(wrapped_line_count("abcd", 4), 1);
    assert_eq!(wrapped_line_count("重构模块", 4), 2);
    assert_eq!(wrapped_line_count("", 4), 1);
}

#[test]
fn the_regions_fill_the_screen_from_the_top() {
    let mut s = session();
    s.begin_turn("a".into(), "first".into(), NOW);
    let frame = s.render(NOW);
    let area = Area { x: 0, y: 3, width: 60, height: 20 };
    let p = place(area, &frame);
    assert_eq!(p.rows.len(), 7);
    let mut y: u16 = 3;
    for (at, height) in &p.rows {
        assert_eq!(*at, y);
        y += height;
    }
    assert_eq!(y, 23);
    assert_eq!(p.rows[1].1, transcript_body_height(area, &frame));
    let usage = UsageText { token_in: "0".into(), token_out: "0".into() };
    assert!(!render(area, &frame, '|', &usage).is_empty());
}

#[test]
fn regions_stand_below_each_other_even_where_they_do_not_fit() {
    let mut s = session();
    s.begin_turn("a".into(), "first".into(), NOW);
    s.apply_question(question("q1"));
    let frame = s.render(NOW);
    for height in 0..24 {
        let area = Area { x: 0, y: 2, width: 30, height };
        let p = place(area, &frame);
        let mut y: u16 = 2;
        for (at, rows) in &p.rows {
            assert_eq!(*at, y);
            y += rows;
        }
        assert_eq!(y, 2 + height);
        let (mut y, inside) = p.rows[4];
        let end = y + inside;
        for (at, rows) in &p.composer {
            assert_eq!(*at, y);
            y += rows;
        }
        assert!(y <= end);
    }
}

#[test]
fn the_side_question_shares_the_screen() {
    let mut frame = session().render(NOW);
    frame.btw = Some(BtwState {
        question: "why?".into(),
        answer: String::new(),
        streaming: true,
        scroll: 99,
        earlier: Vec::new(),
        older: 0,
        viewing: 0,
    });
    let p = place(Area { x: 0, y: 0, width: 60, height: 21 }, &frame);
    assert_eq!(p.rows, [(0, 11), (11, 10)]);
}
