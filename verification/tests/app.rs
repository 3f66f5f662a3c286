//! The terminal's side: editing, scrolling, selecting, and what each key does.

use attacode::args::Args;
use attacode::bootstrap::Resume;
use attacode::dispatch::{
    active_choice, local_command, Flow, LocalCommand, Step,
};
use attacode::frame_state::{
    AnswerWith, AppInfoLineState, AppMode, AskOption, AskRequest, AskState, AskViewMode,
    BottomRuleState, BtwState, ComposerState, ContentState, EditorState, FooterHintsState,
    FrameState, HeaderSource, HeaderState, InputMode, LineKind, OperationStatusState,
    PickerCandidate, PickerKind, ScrollState, SeparatorColor, SessionUsageState, StatusLineState,
    SubAgentBarState, TaskListState, TopRuleState, TranscriptBodyState, TranscriptEntry,
    TranscriptState,
};
use attacode::handle::{BridgeCommand, BtwKey};
use attacode::keybindings::defaults::default_bindings;
use attacode::keybindings::resolver::{KeyPress, Resolver};
use attacode::local_ui::{foldable_blocks, LocalUi};
use attacode::merge::{merge, prompt_is_visible, user_prompts};
use attacode::picker::{
    accept_picker_candidate, compute_command_picker, move_picker_selection, picker_already_typed,
    session_picker_state,
};
use crossterm::event::{KeyCode as CtKeyCode, KeyEvent, KeyModifiers};
use std::sync::Mutex;

/// A key of the terminal library as the resolver takes it.
fn event(key: KeyEvent) -> attacode::keybindings::resolver::KeyEvent {
    let code = match key.code {
        CtKeyCode::Char(c) => KeyPress::Char(c),
        CtKeyCode::Enter => KeyPress::Enter,
        CtKeyCode::Esc => KeyPress::Esc,
        CtKeyCode::Tab => KeyPress::Tab,
        CtKeyCode::Backspace => KeyPress::Backspace,
        CtKeyCode::Delete => KeyPress::Delete,
        CtKeyCode::Up => KeyPress::Up,
        CtKeyCode::Down => KeyPress::Down,
        CtKeyCode::Left => KeyPress::Left,
        CtKeyCode::Right => KeyPress::Right,
        CtKeyCode::Home => KeyPress::Home,
        CtKeyCode::End => KeyPress::End,
        CtKeyCode::PageUp => KeyPress::PageUp,
        CtKeyCode::PageDown => KeyPress::PageDown,
        _ => KeyPress::Other,
    };
    attacode::keybindings::resolver::KeyEvent {
        code,
        control: key.modifiers.contains(KeyModifiers::CONTROL),
        alt: key.modifiers.contains(KeyModifiers::ALT),
        shift: key.modifiers.contains(KeyModifiers::SHIFT),
        super_key: key.modifiers.contains(KeyModifiers::SUPER),
        meta: key.modifiers.contains(KeyModifiers::META),
    }
}

fn dispatch_key(
    key: KeyEvent,
    resolver: &mut Resolver,
    local: &mut LocalUi,
    handle: &FakeHandle,
    snapshot: &FrameState,
) -> Flow {
    handle.take(attacode::dispatch::dispatch_key(event(key), resolver, local, snapshot))
}

fn dispatch_action(
    action: &str,
    local: &mut LocalUi,
    handle: &FakeHandle,
    snapshot: &FrameState,
) -> Flow {
    handle.take(attacode::dispatch::dispatch_action(action, local, snapshot))
}

fn dispatch_ask_action(
    action: &str,
    local: &mut LocalUi,
    handle: &FakeHandle,
    req: &AskRequest,
    pending: usize,
) -> Flow {
    handle.take(attacode::dispatch::dispatch_ask_action(action, local, req, pending))
}

fn dispatch_picker_action(action: &str, local: &mut LocalUi, handle: &FakeHandle) -> Flow {
    handle.take(attacode::dispatch::dispatch_picker_action(action, local))
}

fn submit(local: &mut LocalUi, handle: &FakeHandle, snapshot: &FrameState) -> Flow {
    handle.take(attacode::dispatch::submit(local, snapshot))
}

fn respond(handle: &FakeHandle, local: &mut LocalUi, req: &AskRequest, decision: AskOption) {
    handle.take(attacode::dispatch::respond(local, req, decision));
}

fn toggle_selected_block(local: &LocalUi, snapshot: &FrameState, handle: &FakeHandle) {
    handle.take(attacode::dispatch::toggle_selected_block(local, snapshot));
}

fn insert_char(key: KeyEvent, local: &mut LocalUi) {
    attacode::dispatch::insert_char(event(key), local)
}

fn parse_args(args: impl Iterator<Item = String>) -> Result<Option<Args>, String> {
    Args::parse(&args.collect())
}

fn local_with(draft: &str) -> LocalUi {
    let commands = vec![
        PickerCandidate {
            name: "/commit".into(),
            description: "Create a commit".into(),
        },
        PickerCandidate {
            name: "/compact".into(),
            description: "Compact context".into(),
        },
        PickerCandidate {
            name: "/help".into(),
            description: "Show help".into(),
        },
    ];
    let mut local = LocalUi::new(commands);
    local.draft = draft.to_string();
    local.cursor = local.draft.len();
    local
}

#[test]
fn no_popup_without_slash_prefix() {
    assert!(compute_command_picker(&local_with("hello")).is_none());
}

#[test]
fn no_popup_once_a_space_is_typed() {
    assert!(compute_command_picker(&local_with("/commit fix bug")).is_none());
}

#[test]
fn filters_by_prefix() {
    let popup = compute_command_picker(&local_with("/com")).unwrap();
    let names: Vec<_> = popup.candidates.iter().map(|c| c.name.as_str()).collect();
    assert_eq!(names, vec!["/commit", "/compact"]);
}

#[test]
fn no_popup_when_nothing_matches() {
    assert!(compute_command_picker(&local_with("/zzz")).is_none());
}

#[test]
fn selection_wraps_around_in_both_directions() {
    let mut local = local_with("/com");
    move_picker_selection(&mut local, 1);
    assert_eq!(local.picker_selected, 1);
    move_picker_selection(&mut local, 1);
    assert_eq!(local.picker_selected, 0);
    move_picker_selection(&mut local, -1);
    assert_eq!(local.picker_selected, 1);
}

#[test]
fn accept_fills_draft_with_selected_candidate_and_a_trailing_space() {
    let mut local = local_with("/com");
    move_picker_selection(&mut local, 1);
    accept_picker_candidate(&mut local);
    assert_eq!(local.draft, "/compact ");
    assert!(compute_command_picker(&local).is_none());
}

fn with_page(page: usize) -> LocalUi {
    let mut local = local_with("");
    local.viewport_lines = page;
    local
}

#[test]
fn scroll_up_from_the_bottom_lands_one_page_above_the_last_screen() {
    let mut local = with_page(10);
    local.scroll_up(100);
    assert_eq!(local.scroll_offset, Some(80));
    local.scroll_up(100);
    assert_eq!(local.scroll_offset, Some(70));
}

#[test]
fn scroll_up_stops_at_the_top() {
    let mut local = with_page(10);
    for _ in 0..10 {
        local.scroll_up(25);
    }
    assert_eq!(local.scroll_offset, Some(0));
}

#[test]
fn scroll_up_is_a_no_op_when_everything_fits() {
    let mut local = with_page(10);
    local.scroll_up(5);
    assert_eq!(local.scroll_offset, None);
}

#[test]
fn scrolling_back_down_resumes_following() {
    let mut local = with_page(10);
    local.scroll_up(100);
    local.scroll_up(100);
    assert_eq!(local.scroll_offset, Some(70));
    local.scroll_down(100);
    assert_eq!(local.scroll_offset, Some(80));
    local.scroll_down(100);
    assert_eq!(local.scroll_offset, None, "到底了就该重新跟随");
}

#[test]
fn scroll_down_while_following_does_nothing() {
    let mut local = with_page(10);
    local.scroll_down(100);
    assert_eq!(local.scroll_offset, None);
}

#[test]
fn keys_reach_their_handlers_through_the_real_resolver() {
    let handle = FakeHandle::new();
    let mut snapshot = frame_without_ask();
    snapshot.transcript.body.entries = (0..100)
        .map(|i| TranscriptEntry {
            continues_previous: false,
            kind: LineKind::AssistantText,
            text: format!("line{i}"),
            block_id: None,
        })
        .collect();

    let press = |local: &mut LocalUi, code, mods| {
        let mut resolver = Resolver::new(default_bindings());
        dispatch_key(
            KeyEvent::new(code, mods),
            &mut resolver,
            local,
            &handle,
            &snapshot,
        );
    };

    let mut local = with_page(10);
    press(&mut local, CtKeyCode::PageUp, KeyModifiers::NONE);
    assert_eq!(local.scroll_offset, Some(80), "PageUp 没接上");
    press(&mut local, CtKeyCode::PageDown, KeyModifiers::NONE);
    assert_eq!(local.scroll_offset, None, "PageDown 没接上");

    let mut local = with_page(10);
    local.draft = "git commit".into();
    local.cursor = local.draft.len();
    press(&mut local, CtKeyCode::Char('w'), KeyModifiers::CONTROL);
    assert_eq!(local.draft, "git ", "Ctrl+W 没接上");

    let mut local = with_page(10);
    press(&mut local, CtKeyCode::Char('l'), KeyModifiers::CONTROL);
    assert!(local.redraw_requested, "Ctrl+L 没接上");

    let mut local = with_page(10);
    press(&mut local, CtKeyCode::Char('c'), KeyModifiers::CONTROL);
    assert!(
        handle
            .0
            .lock()
            .unwrap()
            .iter()
            .any(|c| matches!(c, BridgeCommand::CancelTurn)),
        "Ctrl+C 没变成 CancelTurn"
    );

    let mut local = with_page(10);
    local.draft = "git commit".into();
    local.cursor = local.draft.len();
    press(&mut local, CtKeyCode::Left, KeyModifiers::NONE);
    assert_eq!(local.cursor, 9, "Left 没接上");
    press(&mut local, CtKeyCode::Right, KeyModifiers::NONE);
    assert_eq!(local.cursor, 10, "Right 没接上");
    press(&mut local, CtKeyCode::Home, KeyModifiers::NONE);
    assert_eq!(local.cursor, 0, "Home 没接上");
    press(&mut local, CtKeyCode::Delete, KeyModifiers::NONE);
    assert_eq!(local.draft, "it commit", "Delete 没接上");
    press(&mut local, CtKeyCode::End, KeyModifiers::NONE);
    assert_eq!(local.cursor, local.draft.len(), "End 没接上");
    press(&mut local, CtKeyCode::Left, KeyModifiers::ALT);
    assert_eq!(local.cursor, 3, "Alt+Left 没接上");

    let mut local = with_page(10);
    local.draft = "first\nsecond".into();
    local.cursor = local.draft.len();
    press(&mut local, CtKeyCode::Up, KeyModifiers::NONE);
    assert_eq!(local.cursor, 5, "Up 没走到上一行");
}

#[test]
fn merge_turns_off_auto_follow_only_while_scrolled() {
    let mut local = local_with("");
    let mut frame = frame_without_ask();
    frame.transcript.body.entries = (0..50)
        .map(|i| TranscriptEntry {
            continues_previous: false,
            kind: LineKind::AssistantText,
            text: format!("line{i}"),
            block_id: None,
        })
        .collect();

    assert!(merge(frame.clone(), &local).transcript.body.auto_follow);

    local.scroll_offset = Some(12);
    let merged = merge(frame, &local);
    assert!(!merged.transcript.body.auto_follow);
    assert_eq!(merged.transcript.body.scroll.offset, 12);
}

fn frame_with_blocks() -> FrameState {
    let mut frame = frame_without_ask();
    frame.transcript.body.entries = [("a", 1), ("b", 2), ("c", 1)]
        .iter()
        .flat_map(|(id, rows)| {
            (0..*rows).map(move |r| TranscriptEntry {
                continues_previous: false,
                kind: LineKind::ToolResultOk,
                text: format!("{id}{r}"),
                block_id: Some((*id).to_string()),
            })
        })
        .collect();
    frame
}

#[test]
fn foldable_blocks_are_deduped_and_ordered() {
    assert_eq!(foldable_blocks(&frame_with_blocks()), ["a", "b", "c"]);
}

#[test]
fn toggle_without_a_selection_targets_the_newest_block() {
    let local = local_with("");
    let handle = FakeHandle::new();
    toggle_selected_block(&local, &frame_with_blocks(), &handle);
    assert_eq!(handle.toggled(), ["c"]);
}

#[test]
fn selecting_backwards_lets_an_earlier_block_be_expanded() {
    let frame = frame_with_blocks();
    let mut local = local_with("");

    local.select_block(&frame, -1);
    assert_eq!(local.selected_block.as_deref(), Some("c"));
    local.select_block(&frame, -1);
    assert_eq!(local.selected_block.as_deref(), Some("b"));

    let handle = FakeHandle::new();
    toggle_selected_block(&local, &frame, &handle);
    assert_eq!(handle.toggled(), ["b"], "F5 应该打选中的块");
}

#[test]
fn selection_stops_at_the_oldest_block_and_clears_past_the_newest() {
    let frame = frame_with_blocks();
    let mut local = local_with("");

    for _ in 0..5 {
        local.select_block(&frame, -1);
    }
    assert_eq!(
        local.selected_block.as_deref(),
        Some("a"),
        "最早的块上再往前走应该停住"
    );

    for _ in 0..2 {
        local.select_block(&frame, 1);
    }
    assert_eq!(local.selected_block.as_deref(), Some("c"));
    local.select_block(&frame, 1);
    assert_eq!(
        local.selected_block, None,
        "越过最新的块应该回到「跟最新的」而不是钉在最后一个上"
    );
}

#[test]
fn merge_drops_a_selection_whose_block_is_gone() {
    let mut local = local_with("");
    local.selected_block = Some("gone".into());
    let merged = merge(frame_with_blocks(), &local);
    assert_eq!(merged.transcript.body.selected_block, None);

    local.selected_block = Some("b".into());
    let merged = merge(frame_with_blocks(), &local);
    assert_eq!(merged.transcript.body.selected_block.as_deref(), Some("b"));
}

#[test]
fn selecting_scrolls_the_block_into_view() {
    let mut frame = frame_without_ask();
    frame.transcript.body.entries = (0..50)
        .map(|i| TranscriptEntry {
            continues_previous: false,
            kind: LineKind::ToolResultOk,
            text: format!("row{i}"),
            block_id: Some(format!("b{i}")),
        })
        .collect();
    let mut local = local_with("");
    local.viewport_lines = 10;

    local.selected_block = Some("b3".into());
    local.reveal_selection(&frame);
    assert_eq!(local.scroll_offset, Some(3));

    local.selected_block = Some("b48".into());
    local.reveal_selection(&frame);
    assert_eq!(local.scroll_offset, None, "最后一屏里的块应该回到跟随");
}

#[test]
fn model_command_parses_with_and_without_an_argument() {
    assert!(matches!(
        local_command("/model example-opus5"),
        Some(LocalCommand::Model(Some(n))) if n == "example-opus5"
    ));
    assert!(matches!(
        local_command("/model"),
        Some(LocalCommand::Model(None))
    ));
    assert!(matches!(
        local_command("/model   "),
        Some(LocalCommand::Model(None))
    ));
    assert!(matches!(local_command("/quit"), Some(LocalCommand::Quit)));
    assert!(local_command("/models").is_none());
    assert!(local_command("/compact").is_none());
}

#[test]
fn submitting_model_with_a_name_switches_the_model() {
    let mut local = local_with("/model example-opus5");
    let handle = FakeHandle::new();
    assert_eq!(
        submit(&mut local, &handle, &frame_without_ask()),
        Flow::Continue
    );
    assert!(matches!(
        handle.commands().as_slice(),
        [BridgeCommand::SetModel { name }] if name == "example-opus5"
    ));
}

#[test]
fn submitting_bare_model_reports_the_current_one() {
    let mut local = local_with("/model");
    let handle = FakeHandle::new();
    let mut frame = frame_without_ask();
    frame.footer_hints.model = "example-sonnet5".into();
    assert_eq!(submit(&mut local, &handle, &frame), Flow::Continue);
    assert!(matches!(
        handle.commands().as_slice(),
        [BridgeCommand::Note { text }] if text.contains("example-sonnet5")
    ));
}

#[test]
fn enter_submits_when_the_command_is_already_fully_typed() {
    let mut local = local_with("/model");
    assert!(compute_command_picker(&local).is_some(), "弹窗应该开着");
    assert!(picker_already_typed(&local));

    let handle = FakeHandle::new();
    dispatch_action("editor.submit", &mut local, &handle, &frame_without_ask());
    assert!(
        matches!(handle.commands().as_slice(), [BridgeCommand::Note { .. }]),
        "应该提交（/model 无参 → 报当前模型），而不是补全；实际: {:?}",
        handle.commands()
    );
    assert_eq!(local.draft, "", "提交后草稿清空");
}

#[test]
fn enter_still_completes_a_partially_typed_command() {
    let mut local = local_with("/mod");
    assert!(!picker_already_typed(&local));

    let handle = FakeHandle::new();
    dispatch_action("editor.submit", &mut local, &handle, &frame_without_ask());
    assert_eq!(local.draft, "/model ");
    assert!(handle.commands().is_empty(), "补全不该发命令给 bridge");
}

#[test]
fn local_commands_show_up_in_the_picker() {
    let popup = compute_command_picker(&local_with("/mod")).expect("应该有候选");
    assert!(popup.candidates.iter().any(|c| c.name == "/model"));
}

#[test]
fn model_flag_is_accepted_in_both_spellings() {
    let parse = |args: &[&str]| {
        parse_args(args.iter().map(|s| s.to_string()))
            .unwrap()
            .unwrap()
            .model
    };
    assert_eq!(parse(&["--model", "x"]).as_deref(), Some("x"));
    assert_eq!(parse(&["-m", "x"]).as_deref(), Some("x"));
    assert_eq!(parse(&["--model=x"]).as_deref(), Some("x"));
    assert_eq!(parse(&[]), None);
}

#[test]
fn resume_flags_map_to_the_right_target() {
    let parse = |args: &[&str]| {
        parse_args(args.iter().map(|s| s.to_string()))
            .unwrap()
            .unwrap()
            .resume
    };
    assert!(matches!(parse(&["-c"]), Some(Resume::Latest)));
    assert!(matches!(parse(&["--continue"]), Some(Resume::Latest)));
    assert!(matches!(parse(&["--resume", "abc"]), Some(Resume::Id(id)) if id == "abc"));
    assert!(matches!(parse(&["--resume=abc"]), Some(Resume::Id(id)) if id == "abc"));
    assert!(parse(&[]).is_none());
    assert!(parse_args(["--resume".to_string()].into_iter()).is_err());
}

#[test]
fn help_short_circuits_and_unknown_args_are_errors() {
    assert!(parse_args(["--help".to_string()].into_iter())
        .unwrap()
        .is_none());
    assert!(parse_args(["--modle".to_string()].into_iter()).is_err());
    assert!(parse_args(["--model".to_string()].into_iter()).is_err());
}

#[test]
fn submitting_snaps_back_to_the_bottom() {
    let mut local = local_with("hello");
    local.scroll_offset = Some(30);
    let handle = FakeHandle::new();
    submit(&mut local, &handle, &frame_without_ask());
    assert_eq!(local.scroll_offset, None);
}

fn editing(draft_with_caret: &str) -> LocalUi {
    let cursor = draft_with_caret.find('|').expect("需要用 | 标出光标");
    let mut local = local_with("");
    local.draft = draft_with_caret.replace('|', "");
    local.cursor = cursor;
    local
}

fn caret(local: &LocalUi) -> String {
    let mut s = local.draft.clone();
    s.insert(local.cursor, '|');
    s
}

#[test]
fn typing_and_deleting_happen_at_the_cursor_not_at_the_end() {
    let mut local = editing("git |commit");
    local.insert('x');
    assert_eq!(caret(&local), "git x|commit");
    local.delete_backward();
    assert_eq!(caret(&local), "git |commit");
    local.delete_forward();
    assert_eq!(caret(&local), "git |ommit");
}

#[test]
fn cursor_moves_by_whole_characters_across_multibyte_text() {
    let mut local = editing("重构模块|");
    local.move_char(-1);
    assert_eq!(caret(&local), "重构模|块");
    local.move_char(-1);
    assert_eq!(caret(&local), "重构|模块");
    local.move_char(1);
    assert_eq!(caret(&local), "重构模|块");
    for _ in 0..10 {
        local.move_char(-1);
    }
    assert_eq!(caret(&local), "|重构模块");
    local.delete_backward();
    assert_eq!(caret(&local), "|重构模块", "行首退格是空操作");
}

#[test]
fn word_motion_and_word_delete_work_from_the_cursor() {
    let mut local = editing("git commit -m|");
    local.move_word(-1);
    assert_eq!(caret(&local), "git commit |-m");
    local.move_word(-1);
    assert_eq!(caret(&local), "git |commit -m");
    local.move_word(1);
    assert_eq!(caret(&local), "git commit| -m");

    let mut local = editing("git commit |-m");
    local.delete_word_before();
    assert_eq!(caret(&local), "git |-m", "只删光标前那个词，后面的不动");
}

#[test]
fn delete_word_before_takes_trailing_whitespace_and_multibyte_words() {
    let mut local = editing("重构 这个模块   |");
    local.delete_word_before();
    assert_eq!(caret(&local), "重构 |");
    local.delete_word_before();
    assert_eq!(caret(&local), "|");
    local.delete_word_before();
    assert_eq!(caret(&local), "|", "空草稿上再删一次不该 panic");
}

#[test]
fn kill_to_end_stops_at_the_line_break_then_joins_lines() {
    let mut local = editing("first |line\nsecond");
    local.kill_to_line_end();
    assert_eq!(caret(&local), "first |\nsecond", "不该越过换行");
    local.kill_to_line_end();
    assert_eq!(caret(&local), "first |second", "已经在行尾时把下一行接上来");
}

#[test]
fn home_and_end_are_line_wise_not_draft_wise() {
    let mut local = editing("first\nse|cond\nthird");
    local.cursor = local.line_start();
    assert_eq!(caret(&local), "first\n|second\nthird");
    local.cursor = local.line_end();
    assert_eq!(caret(&local), "first\nsecond|\nthird");
}

#[test]
fn vertical_motion_keeps_the_column_and_clamps_on_short_lines() {
    let mut local = editing("longest line\nab\nanother line|");
    local.move_line(-1);
    assert_eq!(
        caret(&local),
        "longest line\nab|\nanother line",
        "短行夹到行尾"
    );
    local.move_line(-1);
    assert_eq!(
        caret(&local),
        "lo|ngest line\nab\nanother line",
        "回到原来的列"
    );
    local.move_line(-1);
    assert_eq!(
        caret(&local),
        "lo|ngest line\nab\nanother line",
        "首行再往上不动"
    );
}

fn submitted(local: &mut LocalUi, handle: &FakeHandle, text: &str) {
    local.draft = text.into();
    local.cursor = local.draft.len();
    submit(local, handle, &frame_without_ask());
}

#[test]
fn up_walks_back_through_submitted_prompts_and_down_returns() {
    let mut local = local_with("");
    let handle = FakeHandle::new();
    submitted(&mut local, &handle, "第一句");
    submitted(&mut local, &handle, "第二句");

    local.up();
    assert_eq!(local.draft, "第二句", "先翻到最近一条");
    local.up();
    assert_eq!(local.draft, "第一句");
    local.up();
    assert_eq!(local.draft, "第一句", "翻到头就停住");
    local.down();
    assert_eq!(local.draft, "第二句");
    local.down();
    assert_eq!(local.draft, "", "翻过最新一条回到草稿");
    assert_eq!(local.cursor, 0);
}

#[test]
fn a_half_typed_draft_survives_a_trip_through_history() {
    let mut local = local_with("");
    let handle = FakeHandle::new();
    submitted(&mut local, &handle, "旧的");

    local.draft = "打了一半".into();
    local.cursor = local.draft.len();
    local.up();
    assert_eq!(local.draft, "旧的");
    local.down();
    assert_eq!(local.draft, "打了一半", "草稿要原样还回来");
    assert_eq!(local.cursor, local.draft.len());
}

#[test]
fn consecutive_duplicates_are_recorded_once() {
    let mut local = local_with("");
    let handle = FakeHandle::new();
    submitted(&mut local, &handle, "同一句");
    submitted(&mut local, &handle, "同一句");
    assert_eq!(local.history, vec!["同一句"], "连按两次不该占两条");
}

#[test]
fn vertical_motion_takes_priority_until_the_edge_of_a_multiline_draft() {
    let mut local = local_with("");
    let handle = FakeHandle::new();
    submitted(&mut local, &handle, "历史里的");

    local.draft = "first\nsecond".into();
    local.cursor = local.draft.len();
    local.up();
    assert_eq!(local.draft, "first\nsecond", "还在草稿里，只是光标上移");
    assert_eq!(local.cursor, 5);
    local.up();
    assert_eq!(local.draft, "历史里的", "已经在首行，这次才翻历史");
}

#[test]
fn the_sticky_header_hides_while_its_prompt_is_still_on_screen() {
    let mut local = local_with("");
    local.viewport_lines = 3;
    let mut frame = frame_without_ask();
    frame.transcript.header = HeaderState {
        text: Some("问题".into()),
        source: HeaderSource::UserPrompt,
    };
    frame.transcript.body.entries = vec![
        TranscriptEntry {
            continues_previous: false,
            kind: LineKind::UserPrompt,
            text: "问题".into(),
            block_id: None,
        },
        TranscriptEntry {
            continues_previous: false,
            kind: LineKind::AssistantText,
            text: "答案".into(),
            block_id: None,
        },
    ];

    assert_eq!(
        merge(frame.clone(), &local).transcript.header.text,
        None,
        "prompt 就在屏幕上，不该再钉一份"
    );

    for i in 0..10 {
        frame.transcript.body.entries.push(TranscriptEntry {
            continues_previous: false,
            kind: LineKind::AssistantText,
            text: format!("续{i}"),
            block_id: None,
        });
    }
    assert_eq!(
        merge(frame, &local).transcript.header.text.as_deref(),
        Some("问题")
    );
}

#[test]
fn header_visibility_is_exact_at_the_viewport_edge() {
    let mut local = local_with("");
    local.viewport_lines = 3;
    let entry = |kind, text: &str| TranscriptEntry {
        continues_previous: false,
        kind,
        text: text.into(),
        block_id: None,
    };
    let mut frame = frame_without_ask();
    frame.transcript.body.entries = vec![
        entry(LineKind::UserPrompt, "问题"),
        entry(LineKind::AssistantText, "答1"),
        entry(LineKind::AssistantText, "答2"),
    ];
    assert!(prompt_is_visible(&frame, &local), "视口最上面一行仍算可见");

    frame
        .transcript
        .body
        .entries
        .push(entry(LineKind::AssistantText, "答3"));
    assert!(!prompt_is_visible(&frame, &local), "被顶出去了就该钉");
}

#[test]
fn header_visibility_follows_the_scroll_offset() {
    let mut local = local_with("");
    local.viewport_lines = 2;
    let mut frame = frame_without_ask();
    frame.transcript.body.entries = (0..10)
        .map(|i| TranscriptEntry {
            continues_previous: false,
            kind: if i == 4 {
                LineKind::UserPrompt
            } else {
                LineKind::AssistantText
            },
            text: format!("行{i}"),
            block_id: None,
        })
        .collect();

    local.scroll_offset = Some(4);
    assert!(prompt_is_visible(&frame, &local));
    local.scroll_offset = Some(6);
    assert!(!prompt_is_visible(&frame, &local));
    local.scroll_offset = Some(0);
    assert!(!prompt_is_visible(&frame, &local));
}

#[test]
fn history_is_seeded_from_a_restored_transcript() {
    let mut frame = frame_without_ask();
    frame.transcript.body.entries = vec![
        TranscriptEntry {
            continues_previous: false,
            kind: LineKind::UserPrompt,
            text: "上次问的".into(),
            block_id: None,
        },
        TranscriptEntry {
            continues_previous: false,
            kind: LineKind::AssistantText,
            text: "上次答的".into(),
            block_id: None,
        },
    ];
    assert_eq!(user_prompts(&frame), vec!["上次问的"]);
}

#[test]
fn tab_switches_between_pending_asks() {
    let mut local = local_with("");
    let handle = FakeHandle::new();
    let two = |a: usize| AskState {
        pending: vec![
            AskRequest {
                answer_with: AnswerWith::Choose,
                prompt_id: "p1".into(),
                tool_name: "Bash".into(),
                message: "第一个".into(),
                options: vec![AskOption::PermitOnce, AskOption::Deny],
                selected_option: 0,
            },
            AskRequest {
                answer_with: AnswerWith::Choose,
                prompt_id: "p2".into(),
                tool_name: "Write".into(),
                message: "第二个".into(),
                options: vec![AskOption::PermitOnce, AskOption::Deny],
                selected_option: 0,
            },
        ],
        active_idx: a,
        view_mode: AskViewMode::TabView,
    };

    local.ask_selected = 1;
    dispatch_ask_action(
        "ask.next-request",
        &mut local,
        &handle,
        &two(0).pending[0],
        2,
    );
    assert_eq!(local.ask_active, 1);
    assert_eq!(local.ask_selected, 0, "切 tab 之后选项高亮要复位");

    let mut frame = frame_without_ask();
    frame.composer.content.ask = Some(two(0));
    let merged = merge(frame, &local);
    let ask = merged.composer.content.ask.unwrap();
    assert_eq!(ask.active_idx, 1, "快照要跟着切");
    assert_eq!(ask.pending[1].prompt_id, "p2");

    dispatch_ask_action(
        "ask.next-request",
        &mut local,
        &handle,
        &two(1).pending[1],
        2,
    );
    assert_eq!(local.ask_active, 0);
}

#[test]
fn merge_clamps_the_active_ask_after_one_is_answered() {
    let mut local = local_with("");
    local.ask_active = 1;
    let mut frame = frame_without_ask();
    frame.composer.content.ask = Some(AskState {
        pending: vec![AskRequest {
            answer_with: AnswerWith::Choose,
            prompt_id: "p2".into(),
            tool_name: "Write".into(),
            message: "只剩一个了".into(),
            options: vec![AskOption::Deny],
            selected_option: 0,
        }],
        active_idx: 1,
        view_mode: AskViewMode::TabView,
    });
    let merged = merge(frame, &local);
    assert_eq!(merged.composer.content.ask.unwrap().active_idx, 0);
}

struct Lcg(u64);
impl Lcg {
    fn next(&mut self, n: usize) -> usize {
        self.0 = self.0.wrapping_mul(6364136223846793005).wrapping_add(1);
        (self.0 >> 33) as usize % n
    }
}

#[test]
fn any_sequence_of_edits_keeps_the_cursor_on_a_char_boundary() {
    let charset = ['a', '重', '\n', ' ', '构', 'Z', '，'];
    for seed in [1u64, 42, 9999] {
        let mut rng = Lcg(seed);
        let mut local = local_with("");
        for step in 0..2000 {
            match rng.next(11) {
                0 => local.insert(charset[rng.next(charset.len())]),
                1 => local.delete_backward(),
                2 => local.delete_forward(),
                3 => local.move_char(-1),
                4 => local.move_char(1),
                5 => local.move_word(-1),
                6 => local.move_word(1),
                7 => local.cursor = local.line_start(),
                8 => local.cursor = local.line_end(),
                9 => local.delete_word_before(),
                _ => local.kill_to_line_end(),
            }
            assert!(
                local.draft.is_char_boundary(local.cursor),
                "seed {seed} 第 {step} 步之后 cursor={} 落在了字符中间: {:?}",
                local.cursor,
                local.draft
            );
            assert!(
                local.cursor <= local.draft.len(),
                "seed {seed} 第 {step} 步之后 cursor 越界"
            );
        }
    }
}

#[test]
fn vertical_motion_also_keeps_the_cursor_on_a_char_boundary() {
    let mut rng = Lcg(7);
    let mut local = local_with("");
    local.draft = "abc\n重构模块\nx\n，，，\nlonger line here".into();
    local.cursor = 0;
    for step in 0..500 {
        match rng.next(4) {
            0 => local.move_line(-1),
            1 => local.move_line(1),
            2 => local.move_char(1),
            _ => local.move_char(-1),
        }
        assert!(
            local.draft.is_char_boundary(local.cursor),
            "第 {step} 步之后 cursor={} 落在了字符中间",
            local.cursor
        );
    }
}

#[test]
fn submitting_from_mid_draft_sends_the_whole_draft() {
    let mut local = editing("hello |world");
    let handle = FakeHandle::new();
    assert_eq!(
        submit(&mut local, &handle, &frame_without_ask()),
        Flow::Continue
    );
    assert!(matches!(
        handle.commands().as_slice(),
        [BridgeCommand::Submit { text }] if text == "hello world"
    ));
    assert_eq!(local.cursor, 0);
}

struct FakeHandle(Mutex<Vec<BridgeCommand>>);

impl FakeHandle {
    fn new() -> Self {
        FakeHandle(Mutex::new(Vec::new()))
    }

    fn take(&self, step: Step) -> Flow {
        if let Some(command) = step.command {
            self.0.lock().unwrap().push(command);
        }
        step.flow
    }

    fn commands(&self) -> Vec<BridgeCommand> {
        self.0.lock().unwrap().clone()
    }

    fn toggled(&self) -> Vec<String> {
        self.commands()
            .iter()
            .filter_map(|c| match c {
                BridgeCommand::ToggleExpand { block_id } => Some(block_id.clone()),
                _ => None,
            })
            .collect()
    }

    fn decisions(&self) -> Vec<AskOption> {
        self.commands()
            .iter()
            .filter_map(|c| match c {
                BridgeCommand::Respond { decision, .. } => Some(decision.clone()),
                _ => None,
            })
            .collect()
    }
}

fn ask_request() -> AskRequest {
    AskRequest {
        answer_with: AnswerWith::Choose,
        prompt_id: "p1".into(),
        tool_name: "Bash".into(),
        message: "run rm -rf /?".into(),
        options: vec![
            AskOption::PermitOnce,
            AskOption::PermitSession,
            AskOption::PermitProject,
            AskOption::Deny,
        ],
        selected_option: 0,
    }
}

#[test]
fn confirm_sends_the_highlighted_option() {
    let mut local = local_with("");
    let handle = FakeHandle::new();
    let req = ask_request();

    dispatch_ask_action("editor.history.next", &mut local, &handle, &req, 1);
    dispatch_ask_action("editor.history.next", &mut local, &handle, &req, 1);
    dispatch_ask_action("editor.submit", &mut local, &handle, &req, 1);

    assert_eq!(handle.decisions(), vec![AskOption::PermitProject]);
    assert_eq!(local.ask_selected, 0, "下一个请求应该从头开始");
}

#[test]
fn ask_selection_wraps_and_quick_keys_still_work() {
    let mut local = local_with("");
    let handle = FakeHandle::new();
    let req = ask_request();

    dispatch_ask_action("ask.prev", &mut local, &handle, &req, 1);
    assert_eq!(local.ask_selected, 3, "从第一项往上应该绕到最后一项");

    dispatch_ask_action("ask.yes-shortcut", &mut local, &handle, &req, 1);
    dispatch_ask_action("ask.no-shortcut", &mut local, &handle, &req, 1);
    assert_eq!(
        handle.decisions(),
        vec![AskOption::PermitOnce, AskOption::Deny]
    );
}

#[test]
fn escape_denies_rather_than_leaving_the_tool_call_hanging() {
    let mut local = local_with("");
    let handle = FakeHandle::new();
    dispatch_ask_action("repl.dismiss", &mut local, &handle, &ask_request(), 1);
    assert_eq!(handle.decisions(), vec![AskOption::Deny]);
}

#[test]
fn y_and_n_are_plain_text_when_no_dialog_is_open() {
    let mut local = local_with("");
    let handle = FakeHandle::new();
    let mut resolver = Resolver::new(default_bindings());
    let snapshot = frame_without_ask();

    for c in "yn".chars() {
        dispatch_key(
            KeyEvent::new(CtKeyCode::Char(c), KeyModifiers::NONE),
            &mut resolver,
            &mut local,
            &handle,
            &snapshot,
        );
    }
    assert_eq!(local.draft, "yn");
    assert!(handle.decisions().is_empty());
}

#[test]
fn enter_does_not_submit_the_draft_while_a_dialog_is_open() {
    let mut local = local_with("hello");
    let handle = FakeHandle::new();
    let mut resolver = Resolver::new(default_bindings());
    let mut snapshot = frame_without_ask();
    snapshot.composer.content.ask = Some(AskState {
        pending: vec![ask_request()],
        active_idx: 0,
        view_mode: AskViewMode::TabView,
    });

    dispatch_key(
        KeyEvent::new(CtKeyCode::Enter, KeyModifiers::NONE),
        &mut resolver,
        &mut local,
        &handle,
        &snapshot,
    );

    assert_eq!(local.draft, "hello", "草稿不该被消费");
    let cmds = handle.0.lock().unwrap();
    assert!(
        !cmds
            .iter()
            .any(|c| matches!(c, BridgeCommand::Submit { .. })),
        "Enter 应该确认对话框，而不是提交草稿"
    );
}

fn question_request(answer_with: AnswerWith, options: Vec<AskOption>) -> AskRequest {
    AskRequest {
        answer_with,
        prompt_id: "t1".into(),
        tool_name: "Branch name".into(),
        message: "叫什么好？".into(),
        options,
        selected_option: 0,
    }
}

fn frame_with(req: AskRequest) -> FrameState {
    let mut snapshot = frame_without_ask();
    snapshot.composer.content.ask = Some(AskState {
        pending: vec![req],
        active_idx: 0,
        view_mode: AskViewMode::TabView,
    });
    snapshot
}

#[test]
fn confirming_a_model_question_sends_the_models_own_key() {
    let mut local = local_with("");
    let handle = FakeHandle::new();
    let req = question_request(
        AnswerWith::Choose,
        vec![
            AskOption::Answer {
                key: "a".into(),
                label: "feat/x".into(),
            },
            AskOption::Answer {
                key: "b".into(),
                label: "fix/y".into(),
            },
        ],
    );

    dispatch_ask_action("editor.history.next", &mut local, &handle, &req, 1);
    dispatch_ask_action("editor.submit", &mut local, &handle, &req, 1);

    assert_eq!(
        handle.decisions(),
        vec![AskOption::Answer {
            key: "b".into(),
            label: "fix/y".into()
        }]
    );
}

#[test]
fn permission_shortcuts_do_nothing_on_a_model_question() {
    let mut local = local_with("");
    let handle = FakeHandle::new();
    let req = question_request(
        AnswerWith::Choose,
        vec![AskOption::Answer {
            key: "a".into(),
            label: "A".into(),
        }],
    );

    for action in ["ask.yes-shortcut", "ask.no-shortcut", "repl.dismiss"] {
        dispatch_ask_action(action, &mut local, &handle, &req, 1);
    }
    assert!(handle.decisions().is_empty());
}

#[test]
fn a_typed_question_takes_the_next_submitted_line_as_its_answer() {
    let mut local = local_with("");
    let handle = FakeHandle::new();
    let mut resolver = Resolver::new(default_bindings());
    let snapshot = frame_with(question_request(AnswerWith::Type, Vec::new()));

    for c in "feat/ask".chars() {
        dispatch_key(
            KeyEvent::new(CtKeyCode::Char(c), KeyModifiers::NONE),
            &mut resolver,
            &mut local,
            &handle,
            &snapshot,
        );
    }
    assert_eq!(local.draft, "feat/ask", "自由文本题期间打字要进草稿");

    dispatch_key(
        KeyEvent::new(CtKeyCode::Enter, KeyModifiers::NONE),
        &mut resolver,
        &mut local,
        &handle,
        &snapshot,
    );

    let cmds = handle.commands();
    assert!(
        matches!(&cmds[..], [BridgeCommand::AnswerQuestion { prompt_id, text }]
                 if prompt_id == "t1" && text == "feat/ask"),
        "got: {cmds:?}"
    );
}

#[test]
fn an_answer_that_looks_like_a_command_is_still_an_answer() {
    let mut local = local_with("/model 这个名字");
    let handle = FakeHandle::new();
    let snapshot = frame_with(question_request(AnswerWith::Type, Vec::new()));

    submit(&mut local, &handle, &snapshot);

    let cmds = handle.commands();
    assert!(
        matches!(&cmds[..], [BridgeCommand::AnswerQuestion { text, .. }]
                 if text == "/model 这个名字"),
        "got: {cmds:?}"
    );
}

fn frame_with_entries(entries: Vec<(LineKind, &str, bool)>) -> FrameState {
    let mut f = frame_without_ask();
    f.transcript.body.entries = entries
        .into_iter()
        .map(|(kind, text, continues_previous)| TranscriptEntry {
            continues_previous,
            kind,
            text: text.into(),
            block_id: None,
        })
        .collect();
    f.transcript.body.scroll.total_lines = f.transcript.body.entries.len();
    f
}

#[test]
fn a_multi_line_prompt_comes_back_from_the_transcript_as_one_history_item() {
    let frame = frame_with_entries(vec![
        (LineKind::UserPrompt, "第一次提问", false),
        (LineKind::AssistantText, "答", false),
        (LineKind::UserPrompt, "git commit -m 修一下", false),
        (LineKind::UserPrompt, "", true),
        (LineKind::UserPrompt, "顺便把注释也改了", true),
        (LineKind::AssistantText, "好", false),
    ]);

    assert_eq!(
        user_prompts(&frame),
        vec![
            "第一次提问".to_string(),
            "git commit -m 修一下\n\n顺便把注释也改了".to_string(),
        ]
    );
}

#[test]
fn two_adjacent_submissions_are_not_glued_into_one() {
    let frame = frame_with_entries(vec![
        (LineKind::UserPrompt, "先问的那句", false),
        (LineKind::UserPrompt, "打断之后重新问的", false),
    ]);

    assert_eq!(
        user_prompts(&frame),
        vec!["先问的那句".to_string(), "打断之后重新问的".to_string()]
    );
}

#[test]
fn a_partly_scrolled_multi_line_prompt_still_needs_its_header() {
    let mut entries = vec![(LineKind::AssistantText, "早先的内容", false); 10];
    entries.extend([
        (LineKind::UserPrompt, "第一行——header 钉的就是这句", false),
        (LineKind::UserPrompt, "第二行", true),
        (LineKind::UserPrompt, "第三行", true),
    ]);
    entries.extend([(LineKind::AssistantText, "回答", false); 4]);
    let frame = frame_with_entries(entries);

    let mut local = local_with("");
    local.viewport_lines = 5;
    assert!(
        !prompt_is_visible(&frame, &local),
        "第一行在视口外，header 必须留着"
    );

    local.viewport_lines = 20;
    assert!(prompt_is_visible(&frame, &local));
}

#[test]
fn the_local_cursor_follows_a_shrinking_queue() {
    let mut local = local_with("");
    local.ask_active = 2;

    let mut frame = frame_without_ask();
    frame.composer.content.ask = Some(AskState {
        pending: vec![ask_request(), ask_request()],
        active_idx: 0,
        view_mode: AskViewMode::TabView,
    });
    local.reconcile(&frame);
    assert_eq!(local.ask_active, 1, "越界的光标要夹回来");

    local.reconcile(&frame_without_ask());
    assert_eq!(local.ask_active, 0, "队列空了就归零");
}

#[test]
fn a_shrinking_queue_never_leaves_confirm_pointing_at_nothing() {
    let two_options = question_request(
        AnswerWith::Choose,
        vec![
            AskOption::Answer {
                key: "a".into(),
                label: "A".into(),
            },
            AskOption::Answer {
                key: "b".into(),
                label: "B".into(),
            },
        ],
    );
    let mut frame = frame_without_ask();
    frame.composer.content.ask = Some(AskState {
        pending: vec![two_options.clone()],
        active_idx: 0,
        view_mode: AskViewMode::TabView,
    });

    let mut local = local_with("");
    local.ask_active = 1;
    local.ask_selected = 3;
    local.reconcile(&frame);
    assert_eq!(local.ask_selected, 0, "越界的选项下标要归零");

    let handle = FakeHandle::new();
    dispatch_ask_action("editor.submit", &mut local, &handle, &two_options, 1);
    assert_eq!(
        handle.decisions(),
        vec![AskOption::Answer {
            key: "a".into(),
            label: "A".into()
        }]
    );
}

#[test]
fn an_in_range_selection_survives_reconcile() {
    let mut frame = frame_without_ask();
    frame.composer.content.ask = Some(AskState {
        pending: vec![ask_request()],
        active_idx: 0,
        view_mode: AskViewMode::TabView,
    });
    let mut local = local_with("");
    local.ask_selected = 2;
    local.reconcile(&frame);
    assert_eq!(local.ask_selected, 2);
}

#[test]
fn answering_puts_the_cursor_back_at_the_head_of_the_queue() {
    let mut local = local_with("");
    local.ask_active = 1;
    local.ask_selected = 2;
    let handle = FakeHandle::new();

    respond(&handle, &mut local, &ask_request(), AskOption::PermitOnce);

    assert_eq!(local.ask_active, 0);
    assert_eq!(local.ask_selected, 0);
}

fn frame_with_btw() -> FrameState {
    let mut f = frame_without_ask();
    f.btw = Some(BtwState {
        question: "那个配置文件叫什么".into(),
        answer: "叫 settings.json".into(),
        streaming: false,
        scroll: 0,
        earlier: vec!["第一问".into()],
        older: 0,
        viewing: 0,
    });
    f
}

#[test]
fn btw_is_a_local_command_carrying_the_question() {
    let handle = FakeHandle::new();
    let mut local = local_with("/btw 那个配置文件叫什么");
    submit(&mut local, &handle, &frame_without_ask());
    assert!(
        matches!(&handle.commands()[..], [BridgeCommand::Btw { question }]
                 if question == "那个配置文件叫什么"),
        "got: {:?}",
        handle.commands()
    );
}

#[test]
fn the_side_question_panel_takes_the_whole_keyboard() {
    let mut local = local_with("原有草稿");
    let handle = FakeHandle::new();
    let mut resolver = Resolver::new(default_bindings());
    let snapshot = frame_with_btw();

    for c in "hello".chars() {
        dispatch_key(
            KeyEvent::new(CtKeyCode::Char(c), KeyModifiers::NONE),
            &mut resolver,
            &mut local,
            &handle,
            &snapshot,
        );
    }
    assert_eq!(local.draft, "原有草稿", "草稿一个字都不该动");

    dispatch_key(
        KeyEvent::new(CtKeyCode::Enter, KeyModifiers::NONE),
        &mut resolver,
        &mut local,
        &handle,
        &snapshot,
    );
    assert!(
        handle
            .commands()
            .iter()
            .any(|c| matches!(c, BridgeCommand::BtwKey(BtwKey::Close))),
        "got: {:?}",
        handle.commands()
    );
    assert!(
        !handle
            .commands()
            .iter()
            .any(|c| matches!(c, BridgeCommand::Submit { .. })),
        "回车在侧问区里绝不能把草稿提交出去"
    );
}

#[test]
fn arrows_scroll_and_step_through_earlier_answers() {
    let handle = FakeHandle::new();
    for (key, expected) in [
        (CtKeyCode::Up, BtwKey::Scroll(-1)),
        (CtKeyCode::Down, BtwKey::Scroll(1)),
        (CtKeyCode::Left, BtwKey::Older),
        (CtKeyCode::Right, BtwKey::Newer),
    ] {
        let mut local = local_with("");
        let mut resolver = Resolver::new(default_bindings());
        dispatch_key(
            KeyEvent::new(key, KeyModifiers::NONE),
            &mut resolver,
            &mut local,
            &handle,
            &frame_with_btw(),
        );
        assert!(
            handle
                .commands()
                .iter()
                .any(|c| matches!(c, BridgeCommand::BtwKey(k) if *k == expected)),
            "{key:?} 该发 {expected:?}，实际: {:?}",
            handle.commands()
        );
    }
}

#[test]
fn x_is_plain_text_when_the_side_question_panel_is_closed() {
    let mut local = local_with("");
    let handle = FakeHandle::new();
    let mut resolver = Resolver::new(default_bindings());

    for c in "box".chars() {
        dispatch_key(
            KeyEvent::new(CtKeyCode::Char(c), KeyModifiers::NONE),
            &mut resolver,
            &mut local,
            &handle,
            &frame_without_ask(),
        );
    }
    assert_eq!(local.draft, "box");
    assert!(handle.commands().is_empty());
}

#[test]
fn x_clears_the_earlier_exchanges_inside_the_panel() {
    let mut local = local_with("");
    let handle = FakeHandle::new();
    let mut resolver = Resolver::new(default_bindings());
    dispatch_key(
        KeyEvent::new(CtKeyCode::Char('x'), KeyModifiers::NONE),
        &mut resolver,
        &mut local,
        &handle,
        &frame_with_btw(),
    );
    assert!(handle
        .commands()
        .iter()
        .any(|c| matches!(c, BridgeCommand::BtwKey(BtwKey::ClearEarlier))));
    assert_eq!(local.draft, "", "在侧问区里它是快捷键，不是输入");
}

#[test]
fn ctrl_c_still_interrupts_the_turn_from_inside_the_panel() {
    let mut local = local_with("");
    let handle = FakeHandle::new();
    let mut resolver = Resolver::new(default_bindings());
    dispatch_key(
        KeyEvent::new(CtKeyCode::Char('c'), KeyModifiers::CONTROL),
        &mut resolver,
        &mut local,
        &handle,
        &frame_with_btw(),
    );
    assert!(handle
        .commands()
        .iter()
        .any(|c| matches!(c, BridgeCommand::CancelTurn)));
}

#[test]
fn resume_asks_the_event_loop_to_fetch_the_list() {
    let handle = FakeHandle::new();
    for (draft, expected) in [
        ("/resume", ""),
        ("/resume 权限门", "权限门"),
        ("/resume   ", ""),
    ] {
        let mut local = local_with(draft);
        let flow = submit(&mut local, &handle, &frame_without_ask());
        assert_eq!(flow, Flow::ListSessions(expected.into()), "draft: {draft}");
    }
    assert!(
        handle.commands().is_empty(),
        "/resume 不该变成一条发给引擎的命令"
    );
}

#[test]
fn picking_a_session_asks_for_a_restart() {
    let handle = FakeHandle::new();
    let mut local = local_with("");
    local.open_picker(candidates(&["aaa", "bbb"]));

    assert_eq!(
        dispatch_picker_action("ask.next", &mut local, &handle),
        Flow::Continue
    );
    assert_eq!(local.picker_selected, 1);
    assert_eq!(
        dispatch_picker_action("ask.confirm", &mut local, &handle),
        Flow::Resume("bbb".into())
    );
    assert!(local.session_picker.is_none(), "选完要关掉");
}

#[test]
fn escape_closes_the_picker_without_switching() {
    let handle = FakeHandle::new();
    let mut local = local_with("");
    local.open_picker(candidates(&["aaa"]));
    assert_eq!(
        dispatch_picker_action("repl.dismiss", &mut local, &handle),
        Flow::Continue
    );
    assert!(local.session_picker.is_none());
}

#[test]
fn the_picker_takes_the_keyboard() {
    let mut local = local_with("");
    local.open_picker(candidates(&["aaa", "bbb"]));
    let handle = FakeHandle::new();
    let mut resolver = Resolver::new(default_bindings());

    for c in "hello".chars() {
        dispatch_key(
            KeyEvent::new(CtKeyCode::Char(c), KeyModifiers::NONE),
            &mut resolver,
            &mut local,
            &handle,
            &frame_without_ask(),
        );
    }
    assert_eq!(local.draft, "");
    assert!(local.session_picker.is_some());
}

#[test]
fn the_session_picker_and_the_command_picker_are_never_both_open() {
    let mut local = local_with("/mo");
    assert!(compute_command_picker(&local).is_some());
    local.open_picker(candidates(&["aaa"]));
    assert!(compute_command_picker(&local).is_none());

    let popup = session_picker_state(&local).expect("选择器要能上屏");
    assert_eq!(popup.kind, PickerKind::Session);
    assert_eq!(popup.candidates[0].name, "aaa");
}

#[test]
fn confirming_an_empty_picker_switches_to_nothing() {
    let handle = FakeHandle::new();
    let mut local = local_with("");
    local.open_picker(Vec::new());
    assert_eq!(
        dispatch_picker_action("ask.confirm", &mut local, &handle),
        Flow::Continue
    );
    assert!(local.session_picker.is_none());
}

#[test]
fn ctrl_c_still_interrupts_the_turn_while_the_picker_is_open() {
    let mut local = local_with("");
    let handle = FakeHandle::new();
    local.open_picker(candidates(&["aaa"]));

    dispatch_picker_action("repl.cancel", &mut local, &handle);

    assert!(
        handle
            .commands()
            .iter()
            .any(|c| matches!(c, BridgeCommand::CancelTurn)),
        "got: {:?}",
        handle.commands()
    );
    assert!(local.session_picker.is_some(), "中断 turn 不该顺手关掉列表");
}

#[test]
fn an_arriving_request_takes_the_picker_off_the_screen_and_off_the_keyboard() {
    let mut local = local_with("");
    local.open_picker(candidates(&["aaa", "bbb"]));

    local.reconcile(&frame_with(question_request(AnswerWith::Type, Vec::new())));

    assert!(local.session_picker.is_none());
    assert!(session_picker_state(&local).is_none());
}

#[test]
fn locking_follows_the_active_request_not_the_whole_queue() {
    let mut frame = frame_without_ask();
    frame.composer.content.ask = Some(AskState {
        pending: vec![
            question_request(AnswerWith::Type, Vec::new()),
            ask_request(),
        ],
        active_idx: 0,
        view_mode: AskViewMode::TabView,
    });

    let mut local = local_with("");
    let merged = merge(frame.clone(), &local);
    assert!(
        !merged.composer.content.editor.locked,
        "当前这条是问答题，输入框该能用"
    );
    assert!(active_choice(&merged).is_none(), "键盘不该归对话框");

    local.ask_active = 1;
    let merged = merge(frame, &local);
    assert!(
        merged.composer.content.editor.locked,
        "当前这条是权限请求，输入框该锁上"
    );
    assert!(active_choice(&merged).is_some(), "键盘该归对话框了");
}

#[test]
fn tab_reaches_the_queue_switch_from_the_editor_context() {
    let mut frame = frame_without_ask();
    frame.composer.content.ask = Some(AskState {
        pending: vec![
            question_request(AnswerWith::Type, Vec::new()),
            ask_request(),
        ],
        active_idx: 0,
        view_mode: AskViewMode::TabView,
    });
    let mut local = local_with("");
    let handle = FakeHandle::new();
    let mut resolver = Resolver::new(default_bindings());
    let snapshot = merge(frame, &local);

    dispatch_key(
        KeyEvent::new(CtKeyCode::Tab, KeyModifiers::NONE),
        &mut resolver,
        &mut local,
        &handle,
        &snapshot,
    );

    assert_eq!(local.ask_active, 1, "Tab 没有路由到队列切换上");
}

#[test]
fn a_permission_prompt_queued_behind_a_question_can_still_be_reached() {
    let mut frame = frame_without_ask();
    frame.composer.content.ask = Some(AskState {
        pending: vec![
            question_request(AnswerWith::Type, Vec::new()),
            ask_request(),
        ],
        active_idx: 0,
        view_mode: AskViewMode::TabView,
    });
    let mut local = local_with("");
    let handle = FakeHandle::new();
    let snapshot = merge(frame, &local);

    dispatch_action("ask.next-request", &mut local, &handle, &snapshot);

    assert_eq!(local.ask_active, 1, "Tab 该切到那个权限请求上");
}

fn candidates(ids: &[&str]) -> Vec<PickerCandidate> {
    ids.iter()
        .map(|id| PickerCandidate {
            name: (*id).into(),
            description: "yesterday  3 msgs  x".into(),
        })
        .collect()
}

#[test]
fn merge_writes_the_local_selection_into_the_active_request() {
    let mut local = local_with("");
    local.ask_selected = 2;
    let mut snapshot = frame_without_ask();
    snapshot.composer.content.ask = Some(AskState {
        pending: vec![ask_request()],
        active_idx: 0,
        view_mode: AskViewMode::TabView,
    });

    let merged = merge(snapshot, &local);
    let ask = merged.composer.content.ask.unwrap();
    assert_eq!(ask.pending[0].selected_option, 2);
}

fn frame_without_ask() -> FrameState {
    FrameState {
        btw: None,
        transcript: TranscriptState {
            header: HeaderState {
                text: None,
                source: HeaderSource::Nothing,
            },
            body: TranscriptBodyState {
                scroll: ScrollState {
                    offset: 0,
                    total_lines: 0,
                },
                entries: vec![],
                auto_follow: true,
                selected_block: None,
            },
        },
        operation_status: OperationStatusState {
            status_line: StatusLineState { content: None },
            task_list: TaskListState { items: vec![] },
        },
        composer: ComposerState {
            app_info: AppInfoLineState { text: None },
            top_rule: TopRuleState {
                color: SeparatorColor::DarkGray,
                right_label: None,
            },
            content: ContentState {
                editor: EditorState {
                    mode: InputMode::Normal,
                    draft: String::new(),
                    cursor: 0,
                    paste_placeholder: None,
                    locked: false,
                },
                picker: None,
                ask: None,
            },
            bottom_rule: BottomRuleState {
                color: SeparatorColor::DarkGray,
            },
        },
        sub_agent_bar: SubAgentBarState { agents: vec![] },
        footer_hints: FooterHintsState {
            model: "test-model".into(),
            cwd: "/tmp".into(),
            mode: AppMode::Normal,
            right_hint: String::new(),
            usage: SessionUsageState::default(),
        },
    }
}

#[test]
fn dismiss_hides_popup_until_draft_changes_again() {
    let mut local = local_with("/com");
    assert!(compute_command_picker(&local).is_some());
    local.picker_dismissed = true;
    assert!(compute_command_picker(&local).is_none());
    insert_char(
        KeyEvent::new(CtKeyCode::Char('m'), KeyModifiers::NONE),
        &mut local,
    );
    assert!(compute_command_picker(&local).is_some());
}
