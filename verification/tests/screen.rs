//! What is drawn, on a screen of the terminal library.

use attacode::canvas::{Area, Color, Draw, Line, Style};
use attacode::frame_state::{
    AnswerWith, AppInfoLineState, AppMode, AskOption, AskRequest, AskState, AskViewMode,
    BottomRuleState, BtwState, ComposerState, ContentState, EditorState, FooterHintsState,
    FrameState, HeaderSource, HeaderState, InputMode, ItemStatus, LineKind, OperationStatusState,
    PickerCandidate, PickerKind, PickerState, ScrollState, SeparatorColor, SessionUsageState,
    StatusContent, StatusLineState, SubAgentBarState, SubAgentState, SubAgentStatus, TaskItem,
    TaskListState, TopRuleState, TranscriptBodyState, TranscriptEntry, TranscriptState,
};
use attacode::regions::composer::{
    approval_height, editor_height, editor_lines, wrapped_line_count,
};
use attacode::regions::footer_hints::UsageText;
use attacode::regions::operation_status::{status_line_height, task_list_height, MAX_TASK_ROWS};
use attacode::regions::style;
use attacode::regions::transcript::{header_height, render_body};
use ratatui::widgets::{Block, Borders, Clear, Paragraph, Wrap};

// ---- painting ------------------------------------------------------------------------

fn rect(a: &Area) -> ratatui::layout::Rect {
    ratatui::layout::Rect { x: a.x, y: a.y, width: a.width, height: a.height }
}

fn color(c: &Color) -> ratatui::style::Color {
    match c {
        Color::White => ratatui::style::Color::White,
        Color::DarkGray => ratatui::style::Color::DarkGray,
        Color::Cyan => ratatui::style::Color::Cyan,
        Color::Green => ratatui::style::Color::Green,
        Color::Yellow => ratatui::style::Color::Yellow,
        Color::Red => ratatui::style::Color::Red,
        Color::Magenta => ratatui::style::Color::Magenta,
        Color::Rgb(r, g, b) => ratatui::style::Color::Rgb(*r, *g, *b),
    }
}

fn paint_style(s: &Style) -> ratatui::style::Style {
    let mut out = ratatui::style::Style::default();
    if let Some(c) = &s.fg {
        out = out.fg(color(c));
    }
    if let Some(c) = &s.bg {
        out = out.bg(color(c));
    }
    out
}

fn paint(f: &mut ratatui::Frame, draws: &[Draw]) {
    for d in draws {
        match d {
            Draw::Clear { area } => f.render_widget(Clear, rect(area)),
            Draw::Border { area, color: c, title } => {
                let mut block = Block::default()
                    .borders(Borders::ALL)
                    .border_style(ratatui::style::Style::default().fg(color(c)));
                if let Some(t) = title {
                    block = block.title(t.clone());
                }
                f.render_widget(block, rect(area));
            }
            Draw::Text { area, lines, wrap } => {
                let lines: Vec<ratatui::text::Line> = lines
                    .iter()
                    .map(|l| {
                        let spans: Vec<ratatui::text::Span> = l
                            .spans
                            .iter()
                            .map(|s| {
                                ratatui::text::Span::styled(s.text.clone(), paint_style(&s.style))
                            })
                            .collect();
                        ratatui::text::Line::from(spans)
                    })
                    .collect();
                let mut p = Paragraph::new(lines);
                if *wrap {
                    p = p.wrap(Wrap { trim: false });
                }
                f.render_widget(p, rect(area));
            }
        }
    }
}

fn area_of(r: ratatui::layout::Rect) -> Area {
    Area { x: r.x, y: r.y, width: r.width, height: r.height }
}

fn format_tokens(n: u64) -> String {
    if n >= 1000 {
        format!("{:.1}k", n as f64 / 1000.0)
    } else {
        n.to_string()
    }
}

fn usage_of(frame: &FrameState) -> UsageText {
    UsageText {
        token_in: format_tokens(frame.footer_hints.usage.token_in),
        token_out: format_tokens(frame.footer_hints.usage.token_out),
    }
}

const W: u16 = 60;
const H: u16 = 12;
const RULE: &str = "────────────────────────────────────────────────────────────";
const FOOTER: &str = "example-opus5 · /w  [Normal] [Plan] [Auto] 0↑ 0↓  /=cmds";

fn draw_at(frame: &FrameState, w: u16, h: u16) -> Vec<String> {
    let backend = ratatui::backend::TestBackend::new(w, h);
    let mut terminal = ratatui::Terminal::new(backend).unwrap();
    terminal
        .draw(|f| {
            paint(f, &attacode::layout::render(area_of(f.area()), frame, '|', &usage_of(frame)))
        })
        .unwrap();
    let buf = terminal.backend().buffer();
    (0..h)
        .map(|y| {
            (0..w)
                .map(|x| buf.cell((x, y)).map(|c| c.symbol()).unwrap_or(" "))
                .collect::<String>()
                .trim_end()
                .to_string()
        })
        .collect()
}

fn draw(frame: &FrameState) -> Vec<String> {
    draw_at(frame, W, H)
}

fn transcript_then(lines: &[&str], tail: &[&str], h: usize) -> Vec<String> {
    let mut out: Vec<String> = lines.iter().map(|s| s.to_string()).collect();
    out.resize(h - tail.len(), String::new());
    out.extend(tail.iter().map(|s| s.to_string()));
    out
}

fn line_entry(kind: LineKind, text: &str, block: Option<&str>) -> TranscriptEntry {
    TranscriptEntry {
        continues_previous: false,
        kind,
        text: text.into(),
        block_id: block.map(str::to_string),
    }
}

fn base() -> FrameState {
    FrameState {
        transcript: TranscriptState {
            header: HeaderState {
                text: None,
                source: HeaderSource::Nothing,
            },
            body: TranscriptBodyState {
                entries: vec![],
                scroll: ScrollState {
                    offset: 0,
                    total_lines: 0,
                },
                auto_follow: true,
                selected_block: None,
            },
        },
        operation_status: OperationStatusState {
            status_line: StatusLineState { content: None },
            task_list: TaskListState { items: vec![] },
        },
        composer: ComposerState {
            app_info: AppInfoLineState { text: None },
            top_rule: TopRuleState {
                color: SeparatorColor::DarkGray,
                right_label: None,
            },
            content: ContentState {
                editor: EditorState {
                    mode: InputMode::Normal,
                    draft: String::new(),
                    cursor: 0,
                    paste_placeholder: None,
                    locked: false,
                },
                picker: None,
                ask: None,
            },
            bottom_rule: BottomRuleState {
                color: SeparatorColor::DarkGray,
            },
        },
        sub_agent_bar: SubAgentBarState { agents: vec![] },
        footer_hints: FooterHintsState {
            model: "example-opus5".into(),
            cwd: "/w".into(),
            mode: AppMode::Normal,
            right_hint: "/=cmds".into(),
            usage: SessionUsageState::default(),
        },
        btw: None,
    }
}

#[test]
fn an_empty_session_is_just_the_composer_and_the_footer() {
    assert_eq!(
        draw(&base()),
        transcript_then(&[], &[RULE, "> █", RULE, FOOTER], H as usize)
    );
}

#[test]
fn a_turn_with_a_tool_call_renders_prompt_answer_and_tool_block() {
    let mut f = base();
    f.transcript.body.entries = vec![
        line_entry(LineKind::UserPrompt, "read Cargo.toml", None),
        line_entry(LineKind::ToolHeading, "Read(Cargo.toml)", Some("t1")),
        line_entry(LineKind::ToolResultOk, "[workspace]", Some("t1")),
        line_entry(LineKind::AssistantText, "it is a workspace.", None),
    ];
    assert_eq!(
        draw(&f),
        transcript_then(
            &[
                " > read Cargo.toml",
                " ⏺ Read(Cargo.toml)",
                "   ✓ [workspace]",
                "   it is a workspace.",
            ],
            &[RULE, "> █", RULE, FOOTER],
            H as usize
        )
    );
}

#[test]
fn diff_lines_are_visually_distinct() {
    let mut f = base();
    f.transcript.body.entries = vec![
        line_entry(LineKind::ToolHeading, "Edit(a.rs)", Some("t1")),
        line_entry(LineKind::DiffContext, "@@ -1,2 +1,2 @@", Some("t1")),
        line_entry(LineKind::DiffOld, "    old();", Some("t1")),
        line_entry(LineKind::DiffNew, "    new();", Some("t1")),
    ];
    assert_eq!(
        draw(&f),
        transcript_then(
            &[
                " ⏺ Edit(a.rs)",
                "     @@ -1,2 +1,2 @@",
                "   -     old();",
                "   +     new();",
            ],
            &[RULE, "> █", RULE, FOOTER],
            H as usize
        )
    );
}

#[test]
fn the_selection_gutter_marks_exactly_one_block() {
    let mut f = base();
    f.transcript.body.entries = vec![
        line_entry(LineKind::ToolHeading, "Read(a)", Some("t1")),
        line_entry(LineKind::ToolResultOk, "aaa", Some("t1")),
        line_entry(LineKind::ToolHeading, "Read(b)", Some("t2")),
        line_entry(LineKind::ToolResultOk, "bbb", Some("t2")),
    ];
    f.transcript.body.selected_block = Some("t2".into());
    assert_eq!(
        draw(&f),
        transcript_then(
            &[" ⏺ Read(a)", "   ✓ aaa", "▌⏺ Read(b)", "▌  ✓ bbb",],
            &[RULE, "> █", RULE, FOOTER],
            H as usize
        )
    );
}

#[test]
fn an_open_approval_dialog_locks_the_composer() {
    let mut f = base();
    f.composer.content.editor.locked = true;
    f.composer.content.ask = Some(AskState {
        pending: vec![AskRequest {
            answer_with: AnswerWith::Choose,
            prompt_id: "p1".into(),
            tool_name: "Bash".into(),
            message: "rm -rf /tmp/x".into(),
            options: vec![AskOption::PermitOnce, AskOption::Deny],
            selected_option: 1,
        }],
        active_idx: 0,
        view_mode: AskViewMode::TabView,
    });
    let screen = draw_at(&f, W, 16).join("\n");
    for expected in [
        "│Bash:",
        "│  rm -rf /tmp/x",
        "  ❯ No",
        "Enter=confirm  Esc=deny",
    ] {
        assert!(screen.contains(expected), "缺 {expected:?}:\n{screen}");
    }
    assert!(!screen.contains('█'), "锁住时不该画光标:\n{screen}");
}

#[test]
fn a_cramped_approval_dialog_keeps_the_options_and_the_key_hint() {
    let mut f = base();
    f.composer.content.editor.locked = true;
    f.composer.content.ask = Some(AskState {
        pending: vec![AskRequest {
            answer_with: AnswerWith::Choose,
            prompt_id: "p1".into(),
            tool_name: "Bash".into(),
            message: (1..=8)
                .map(|i| format!("说明第{i}行"))
                .collect::<Vec<_>>()
                .join("\n"),
            options: vec![AskOption::PermitOnce, AskOption::Deny],
            selected_option: 0,
        }],
        active_idx: 0,
        view_mode: AskViewMode::TabView,
    });
    let screen = draw_at(&f, W, 12).join("\n");
    for expected in ["Bash:", "❯ Yes", "No", "Enter=confirm  Esc=deny", "…"] {
        assert!(screen.contains(expected), "缺 {expected:?}:\n{screen}");
    }
    assert!(
        !screen.contains("说明第8行"),
        "挤不下时该砍的是说明文字:\n{screen}"
    );
}

#[test]
fn several_pending_approvals_get_a_tab_strip() {
    let mut f = base();
    f.composer.content.editor.locked = true;
    let req = |id: &str, tool: &str| AskRequest {
        answer_with: AnswerWith::Choose,
        prompt_id: id.into(),
        tool_name: tool.into(),
        message: format!("{tool} wants in"),
        options: vec![AskOption::PermitOnce, AskOption::Deny],
        selected_option: 0,
    };
    f.composer.content.ask = Some(AskState {
        pending: vec![req("p1", "Bash"), req("p2", "Write")],
        active_idx: 1,
        view_mode: AskViewMode::TabView,
    });
    let screen = draw_at(&f, W, 18).join("\n");
    assert!(screen.contains("[Bash#1]"), "缺 tab 条:\n{screen}");
    assert!(screen.contains("[Write#2]"), "缺 tab 条:\n{screen}");
    assert!(
        screen.contains("│Write:"),
        "画的应该是 active_idx 指的那个:\n{screen}"
    );
    assert!(
        screen.contains("Tab=next"),
        "提示要给出真能按的键:\n{screen}"
    );
}

#[test]
fn a_running_turn_shows_status_tasks_and_sub_agents() {
    let mut f = base();
    f.operation_status.status_line.content = Some(StatusContent::TurnRunning {
        spinner: '|',
        activity: "Running Bash".into(),
        elapsed_secs: 12,
        token_in: 1500,
        token_out: 300,
    });
    f.operation_status.task_list.items = vec![
        TaskItem {
            status: ItemStatus::Done,
            label: "read code".into(),
        },
        TaskItem {
            status: ItemStatus::Running,
            label: "run tests".into(),
        },
    ];
    f.sub_agent_bar.agents = vec![SubAgentStatus {
        name: "explore#3f2a1b7c".into(),
        state: SubAgentState::Running,
        token_usage: 150,
        elapsed_or_status: "3s".into(),
    }];
    f.footer_hints.usage = SessionUsageState {
        token_in: 1500,
        token_out: 300,
        turn_count: 1,
    };
    let screen = draw_at(&f, W, 16).join("\n");
    for expected in [
        "Running Bash",
        "12s",
        "✓ read code",
        "● run tests",
        "explore#3f2a1b7c",
        "150 tok",
        "1.5k↑ 300↓",
    ] {
        assert!(screen.contains(expected), "缺 {expected:?}:\n{screen}");
    }

    let rows = draw_at(&f, W, 16);
    let row_of = |needle: &str| {
        rows.iter()
            .position(|r| r.contains(needle))
            .unwrap_or_else(|| panic!("找不到 {needle:?}:\n{}", rows.join("\n")))
    };
    let status = row_of("Running Bash");
    let tasks = row_of("✓ read code");
    let footer = row_of("1.5k↑ 300↓");
    let agents = row_of("explore#3f2a1b7c");
    assert!(status < tasks, "状态行在任务清单上面");
    assert!(tasks < footer, "任务清单在输入区/底栏上面");
    assert!(
        footer < agents,
        "底栏在子代理条**上面**：底栏常驻，子代理条条件显示，\
         常驻的那条得钉在固定位置上"
    );
}

#[test]
fn the_completion_popup_floats_above_the_editor() {
    let mut f = base();
    f.composer.content.editor.draft = "/mod".into();
    f.composer.content.editor.cursor = 4;
    f.composer.content.picker = Some(PickerState {
        kind: PickerKind::SlashCommand,
        query: "mod".into(),
        candidates: vec![PickerCandidate {
            name: "/model".into(),
            description: "Switch the model".into(),
        }],
        selected: 0,
    });
    let lines = draw(&f);
    let screen = lines.join("\n");
    assert!(screen.contains("❯ /model"), "{screen}");
    assert!(screen.contains("> /mod█"), "草稿和光标照常:\n{screen}");
    let popup_row = lines.iter().position(|l| l.contains("/model")).unwrap();
    let editor_row = lines.iter().position(|l| l.contains("> /mod")).unwrap();
    assert!(popup_row < editor_row, "弹窗要在输入框上方:\n{screen}");
}

#[test]
fn a_scrolled_transcript_shows_the_lines_above_indicator() {
    let mut f = base();
    f.transcript.body.entries = (0..40)
        .map(|i| line_entry(LineKind::AssistantText, &format!("line{i}"), None))
        .collect();
    f.transcript.body.auto_follow = false;
    f.transcript.body.scroll.offset = 20;
    let screen = draw(&f).join("\n");
    assert!(screen.contains("line20"), "视口从 offset 起:\n{screen}");
    assert!(
        !screen.contains("line19"),
        "offset 之前的不该出现:\n{screen}"
    );
    assert!(screen.contains("20 lines above"), "{screen}");
}

#[test]
fn a_narrow_terminal_still_renders_every_region() {
    let mut f = base();
    f.transcript.body.entries = vec![line_entry(LineKind::AssistantText, "hello", None)];
    for (w, h) in [(20, 8), (40, 10), (200, 30)] {
        let lines = draw_at(&f, w, h);
        assert_eq!(lines.len(), h as usize, "{w}x{h} 行数不对");
        assert!(
            lines.iter().any(|l| l.contains("hello")),
            "{w}x{h} 转录没画出来"
        );
        assert!(
            lines.iter().any(|l| l.contains("example-opus5")),
            "{w}x{h} footer 没画出来"
        );
    }
}

fn empty_editor() -> EditorState {
    EditorState {
        mode: InputMode::Normal,
        draft: String::new(),
        cursor: 0,
        paste_placeholder: None,
        locked: false,
    }
}

#[test]
fn app_info_hidden_when_empty() {
    let state = ComposerState {
        app_info: AppInfoLineState { text: None },
        top_rule: TopRuleState {
            color: SeparatorColor::DarkGray,
            right_label: None,
        },
        content: ContentState {
            editor: empty_editor(),
            picker: None,
            ask: None,
        },
        bottom_rule: BottomRuleState {
            color: SeparatorColor::DarkGray,
        },
    };
    assert_eq!(
        attacode::regions::composer::height(&state, 80),
        1 + 1 + 1 
    );
}

#[test]
fn single_pending_approval_has_no_tab_strip_height() {
    let req = AskRequest {
        answer_with: AnswerWith::Choose,
        prompt_id: "test-1".into(),
        tool_name: "Bash".into(),
        message: "git status".into(),
        options: vec![AskOption::PermitOnce, AskOption::Deny],
        selected_option: 0,
    };
    let with_one = AskState {
        pending: vec![req.clone()],
        active_idx: 0,
        view_mode: AskViewMode::TabView,
    };
    let with_two = AskState {
        pending: vec![req.clone(), req],
        active_idx: 0,
        view_mode: AskViewMode::TabView,
    };
    assert_eq!(
        approval_height(&with_two) - approval_height(&with_one),
        1
    );
}

#[test]
fn editor_height_grows_with_explicit_newlines() {
    let mut state = empty_editor();
    state.draft = "line one\nline two\nline three".into();
    assert_eq!(editor_height(&state, 80), 3);
}

#[test]
fn editor_height_soft_wraps_a_long_single_line() {
    let mut state = empty_editor();
    state.draft = "x".repeat(100);
    assert_eq!(editor_height(&state, 20), 6);
}

#[test]
fn editor_height_clamps_at_twelve_rows() {
    let mut state = empty_editor();
    state.draft = "x".repeat(1000);
    assert_eq!(editor_height(&state, 20), 12);
}

fn line_text(line: &Line) -> String {
    line.spans.iter().map(|s| s.text.as_str()).collect()
}

#[test]
fn a_mid_line_cursor_does_not_shift_the_text() {
    let mut state = empty_editor();
    state.draft = "hello".into();
    state.cursor = 2;
    let lines = editor_lines(&state, "> ", Style::plain());
    assert_eq!(line_text(&lines[0]), "> hello");
    let cursor_span = lines[0]
        .spans
        .iter()
        .find(|s| s.style.reversed)
        .expect("应该有一个反色的光标格");
    assert_eq!(cursor_span.text, "l");
}

#[test]
fn a_cursor_at_the_end_is_drawn_as_a_block() {
    let mut state = empty_editor();
    state.draft = "hi".into();
    state.cursor = 2;
    let lines = editor_lines(&state, "> ", Style::plain());
    assert_eq!(line_text(&lines[0]), "> hi█");
}

#[test]
fn the_cursor_lands_on_its_own_line_only() {
    let mut state = empty_editor();
    state.draft = "one\ntwo".into();
    state.cursor = 5;
    let lines = editor_lines(&state, "> ", Style::plain());
    assert_eq!(line_text(&lines[0]), "> one");
    assert_eq!(line_text(&lines[1]), "two");
    assert!(!lines[0]
        .spans
        .iter()
        .any(|s| s.style.reversed));
    assert!(lines[1]
        .spans
        .iter()
        .any(|s| s.style.reversed));
}

#[test]
fn a_locked_editor_draws_no_cursor() {
    let mut state = empty_editor();
    state.draft = "hi".into();
    state.cursor = 1;
    state.locked = true;
    let lines = editor_lines(&state, "> ", Style::plain());
    assert_eq!(line_text(&lines[0]), "> hi");
}

#[test]
fn an_out_of_bounds_or_mid_char_cursor_does_not_panic() {
    let mut state = empty_editor();
    state.draft = "重构".into();
    state.cursor = 1;
    let lines = editor_lines(&state, "> ", Style::plain());
    assert_eq!(line_text(&lines[0]), "> 重构");
    state.cursor = 999;
    let _ = editor_lines(&state, "> ", Style::plain());
}

#[test]
fn wrapped_line_count_matches_manual_expectation() {
    assert_eq!(wrapped_line_count("", 10), 1);
    assert_eq!(wrapped_line_count("hello", 10), 1);
    assert_eq!(wrapped_line_count("hello world!", 5), 3);
    assert_eq!(wrapped_line_count("a\nb\nc", 10), 3);
}

#[test]
fn header_hidden_when_no_text() {
    let s = HeaderState {
        text: None,
        source: HeaderSource::Nothing,
    };
    assert_eq!(header_height(&s), 0);
}

#[test]
fn header_visible_with_text_and_source() {
    let s = HeaderState {
        text: Some("hi".into()),
        source: HeaderSource::UserPrompt,
    };
    assert_eq!(header_height(&s), 1);
}

fn body(offset: usize, auto_follow: bool) -> TranscriptBodyState {
    let entries: Vec<TranscriptEntry> = (0..50)
        .map(|i| TranscriptEntry {
            continues_previous: false,
            kind: LineKind::AssistantText,
            text: format!("line{i}"),
            block_id: None,
        })
        .collect();
    TranscriptBodyState {
        scroll: ScrollState {
            offset,
            total_lines: entries.len(),
        },
        entries,
        auto_follow,
        selected_block: None,
    }
}

fn body_with_blocks(selected: Option<&str>) -> TranscriptBodyState {
    let entries: Vec<TranscriptEntry> = ["a", "a", "b"]
        .iter()
        .enumerate()
        .map(|(i, id)| TranscriptEntry {
            continues_previous: false,
            kind: LineKind::ToolResultOk,
            text: format!("row{i}"),
            block_id: Some((*id).to_string()),
        })
        .collect();
    TranscriptBodyState {
        scroll: ScrollState {
            offset: 0,
            total_lines: entries.len(),
        },
        entries,
        auto_follow: true,
        selected_block: selected.map(str::to_string),
    }
}

fn rendered(state: &TranscriptBodyState) -> String {
    let backend = ratatui::backend::TestBackend::new(40, 6);
    let mut terminal = ratatui::Terminal::new(backend).unwrap();
    terminal
        .draw(|f| paint(f, &render_body(area_of(f.area()), state)))
        .unwrap();
    terminal
        .backend()
        .buffer()
        .content
        .iter()
        .map(|c| c.symbol())
        .collect()
}

#[test]
fn scrolled_body_starts_at_the_offset_and_counts_the_lines_above_it() {
    let out = rendered(&body(30, false));
    assert!(out.contains("line30"), "视口应该从 offset 那条开始:\n{out}");
    assert!(!out.contains("line29"), "offset 之前的不该出现:\n{out}");
    assert!(out.contains("30 lines above"), "提示条数字不对:\n{out}");
}

#[test]
fn following_body_shows_the_tail_and_no_indicator() {
    let out = rendered(&body(0, true));
    assert!(out.contains("line49"), "跟随时应该看到最后一条:\n{out}");
    assert!(!out.contains("lines above"));
}

#[test]
fn selection_gutter_marks_only_the_selected_blocks_lines() {
    let out = rendered(&body_with_blocks(Some("a")));
    let marks = out.matches(style::SELECTION_GUTTER).count();
    assert_eq!(marks, 2, "应该只有块 a 的两行带标记:\n{out}");
}

#[test]
fn no_gutter_when_nothing_is_selected() {
    let out = rendered(&body_with_blocks(None));
    assert!(!out.contains(style::SELECTION_GUTTER), "不该有标记:\n{out}");
}

#[test]
fn status_line_hidden_when_none() {
    assert_eq!(status_line_height(&StatusLineState { content: None }), 0);
}

#[test]
fn task_list_hidden_when_empty() {
    assert_eq!(task_list_height(&TaskListState { items: vec![] }), 0);
}

#[test]
fn task_list_caps_at_max_rows() {
    let items = (0..12)
        .map(|i| TaskItem {
            status: ItemStatus::Pending,
            label: format!("t{i}"),
        })
        .collect();
    assert_eq!(
        task_list_height(&TaskListState { items }),
        MAX_TASK_ROWS as u16
    );
}

fn side_question() -> BtwState {
    BtwState {
        question: "那个配置文件叫什么".into(),
        answer: "叫 settings.json，在 .atta 下面。".into(),
        streaming: false,
        scroll: 0,
        earlier: Vec::new(),
        older: 0,
        viewing: 0,
    }
}

fn draw_side(s: &BtwState, w: u16, h: u16) -> (String, String) {
    let mut t = ratatui::Terminal::new(ratatui::backend::TestBackend::new(w, h)).unwrap();
    t.draw(|f| paint(f, &attacode::regions::btw::render(area_of(f.area()), s)))
        .unwrap();
    let buf = t.backend().buffer().clone();
    let screen = (0..h)
        .map(|y| {
            (0..w)
                .map(|x| buf[(x, y)].symbol().to_string())
                .collect::<String>()
        })
        .collect::<Vec<_>>()
        .join("\n");
    let squeezed = screen.chars().filter(|c| !c.is_whitespace()).collect();
    (squeezed, screen)
}

#[test]
fn it_takes_about_half_the_canvas() {
    let area = Area {
        x: 0,
        y: 0,
        width: 80,
        height: 40,
    };
    assert_eq!(attacode::regions::btw::height(area), 20);
}

#[test]
fn on_a_tiny_screen_it_takes_what_there_is() {
    let tiny = Area {
        x: 0,
        y: 0,
        width: 80,
        height: 5,
    };
    assert_eq!(attacode::regions::btw::height(tiny), 5);
}

#[test]
fn it_shows_the_question_the_answer_and_its_own_hint_bar() {
    let (found, screen) = draw_side(&side_question(), 60, 12);
    assert!(found.contains("那个配置文件叫什么"), "{screen}");
    assert!(found.contains("settings.json"), "{screen}");
    assert!(
        screen.contains("Esc"),
        "它盖住了底栏，必须自己说清楚怎么出去:\n{screen}"
    );
}

#[test]
fn while_streaming_it_says_so_instead_of_showing_a_blank_panel() {
    let mut s = side_question();
    s.answer.clear();
    s.streaming = true;
    let (found, screen) = draw_side(&s, 60, 12);
    assert!(found.contains("想一下"), "{screen}");
    assert!(found.contains("正在回答"), "{screen}");
}

#[test]
fn earlier_questions_are_listed_above_with_a_count_of_the_rest() {
    let mut s = side_question();
    s.earlier = vec!["第一问".into(), "第二问".into()];
    s.older = 7;
    let (found, screen) = draw_side(&s, 60, 14);
    assert!(found.contains("第一问"), "{screen}");
    assert!(found.contains("还有7条更早的"), "{screen}");
    assert!(found.contains("x清空"), "有早前问答时才提示清空:\n{screen}");
}

#[test]
fn stepping_back_says_which_one_you_are_looking_at() {
    let mut s = side_question();
    s.viewing = 2;
    let (found, screen) = draw_side(&s, 60, 12);
    assert!(found.contains("第2条"), "{screen}");
}

#[test]
fn an_out_of_range_scroll_does_not_blank_the_panel() {
    let mut s = side_question();
    s.scroll = 9999;
    let (found, screen) = draw_side(&s, 60, 12);
    assert!(
        found.contains("settings.json"),
        "夹回去之后至少还看得见最后几行:\n{screen}"
    );
}
