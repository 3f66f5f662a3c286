//! A session: how the events of the engine change it, and what it shows.

use attacode::ask::{PendingQuestion, QuestionEvent};
use attacode::doctor::{checks, render, CheckedSettings, Enforcement, HealthReport, SandboxCheck};
use attacode::domain::{AgentEvent, ContentBlock, Message, Now, ToolResultContent};
use attacode::frame_state::{
    AnswerWith, AskOption, AskRequest, FrameState, HeaderSource, ItemStatus, LineKind,
    StatusContent, SubAgentState,
};
use attacode::reducer::{permission_options, Reducer};
use attacode::restore::try_restore_turns;
use attacode::transcript_lines::FOLD_LINE_THRESHOLD;
use std::cell::{Cell, RefCell};
use std::rc::Rc;

const NOW: Now = Now { steady_ms: 10_000, wall_ms: 1_700_000_000_000 };

/// A session under test. Turns get ids of their own.
struct Live {
    state: RefCell<Reducer>,
    turns: Cell<u32>,
}

impl Live {
    fn begin_turn(&self, text: String) -> String {
        self.turns.set(self.turns.get() + 1);
        let id = format!("turn-{}", self.turns.get());
        self.state.borrow_mut().begin_turn(id.clone(), text, NOW);
        id
    }
    fn apply_event(&self, event: AgentEvent) {
        assert!(self.state.borrow_mut().try_apply_event(event, NOW).is_some());
    }
    fn apply_question(&self, event: QuestionEvent) {
        self.state.borrow_mut().apply_question(event)
    }
    fn resolve_prompt(&self, id: &str) {
        self.state.borrow_mut().resolve_prompt(id)
    }
    fn note(&self, text: String) {
        self.state.borrow_mut().note(text)
    }
    fn set_model(&self, name: String) {
        self.state.borrow_mut().set_model(name)
    }
    fn toggle_expand(&self, id: &str) {
        self.state.borrow_mut().toggle_expand(id)
    }
    fn request_cancel(&self) {
        self.state.borrow_mut().request_cancel(NOW)
    }
}

fn restored(history: Vec<Message>) -> (Rc<Live>, Rc<Live>) {
    let turns = try_restore_turns(history).unwrap();
    let live = Rc::new(Live {
        state: RefCell::new(Reducer::new("test-model".into(), "/tmp".into(), turns)),
        turns: Cell::new(0),
    });
    (live.clone(), live)
}

fn reducer() -> (Rc<Live>, Rc<Live>) {
    restored(Vec::new())
}

fn frame(live: &Rc<Live>) -> FrameState {
    live.state.borrow().render(NOW)
}

fn question(id: &str, options: &[(&str, &str)]) -> QuestionEvent {
    QuestionEvent::Ask(PendingQuestion {
        id: id.into(),
        header: "Branch name".into(),
        question: "叫什么好？".into(),
        options: options
            .iter()
            .map(|(k, l)| (k.to_string(), l.to_string()))
            .collect(),
    })
}

fn only_pending(f: &FrameState) -> AskRequest {
    let ask = f
        .composer
        .content
        .ask
        .as_ref()
        .expect("a dialog should be up");
    assert_eq!(ask.pending.len(), 1);
    ask.pending[0].clone()
}

#[test]
fn a_multiple_choice_question_becomes_a_chooser() {
    let (r, rx) = reducer();
    r.apply_question(question("t1", &[("a", "feat/x"), ("b", "fix/y")]));

    let f = frame(&rx);
    let req = only_pending(&f);
    assert_eq!(req.prompt_id, "t1");
    assert_eq!(req.tool_name, "Branch name");
    assert_eq!(req.answer_with, AnswerWith::Choose);
    assert_eq!(
        req.options,
        vec![
            AskOption::Answer {
                key: "a".into(),
                label: "feat/x".into()
            },
            AskOption::Answer {
                key: "b".into(),
                label: "fix/y".into()
            },
        ]
    );
    assert!(
        f.composer.content.editor.locked,
        "选择题期间 composer 该锁住"
    );
}

#[test]
fn a_free_form_question_leaves_the_composer_usable() {
    let (r, rx) = reducer();
    r.apply_question(question("t2", &[]));

    let f = frame(&rx);
    let req = only_pending(&f);
    assert_eq!(req.answer_with, AnswerWith::Type);
    assert!(req.options.is_empty());
    assert!(
        !f.composer.content.editor.locked,
        "自由文本题锁住 composer 就没有任何一个键能推进它了"
    );
}

#[test]
fn withdrawing_a_question_takes_the_dialog_away() {
    let (r, rx) = reducer();
    r.apply_question(question("t3", &[("a", "A")]));
    assert!(frame(&rx).composer.content.ask.is_some());

    r.apply_question(QuestionEvent::Withdraw("t3".into()));
    let f = frame(&rx);
    assert!(f.composer.content.ask.is_none());
    assert!(!f.composer.content.editor.locked);
}

#[test]
fn a_permission_prompt_and_a_question_keep_their_own_shapes() {
    let (r, rx) = reducer();
    r.apply_event(AgentEvent::PermissionPrompt {
        prompt_id: "p1".into(),
        tool_name: "Bash".into(),
        message: "run it?".into(),
    });
    r.apply_question(question("t4", &[]));

    let f = frame(&rx);
    let pending = &f.composer.content.ask.as_ref().unwrap().pending;
    assert_eq!(pending.len(), 2);
    assert_eq!(pending[0].answer_with, AnswerWith::Choose);
    assert_eq!(pending[0].options, permission_options());
    assert_eq!(pending[1].answer_with, AnswerWith::Type);
    assert!(
        f.composer.content.editor.locked,
        "队列里只要还有一道选择题，composer 就得锁着"
    );
}


#[test]
fn multi_line_text_becomes_one_entry_per_line() {
    let (r, rx) = reducer();
    let turn_id = r.begin_turn("q".into());
    r.apply_event(AgentEvent::TextDelta {
        text: "第一段。\n\n第二段。\n- 甲\n- 乙".into(),
        turn_id,
    });

    let f = frame(&rx);
    let said: Vec<&str> = f
        .transcript
        .body
        .entries
        .iter()
        .filter(|e| e.kind == LineKind::AssistantText)
        .map(|e| e.text.as_str())
        .collect();
    assert_eq!(said, ["第一段。", "", "第二段。", "- 甲", "- 乙"]);
    assert!(
        f.transcript
            .body
            .entries
            .iter()
            .all(|e| !e.text.contains('\n')),
        "任何一条 entry 里都不该再有换行——它到屏幕上会被吞掉"
    );

    let flags: Vec<bool> = f
        .transcript
        .body
        .entries
        .iter()
        .filter(|e| e.kind == LineKind::AssistantText)
        .map(|e| e.continues_previous)
        .collect();
    assert_eq!(flags, [false, true, true, true, true]);
}

#[test]
fn the_doctor_report_lands_as_one_entry_per_check() {
    let report = HealthReport {
        label: "degraded".into(),
        checks: checks(
            &CheckedSettings {
                model_name: "m".into(),
                providers: 0,
                permission_mode: "Default".into(),
                permission_rules: 0,
                local_permission_rules: 0,
                allow_write: 0,
                scripts: 0,
                task_models: 0,
                recorder: false,
            },
            &None,
            true,
            &SandboxCheck {
                mode: "MacOSSandboxExec".into(),
                enforcement: Enforcement::Full,
                unmet: Vec::new(),
            },
        ),
    };

    let (r, rx) = reducer();
    r.note(render(&report));

    let f = frame(&rx);
    let notes: Vec<&str> = f
        .transcript
        .body
        .entries
        .iter()
        .filter(|e| e.kind == LineKind::Note)
        .map(|e| e.text.as_str())
        .collect();
    assert_eq!(
        notes.len(),
        report.checks.len() + 1,
        "标题一行 + 每条检查一行，实际: {notes:#?}"
    );
    assert!(notes.iter().all(|t| !t.contains('\n')));
    assert!(notes[0].starts_with("doctor:"));
}

#[test]
fn empty_and_trailing_newline_text_keep_their_shape() {
    let (r, rx) = reducer();
    r.note(String::new());
    r.note("尾巴上有换行\n".into());

    let f = frame(&rx);
    let notes: Vec<&str> = f
        .transcript
        .body
        .entries
        .iter()
        .filter(|e| e.kind == LineKind::Note)
        .map(|e| e.text.as_str())
        .collect();
    assert_eq!(notes, ["", "尾巴上有换行"]);
}

#[test]
fn begin_turn_echoes_user_prompt() {
    let (r, rx) = reducer();
    let turn_id = r.begin_turn("hello".into());
    assert!(!turn_id.is_empty());
    let f = frame(&rx);
    assert_eq!(f.transcript.body.entries.len(), 1);
    assert_eq!(f.transcript.body.entries[0].kind, LineKind::UserPrompt);
    assert_eq!(f.transcript.body.entries[0].text, "hello");
}

#[test]
fn text_delta_accumulates_within_a_turn() {
    let (r, rx) = reducer();
    let turn_id = r.begin_turn("q".into());
    r.apply_event(AgentEvent::TextDelta {
        text: "Hel".into(),
        turn_id: turn_id.clone(),
    });
    r.apply_event(AgentEvent::TextDelta {
        text: "lo".into(),
        turn_id,
    });
    let f = frame(&rx);
    let assistant: Vec<_> = f
        .transcript
        .body
        .entries
        .iter()
        .filter(|e| e.kind == LineKind::AssistantText)
        .collect();
    assert_eq!(assistant.len(), 1);
    assert_eq!(assistant[0].text, "Hello");
}




#[test]
fn a_second_prompt_while_the_first_turn_is_still_streaming() {
    let (r, rx) = reducer();
    let first = r.begin_turn("第一句".into());
    r.apply_event(AgentEvent::TextDelta {
        text: "第一轮答".into(),
        turn_id: first.clone(),
    });
    let second = r.begin_turn("第二句".into());
    r.apply_event(AgentEvent::TextDelta {
        text: "案".into(),
        turn_id: first,
    });
    r.apply_event(AgentEvent::TextDelta {
        text: "第二轮答案".into(),
        turn_id: second,
    });

    let texts: Vec<String> = frame(&rx)
        .transcript
        .body
        .entries
        .iter()
        .map(|e| e.text.clone())
        .collect();
    assert_eq!(
        texts,
        vec!["第一句", "第一轮答案", "第二句", "第二轮答案"],
        "两轮的内容不能串在一起"
    );
}

#[test]
fn tool_results_go_to_their_own_call_when_several_are_in_flight() {
    let (r, rx) = reducer();
    let turn_id = r.begin_turn("并行读两个文件".into());
    for (id, name) in [("t1", "Read"), ("t2", "Grep")] {
        r.apply_event(AgentEvent::ToolUse {
            id: id.into(),
            name: name.into(),
            input: serde_json::from_str(r#"{}"#).unwrap(),
            turn_id: turn_id.clone(),
        });
    }
    r.apply_event(AgentEvent::ToolResult {
        id: "t2".into(),
        name: "Grep".into(),
        content: "grep 的结果".into(),
        is_error: Some(false),
        turn_id: turn_id.clone(),
    });
    r.apply_event(AgentEvent::ToolResult {
        id: "t1".into(),
        name: "Read".into(),
        content: "read 的结果".into(),
        is_error: Some(false),
        turn_id,
    });

    let entries = frame(&rx).transcript.body.entries;
    let of = |id: &str| -> Vec<String> {
        entries
            .iter()
            .filter(|e| e.block_id.as_deref() == Some(id) && e.kind == LineKind::ToolResultOk)
            .map(|e| e.text.clone())
            .collect()
    };
    assert_eq!(of("t1"), vec!["read 的结果"], "t1 拿到了别人的结果");
    assert_eq!(of("t2"), vec!["grep 的结果"], "t2 拿到了别人的结果");

    let headings: Vec<Option<&str>> = entries
        .iter()
        .filter(|e| e.kind == LineKind::ToolHeading)
        .map(|e| e.block_id.as_deref())
        .collect();
    assert_eq!(headings, vec![Some("t1"), Some("t2")]);
}

#[test]
fn a_unified_diff_in_a_tool_result_is_rendered_as_diff_lines() {
    let (r, rx) = reducer();
    let turn_id = r.begin_turn("改个字".into());
    r.apply_event(AgentEvent::ToolUse {
        id: "t1".into(),
        name: "Edit".into(),
        input: serde_json::from_str(r#"{"file_path": "a.rs"}"#).unwrap(),
        turn_id: turn_id.clone(),
    });
    r.apply_event(AgentEvent::ToolResult {
        id: "t1".into(),
        name: "Edit".into(),
        content: "Applied 1 edit (1 replacement) to a.rs (10 → 12 bytes)\n\n\
                  --- a.rs (before)\n\
                  +++ a.rs (after)\n\
                  @@ -1,3 +1,3 @@\n\
                  \x20fn main() {\n\
                  -    old();\n\
                  +    new();\n"
            .into(),
        is_error: Some(false),
        turn_id,
    });

    let kinds: Vec<LineKind> = frame(&rx)
        .transcript
        .body
        .entries
        .iter()
        .filter(|e| e.kind != LineKind::UserPrompt && e.kind != LineKind::ToolHeading)
        .map(|e| e.kind)
        .collect();
    assert_eq!(
        kinds,
        vec![
            LineKind::ToolResultOk,
            LineKind::ToolResultOk,
            LineKind::DiffContext,
            LineKind::DiffContext,
            LineKind::DiffContext,
            LineKind::DiffContext,
            LineKind::DiffOld,
            LineKind::DiffNew,
        ]
    );
}

#[test]
fn diff_text_reaches_the_renderer_without_its_leading_marker() {
    let (r, rx) = reducer();
    let turn_id = r.begin_turn("改个字".into());
    r.apply_event(AgentEvent::ToolUse {
        id: "t1".into(),
        name: "Edit".into(),
        input: serde_json::from_str(r#"{"file_path": "a.rs"}"#).unwrap(),
        turn_id: turn_id.clone(),
    });
    r.apply_event(AgentEvent::ToolResult {
        id: "t1".into(),
        name: "Edit".into(),
        content: "--- a.rs (before)\n\
                  +++ a.rs (after)\n\
                  @@ -1,3 +1,3 @@\n\
                  \x20fn main() {\n\
                  -    old();\n\
                  +    new();\n"
            .into(),
        is_error: Some(false),
        turn_id,
    });

    let f = frame(&rx);
    let diff: Vec<(LineKind, &str)> = f
        .transcript
        .body
        .entries
        .iter()
        .filter(|e| {
            matches!(
                e.kind,
                LineKind::DiffOld | LineKind::DiffNew | LineKind::DiffContext
            )
        })
        .map(|e| (e.kind, e.text.as_str()))
        .collect();

    assert_eq!(
        diff,
        vec![
            (LineKind::DiffContext, "--- a.rs (before)"),
            (LineKind::DiffContext, "+++ a.rs (after)"),
            (LineKind::DiffContext, "@@ -1,3 +1,3 @@"),
            (LineKind::DiffContext, "fn main() {"),
            (LineKind::DiffOld, "    old();"),
            (LineKind::DiffNew, "    new();"),
        ]
    );
}

#[test]
fn ordinary_output_starting_with_a_dash_is_not_treated_as_a_diff() {
    let (r, rx) = reducer();
    let turn_id = r.begin_turn("跑一下".into());
    r.apply_event(AgentEvent::ToolUse {
        id: "t1".into(),
        name: "Bash".into(),
        input: serde_json::from_str(r#"{"command": "ls"}"#).unwrap(),
        turn_id: turn_id.clone(),
    });
    r.apply_event(AgentEvent::ToolResult {
        id: "t1".into(),
        name: "Bash".into(),
        content: "-rw-r--r--  1 me  staff  12 a.txt\n+ 还有一行".into(),
        is_error: Some(false),
        turn_id,
    });

    let f = frame(&rx);
    assert!(
        f.transcript.body.entries.iter().all(|e| !matches!(
            e.kind,
            LineKind::DiffOld | LineKind::DiffNew | LineKind::DiffContext
        )),
        "没有 diff 表头就不该出现 diff 行"
    );
}

#[test]
fn subagent_progress_drives_the_bar_including_token_usage() {
    let (r, rx) = reducer();
    let turn_id = r.begin_turn("查一下".into());

    let forwarded = |inner: AgentEvent| AgentEvent::SubagentProgress {
        agent_label: "explore#3f2a1b7c".into(),
        event: Box::new(inner),
    };

    r.apply_event(forwarded(AgentEvent::TextDelta {
        text: "looking".into(),
        turn_id: turn_id.clone(),
    }));
    let bar = frame(&rx).sub_agent_bar.agents;
    assert_eq!(bar.len(), 1);
    assert_eq!(bar[0].name, "explore#3f2a1b7c");
    assert_eq!(bar[0].state, SubAgentState::Running);

    r.apply_event(forwarded(AgentEvent::TurnComplete {
        stop_reason: "end_turn".into(),
        input_tokens: 120,
        output_tokens: 30,
    }));
    let bar = frame(&rx).sub_agent_bar.agents;
    assert_eq!(bar[0].state, SubAgentState::Done);
    assert_eq!(bar[0].token_usage, 150, "用量来自转发过来的 TurnComplete");
    assert_eq!(bar[0].elapsed_or_status, "end_turn");
}

#[test]
fn the_spawn_complete_bracket_and_the_forwarded_stream_land_on_one_row() {
    let (r, rx) = reducer();
    let turn_id = r.begin_turn("查一下".into());
    let label = "explore#3f2a1b7c";

    r.apply_event(AgentEvent::AgentSpawned {
        agent_id: label.into(),
    });
    let bar = frame(&rx).sub_agent_bar.agents;
    assert_eq!(bar.len(), 1, "spawn 自己就该把行建出来");
    assert_eq!(bar[0].name, label);

    r.apply_event(AgentEvent::SubagentProgress {
        agent_label: label.into(),
        event: Box::new(AgentEvent::TurnComplete {
            stop_reason: "end_turn".into(),
            input_tokens: 120,
        output_tokens: 30,
        }),
    });

    r.apply_event(AgentEvent::AgentCompleted {
        agent_id: label.into(),
        outcome: "completed".into(),
    });

    let bar = frame(&rx).sub_agent_bar.agents;
    assert_eq!(bar.len(), 1, "三种事件是同一个 label，不该分成两行");
    assert_eq!(bar[0].state, SubAgentState::Done);
    assert_eq!(bar[0].token_usage, 150);
    assert_eq!(
        bar[0].elapsed_or_status, "end_turn",
        "委派层面的 completed 不该盖掉子代理自己的 stop_reason"
    );
}

#[test]
fn a_failed_sub_agent_is_not_whitewashed_by_the_closing_bracket() {
    let (r, rx) = reducer();
    let turn_id = r.begin_turn("查一下".into());
    let label = "explore#deadbeef";

    r.apply_event(AgentEvent::AgentSpawned {
        agent_id: label.into(),
    });
    r.apply_event(AgentEvent::SubagentProgress {
        agent_label: label.into(),
        event: Box::new(AgentEvent::Error {
            message: "delegation depth limit reached\n还有第二行".into(),
            turn_id,
        }),
    });
    assert_eq!(
        frame(&rx).sub_agent_bar.agents[0].state,
        SubAgentState::Failed
    );

    r.apply_event(AgentEvent::AgentCompleted {
        agent_id: label.into(),
        outcome: "failed".into(),
    });

    let bar = frame(&rx).sub_agent_bar.agents;
    assert_eq!(bar[0].state, SubAgentState::Failed, "收尾括号不许洗白失败");
    assert_eq!(
        bar[0].elapsed_or_status, "delegation depth limit reached",
        "留着报错原文的第一行，别换成 failed"
    );
}

#[test]
fn todo_write_fills_the_task_list() {
    let (r, rx) = reducer();
    let turn_id = r.begin_turn("做三件事".into());
    r.apply_event(AgentEvent::ToolUse {
        id: "t1".into(),
        name: "TodoWrite".into(),
        input: serde_json::from_str(r#"{"todos": [ {"content": "看代码", "status": "completed", "active_form": "看代码中"}, {"content": "跑测试", "status": "in_progress", "active_form": "跑测试中"}, {"content": "提交", "status": "pending", "active_form": ""}]}"#).unwrap(),
        turn_id: turn_id.clone(),
    });

    let items = frame(&rx).operation_status.task_list.items;
    assert_eq!(items.len(), 3);
    assert_eq!(items[0].status, ItemStatus::Done);
    assert_eq!(items[0].label, "看代码");
    assert_eq!(items[1].status, ItemStatus::Running);
    assert_eq!(items[1].label, "跑测试中", "进行中的那条用 active_form");
    assert_eq!(items[2].status, ItemStatus::Pending);

    r.apply_event(AgentEvent::ToolUse {
        id: "t2".into(),
        name: "TodoWrite".into(),
        input: serde_json::from_str(r#"{"todos": []}"#).unwrap(),
        turn_id,
    });
    assert!(frame(&rx).operation_status.task_list.items.is_empty());
}

#[test]
fn only_the_todo_tool_touches_the_task_list() {
    let (r, rx) = reducer();
    let turn_id = r.begin_turn("q".into());
    r.apply_event(AgentEvent::ToolUse {
        id: "t1".into(),
        name: "Bash".into(),
        input: serde_json::from_str(r#"{"todos": [{"content": "x", "status": "pending"}]}"#).unwrap(),
        turn_id,
    });
    assert!(frame(&rx).operation_status.task_list.items.is_empty());
}

#[test]
fn the_header_sticks_the_current_prompt() {
    let (r, rx) = reducer();
    assert_eq!(frame(&rx).transcript.header.text, None);

    r.begin_turn("第一个问题".into());
    assert_eq!(
        frame(&rx).transcript.header.text.as_deref(),
        Some("第一个问题")
    );
    assert_eq!(
        frame(&rx).transcript.header.source,
        HeaderSource::UserPrompt
    );

    r.begin_turn("第二个问题\n还有第二行".into());
    assert_eq!(
        frame(&rx).transcript.header.text.as_deref(),
        Some("第二个问题")
    );
}

#[test]
fn set_model_updates_the_footer_and_leaves_a_note() {
    let (r, rx) = reducer();
    assert_eq!(frame(&rx).footer_hints.model, "test-model");

    r.set_model("example-opus5".into());

    let f = frame(&rx);
    assert_eq!(f.footer_hints.model, "example-opus5");
    assert!(
        f.transcript
            .body
            .entries
            .iter()
            .any(|e| e.kind == LineKind::Note && e.text.contains("example-opus5")),
        "换模型应该在转录里留痕:\n{:?}",
        f.transcript.body.entries
    );
}

#[test]
fn restored_history_is_laid_out_like_a_live_transcript() {

    let history = vec![
        Message::User {
            content: vec![ContentBlock::Text {
                text: "读一下 Cargo.toml".into(),
            }],
        },
        Message::Assistant {
            content: vec![
                ContentBlock::Text {
                    text: "好的".into(),
                },
                ContentBlock::ToolUse {
                    id: "t1".into(),
                    name: "Read".into(),
                    input: serde_json::from_str(r#"{"file_path": "Cargo.toml"}"#).unwrap(),
                },
            ],
        },
        Message::User {
            content: vec![ContentBlock::ToolResult {
                tool_use_id: "t1".into(),
                content: ToolResultContent::Text("[workspace]".into()),
                is_error: false,
            }],
        },
        Message::Assistant {
            content: vec![ContentBlock::Text {
                text: "是个 workspace".into(),
            }],
        },
    ];

    let (_r, rx) = restored(history);
    let f = frame(&rx);
    let kinds: Vec<LineKind> = f.transcript.body.entries.iter().map(|e| e.kind).collect();
    assert_eq!(
        kinds,
        vec![
            LineKind::UserPrompt,
            LineKind::AssistantText,
            LineKind::ToolHeading,
            LineKind::ToolResultOk,
            LineKind::AssistantText,
        ]
    );
    let heading = f.transcript.body.entries[2].block_id.clone();
    assert_eq!(heading.as_deref(), Some("t1"));
    assert_eq!(f.transcript.body.entries[3].block_id, heading);
    assert_eq!(
        f.transcript.header.text.as_deref(),
        Some("读一下 Cargo.toml")
    );
}

#[test]
fn injected_context_is_not_restored_as_a_user_prompt() {

    let text = |t: &str| ContentBlock::Text {
        text: t.into(),
    };
    let history = vec![
        Message::User {
            content: vec![text(
                "<system-reminder>\n# projectMd\n一大坨…\n</system-reminder>",
            )],
        },
        Message::User {
            content: vec![text("\n<system-reminder>M .gitignore</system-reminder>")],
        },
        Message::User {
            content: vec![text(
                "真正的问题\n<system-reminder>别忘了…</system-reminder>",
            )],
        },
    ];

    let (_r, rx) = restored(history);
    let entries = frame(&rx).transcript.body.entries;
    let texts: Vec<&str> = entries.iter().map(|e| e.text.as_str()).collect();
    assert_eq!(texts, vec!["真正的问题"]);
}

#[test]
fn live_events_after_a_resume_do_not_merge_into_restored_turns() {

    let history = vec![Message::User {
        content: vec![ContentBlock::Text {
            text: "旧问题".into(),
        }],
    }];
    let (r, rx) = restored(history);
    let turn_id = r.begin_turn("新问题".into());
    r.apply_event(AgentEvent::TextDelta {
        text: "新回答".into(),
        turn_id,
    });

    let texts: Vec<String> = frame(&rx)
        .transcript
        .body
        .entries
        .iter()
        .map(|e| e.text.clone())
        .collect();
    assert_eq!(texts, vec!["旧问题", "新问题", "新回答"]);
}

#[test]
fn a_note_before_the_first_turn_is_not_swallowed() {
    let (r, rx) = reducer();
    r.note("hello".into());
    let entries = frame(&rx).transcript.body.entries;
    assert_eq!(entries.len(), 1);
    assert_eq!(entries[0].kind, LineKind::Note);
    assert_eq!(entries[0].text, "hello");
}

#[test]
fn large_tool_result_folds_then_expands_on_toggle() {
    let (r, rx) = reducer();
    let turn_id = r.begin_turn("q".into());
    let long_output = (0..20)
        .map(|i| format!("line{i}"))
        .collect::<Vec<_>>()
        .join("\n");
    r.apply_event(AgentEvent::ToolUse {
        id: "t1".into(),
        name: "Bash".into(),
        input: serde_json::from_str(r#"{}"#).unwrap(),
        turn_id: turn_id.clone(),
    });
    r.apply_event(AgentEvent::ToolResult {
        id: "t1".into(),
        name: "Bash".into(),
        content: long_output,
        is_error: Some(false),
        turn_id,
    });

    let collapsed = frame(&rx);
    let fold_note = collapsed
        .transcript
        .body
        .entries
        .iter()
        .find(|e| e.kind == LineKind::Note && e.block_id.as_deref() == Some("t1"));
    assert!(
        fold_note.is_some(),
        "expected a folded summary note for a 20-line result"
    );
    let result_lines = collapsed
        .transcript
        .body
        .entries
        .iter()
        .filter(|e| e.kind == LineKind::ToolResultOk)
        .count();
    assert_eq!(result_lines, FOLD_LINE_THRESHOLD);

    r.toggle_expand("t1");
    let expanded = frame(&rx);
    let result_lines = expanded
        .transcript
        .body
        .entries
        .iter()
        .filter(|e| e.kind == LineKind::ToolResultOk)
        .count();
    assert_eq!(result_lines, 20);
}

#[test]
fn permission_prompt_populates_approval_and_resolve_clears_it() {
    let (r, rx) = reducer();
    let turn_id = r.begin_turn("q".into());
    r.apply_event(AgentEvent::PermissionPrompt {
        prompt_id: "p1".into(),
        tool_name: "Bash".into(),
        message: "run rm -rf?".into(),
    });
    let f = frame(&rx);
    assert!(f.composer.content.ask.is_some());
    assert!(f.composer.content.editor.locked);

    r.resolve_prompt("p1");
    let f = frame(&rx);
    assert!(f.composer.content.ask.is_none());
    assert!(!f.composer.content.editor.locked);
}

#[test]
fn turn_complete_accumulates_session_usage() {
    let (r, rx) = reducer();
    let turn_id = r.begin_turn("q".into());
    r.apply_event(AgentEvent::TurnComplete {
        stop_reason: "end_turn".into(),
        input_tokens: 100,
        output_tokens: 40,
    });
    let f = frame(&rx);
    assert_eq!(f.footer_hints.usage.token_in, 100);
    assert_eq!(f.footer_hints.usage.token_out, 40);
    assert_eq!(f.footer_hints.usage.turn_count, 1);
}

#[test]
fn begin_turn_sets_running_status_and_turn_complete_clears_it() {
    let (r, rx) = reducer();
    let turn_id = r.begin_turn("q".into());
    let f = frame(&rx);
    assert!(matches!(
        f.operation_status.status_line.content,
        Some(StatusContent::TurnRunning { .. })
    ));

    r.apply_event(AgentEvent::TurnComplete {
        stop_reason: "end_turn".into(),
        input_tokens: 1,
        output_tokens: 1,
    });
    let f = frame(&rx);
    assert!(f.operation_status.status_line.content.is_none());
}

#[test]
fn error_clears_running_status() {
    let (r, rx) = reducer();
    let turn_id = r.begin_turn("q".into());
    r.apply_event(AgentEvent::Error {
        message: "something broke".into(),
        turn_id,
    });
    let f = frame(&rx);
    assert!(f.operation_status.status_line.content.is_none());
}

#[test]
fn compact_action_pushes_a_transcript_note_not_a_status() {
    let (r, rx) = reducer();
    let turn_id = r.begin_turn("q".into());
    r.apply_event(AgentEvent::CompactAction {
        strategy: "Snip".into(),
        messages_before: 40,
        messages_after: 12,
        dropped_rounds: Some(3),
        estimated_tokens_saved: Some(5000),
    });
    let f = frame(&rx);
    let note = f
        .transcript
        .body
        .entries
        .iter()
        .find(|e| e.kind == LineKind::Note && e.text.contains("compacted"));
    assert!(
        note.is_some(),
        "expected a compaction note in the transcript"
    );
    assert!(f.operation_status.status_line.content.is_some());
}

#[test]
fn request_cancel_keeps_the_turn_running_until_core_confirms() {
    let (r, rx) = reducer();
    r.begin_turn("q".into());

    r.request_cancel();
    let f = frame(&rx);
    match f.operation_status.status_line.content {
        Some(StatusContent::TurnRunning { ref activity, .. }) => {
            assert!(activity.contains("Cancelling"), "activity was {activity:?}");
        }
        ref other => panic!("expected the turn to still be running, got {other:?}"),
    }
    assert!(
        !f.transcript
            .body
            .entries
            .iter()
            .any(|e| e.text.contains("cancelled")),
        "the note belongs to TurnComplete, not to the keypress"
    );
}

#[test]
fn cancelled_turn_complete_stops_the_spinner_and_leaves_a_note() {
    let (r, rx) = reducer();
    let turn_id = r.begin_turn("q".into());
    r.request_cancel();

    r.apply_event(AgentEvent::TurnComplete {
        stop_reason: "cancelled".into(),
        input_tokens: 0,
        output_tokens: 0,
    });

    let f = frame(&rx);
    assert!(f.operation_status.status_line.content.is_none());
    assert!(f
        .transcript
        .body
        .entries
        .iter()
        .any(|e| e.kind == LineKind::Note && e.text.contains("cancelled")));
}

#[test]
fn other_early_stop_reasons_explain_themselves_in_the_transcript() {
    for (stop_reason, expected) in [
        ("max_turns", "max_turns"),
        ("budget_exceeded", "budget"),
        ("max_structured_output_retries", "structured output"),
        ("context_exceeded", "context limit"),
        ("host_ceiling", "host-configured"),
        ("stopped_by_hook", "hook"),
    ] {
        let (r, rx) = reducer();
        let turn_id = r.begin_turn("q".into());
        r.apply_event(AgentEvent::TurnComplete {
            stop_reason: stop_reason.into(),
            input_tokens: 0,
        output_tokens: 0,
        });
        let f = frame(&rx);
        assert!(
            f.transcript
                .body
                .entries
                .iter()
                .any(|e| e.kind == LineKind::Note && e.text.contains(expected)),
            "no note explaining {stop_reason}"
        );
    }
}

#[test]
fn end_turn_leaves_no_note() {
    let (r, rx) = reducer();
    let turn_id = r.begin_turn("q".into());
    r.apply_event(AgentEvent::TurnComplete {
        stop_reason: "end_turn".into(),
        input_tokens: 0,
        output_tokens: 0,
    });
    let f = frame(&rx);
    assert!(f
        .transcript
        .body
        .entries
        .iter()
        .all(|e| e.kind != LineKind::Note));
}

#[test]
fn request_cancel_is_a_no_op_when_nothing_is_running() {
    let (r, rx) = reducer();
    r.request_cancel();
    let f = frame(&rx);
    assert!(f.transcript.body.entries.is_empty());
    assert!(f.operation_status.status_line.content.is_none());
}

#[test]
fn thinking_delta_accumulates_into_its_own_line_kind() {
    let (r, rx) = reducer();
    let turn_id = r.begin_turn("q".into());
    r.apply_event(AgentEvent::ThinkingDelta {
        text: "let me ".into(),
        turn_id: turn_id.clone(),
    });
    r.apply_event(AgentEvent::ThinkingDelta {
        text: "check".into(),
        turn_id,
    });
    let f = frame(&rx);
    let thinking: Vec<_> = f
        .transcript
        .body
        .entries
        .iter()
        .filter(|e| e.kind == LineKind::Thinking)
        .collect();
    assert_eq!(thinking.len(), 1);
    assert_eq!(thinking[0].text, "let me check");
}
