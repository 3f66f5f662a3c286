//! Commands: what each of them does to the session, to the engine, and to whoever waits.

use attacode::ask::{answer_text, question_from, question_json, QuestionEvent, Questions, NOT_ASKED};
use attacode::domain::Now;
use attacode::frame_state::{AskOption, FrameState};
use attacode::handle::{
    dispatch_result, BridgeCommand, BridgeError, BridgeHandle, BtwKey, EngineCommand, InputMessage,
    Outbound, PermissionDecision,
};
use attacode::reducer::Reducer;
use std::cell::{Cell, RefCell};
use std::rc::Rc;

const NOW: Now = Now { steady_ms: 10_000, wall_ms: 1_700_000_000_000 };

/// A handle with an engine at its other end.
struct Wired {
    handle: RefCell<BridgeHandle>,
    inbox: RefCell<Vec<InputMessage>>,
    answers: RefCell<Vec<(String, String)>>,
    open: Cell<bool>,
}

impl Wired {
    fn dispatch(&self, cmd: BridgeCommand) -> Result<(), BridgeError> {
        let out = self.handle.borrow_mut().dispatch(cmd, "turn-1".into(), NOW, None);
        let result = dispatch_result(&out, self.open.get());
        match out {
            Outbound::Engine(m) if self.open.get() => self.inbox.borrow_mut().push(m),
            Outbound::Answer { prompt_id, text } => {
                self.answers.borrow_mut().push((prompt_id, text))
            }
            _ => {}
        }
        result
    }
    fn frame(&self) -> FrameState {
        self.handle.borrow().reducer.render(NOW)
    }
    fn close(&self) {
        self.open.set(false)
    }
}

fn handle() -> (Rc<Wired>, Rc<Wired>, Rc<Wired>) {
    let wired = Rc::new(Wired {
        handle: RefCell::new(BridgeHandle::new(
            Reducer::new("test-model".into(), "/tmp".into(), Vec::new()),
            Questions::new(),
        )),
        inbox: RefCell::new(Vec::new()),
        answers: RefCell::new(Vec::new()),
        open: Cell::new(true),
    });
    (wired.clone(), wired.clone(), wired)
}

fn drain(rx: &mut Rc<Wired>) -> Vec<InputMessage> {
    rx.inbox.borrow_mut().drain(..).collect()
}

#[test]
fn submit_becomes_a_user_message_and_echoes_into_the_transcript() {
    let (handle, mut rx, frame_rx) = handle();
    handle
        .dispatch(BridgeCommand::Submit {
            text: "你好".into(),
        })
        .unwrap();

    let msgs = drain(&mut rx);
    assert!(
        matches!(&msgs[..], [InputMessage::User { content, turn_id, .. }]
                 if content == "你好" && !turn_id.is_empty()),
        "got: {msgs:?}"
    );
    let frame = frame_rx.frame();
    let entries = &frame.transcript.body.entries;
    assert_eq!(entries.len(), 1);
    assert_eq!(entries[0].text, "你好");
}

#[test]
fn each_approval_option_maps_to_its_own_runtime_decision() {
    let cases = [
        (AskOption::PermitOnce, "Permit"),
        (AskOption::PermitSession, "PermitAlways(Session)"),
        (AskOption::PermitProject, "PermitAlways(Local)"),
        (AskOption::Deny, "Deny"),
    ];
    for (option, expected) in cases {
        let (handle, mut rx, _frame) = handle();
        handle
            .dispatch(BridgeCommand::Respond {
                prompt_id: "p1".into(),
                decision: option.clone(),
            })
            .unwrap();
        let msgs = drain(&mut rx);
        let InputMessage::PermissionResponse {
            prompt_id,
            decision,
        } = &msgs[0]
        else {
            panic!("expected a PermissionResponse, got: {msgs:?}");
        };
        assert_eq!(prompt_id, "p1");
        let actual = match decision {
            PermissionDecision::Permit => "Permit".to_string(),
            PermissionDecision::Deny { .. } => "Deny".to_string(),
            PermissionDecision::PermitAlways { scope } => format!("PermitAlways({scope:?})"),
        };
        assert_eq!(actual, expected, "{option:?} 映射错了");
    }
}

#[test]
fn answering_a_question_nobody_is_waiting_on_is_not_an_error() {
    let (handle, _rx, _frame) = handle();
    assert!(handle
        .dispatch(BridgeCommand::AnswerQuestion {
            prompt_id: "gone".into(),
            text: "x".into(),
        })
        .is_ok());
}

#[test]
fn cancel_sends_cancel_turn_not_shutdown() {
    let (handle, mut rx, _frame) = handle();
    handle.dispatch(BridgeCommand::CancelTurn).unwrap();
    let msgs = drain(&mut rx);
    assert!(
        matches!(
            &msgs[..],
            [InputMessage::System {
                kind: EngineCommand::CancelTurn,
                ..
            }]
        ),
        "got: {msgs:?}"
    );
}

#[test]
fn set_model_sends_the_name_to_core_and_updates_the_footer() {
    let (handle, mut rx, frame_rx) = handle();
    handle
        .dispatch(BridgeCommand::SetModel {
            name: "example-sonnet5".into(),
        })
        .unwrap();

    let msgs = drain(&mut rx);
    assert!(
        matches!(&msgs[..], [InputMessage::System { kind: EngineCommand::UpdateModel, content }]
                 if content == "example-sonnet5"),
        "got: {msgs:?}"
    );
    assert_eq!(frame_rx.frame().footer_hints.model, "example-sonnet5");
}

#[test]
fn local_only_commands_do_not_reach_the_engine() {
    let (handle, mut rx, frame_rx) = handle();
    handle
        .dispatch(BridgeCommand::ToggleExpand {
            block_id: "t1".into(),
        })
        .unwrap();
    handle
        .dispatch(BridgeCommand::Note {
            text: "提示".into(),
        })
        .unwrap();

    assert!(drain(&mut rx).is_empty(), "这两条不该发给 Core");
    assert!(frame_rx
        .frame()
        .transcript
        .body
        .entries
        .iter()
        .any(|e| e.text == "提示"));
}

#[test]
fn dispatch_reports_a_dead_engine() {
    let (handle, rx, _frame) = handle();
    rx.close();
    for cmd in [
        BridgeCommand::Submit { text: "x".into() },
        BridgeCommand::CancelTurn,
        BridgeCommand::SetModel { name: "m".into() },
        BridgeCommand::Respond {
            prompt_id: "p".into(),
            decision: AskOption::Deny,
        },
    ] {
        assert!(
            matches!(
                handle.dispatch(cmd.clone()),
                Err(BridgeError::EngineStopped)
            ),
            "{cmd:?} 应该报 EngineStopped"
        );
    }
    assert!(handle
        .dispatch(BridgeCommand::Note { text: "x".into() })
        .is_ok());
}

#[test]
fn an_answer_to_the_model_never_reaches_the_permission_channel() {
    let (handle, mut rx, _frame) = handle();
    handle.handle.borrow_mut().questions.register("t1");
    handle
        .dispatch(BridgeCommand::Respond {
            prompt_id: "t1".into(),
            decision: AskOption::Answer { key: "a".into(), label: "A".into() },
        })
        .unwrap();
    assert_eq!(*handle.answers.borrow(), vec![("t1".to_string(), "a".to_string())]);
    assert!(drain(&mut rx).is_empty());
    assert!(!handle.handle.borrow().questions.is_waiting("t1"));
}

#[test]
fn a_typed_answer_reaches_the_asker() {
    let (handle, mut rx, _frame) = handle();
    handle.handle.borrow_mut().questions.register("t2");
    handle
        .dispatch(BridgeCommand::AnswerQuestion { prompt_id: "t2".into(), text: "feat/ask".into() })
        .unwrap();
    assert_eq!(*handle.answers.borrow(), vec![("t2".to_string(), "feat/ask".to_string())]);
    assert!(drain(&mut rx).is_empty());
}

#[test]
fn giving_up_withdraws_the_dialog_and_stops_waiting() {
    let mut questions = Questions::new();
    questions.register("t3");
    questions.register("t4");
    assert!(questions.answer("t4"));
    assert!(questions.give_up("t4").is_none());
    assert!(matches!(questions.give_up("t3"), Some(QuestionEvent::Withdraw(id)) if id == "t3"));
    assert!(!questions.is_waiting("t3"));
    assert!(!questions.answer("t3"));
}

#[test]
fn a_question_without_a_title_goes_by_the_name_of_its_tool() {
    let blank = question_from("t1".into(), Some("  ".into()), "which?".into(), Vec::new());
    assert_eq!(blank.header, "AskUserQuestion");
    let none = question_from("t1".into(), None, "which?".into(), Vec::new());
    assert_eq!(none.header, "AskUserQuestion");
    let named = question_from("t1".into(), Some("Branch".into()), "which?".into(), Vec::new());
    assert_eq!(named.header, "Branch");
    assert_eq!(named.question, "which?");
}

#[test]
fn a_question_nobody_answered_reads_like_one() {
    assert_eq!(answer_text(Some("a".into())), "a");
    assert_eq!(answer_text(None), NOT_ASKED);
    assert!(NOT_ASKED.starts_with("The user was not asked"));
}

#[test]
fn side_questions_go_to_neither_gate() {
    let (handle, mut rx, _frame) = handle();
    let out = handle.handle.borrow_mut().dispatch(
        BridgeCommand::Btw { question: "why?".into() },
        "turn-1".into(),
        NOW,
        None,
    );
    assert!(matches!(out, Outbound::Side { question } if question == "why?"));
    handle.dispatch(BridgeCommand::BtwKey(BtwKey::Close)).unwrap();
    assert!(drain(&mut rx).is_empty());
}

#[test]
fn doctor_without_an_engine_says_so() {
    let (handle, _rx, frame_rx) = handle();
    handle.dispatch(BridgeCommand::Doctor).unwrap();
    assert_eq!(
        frame_rx.frame().transcript.body.entries[0].text,
        "doctor: no engine is attached to this session"
    );
}

#[test]
fn a_stopped_engine_is_named() {
    assert_eq!(
        BridgeError::EngineStopped.message(),
        "engine is no longer running (input channel closed)"
    );
}

#[test]
fn a_question_is_written_down_as_it_was_asked() {
    let options = vec![("a".to_string(), "A \"b\"".to_string()), ("c".to_string(), "重\u{1f}\u{8}".to_string())];
    let text = question_json(&None, "which\n?", &options);
    assert_eq!(
        text,
        "{\"header\":null,\"options\":[{\"key\":\"a\",\"label\":\"A \\\"b\\\"\"},\
         {\"key\":\"c\",\"label\":\"重\\u001f\\b\"}],\"question\":\"which\\n?\"}"
    );
    let value: serde_json::Value = serde_json::from_str(&text).unwrap();
    assert_eq!(value.to_string(), text);
    assert_eq!(value["options"][1]["label"], "重\u{1f}\u{8}");
    let titled = question_json(&Some("  ".into()), "q", &Vec::new());
    assert_eq!(titled, "{\"header\":\"  \",\"options\":[],\"question\":\"q\"}");
}
