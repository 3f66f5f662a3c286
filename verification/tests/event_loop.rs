//! The event loop, one event after the other.

use attacode::bootstrap::Resume;
use attacode::canvas::Area;
use attacode::dispatch::Flow;
use attacode::domain::Now;
use attacode::event_loop::{
    measure, on_event, open_ui, prepare, take_redraw, LoopEvent, SessionAction, SessionLoop,
    MIN_LIST_LINES,
};
use attacode::frame_state::{FrameState, PickerCandidate};
use attacode::handle::BridgeCommand;
use attacode::keybindings::defaults::default_bindings;
use attacode::keybindings::resolver::{KeyEvent, KeyPress, Resolver};
use attacode::reducer::Reducer;

const NOW: Now = Now { steady_ms: 10_000, wall_ms: 1_700_000_000_000 };

fn key(code: KeyPress) -> LoopEvent {
    let key = KeyEvent {
        code,
        control: false,
        alt: false,
        shift: false,
        super_key: false,
        meta: false,
    };
    let outcome = Resolver::new(default_bindings()).on_key(&key);
    LoopEvent::Key { key, outcome }
}

fn frame() -> FrameState {
    let mut s = Reducer::new("m".into(), "/tmp".into(), Vec::new());
    s.begin_turn("a".into(), "one\ntwo".into(), NOW);
    s.render(NOW)
}

fn found(id: &str) -> PickerCandidate {
    PickerCandidate { name: id.into(), description: String::new() }
}

#[test]
fn the_history_goes_on_where_the_transcript_ends() {
    let local = open_ui(vec![found("/help")], &frame());
    assert_eq!(local.history, ["one\ntwo"]);
    assert_eq!(local.commands[0].name, "/help");
    assert_eq!(local.draft, "");
}

#[test]
fn a_frame_is_measured_before_it_is_drawn() {
    let mut local = open_ui(Vec::new(), &frame());
    local.draft = "draft".into();
    local.redraw_requested = true;
    let shown = prepare(frame(), &mut local);
    assert_eq!(shown.composer.content.editor.draft, "draft");
    assert!(take_redraw(&mut local));
    assert!(!take_redraw(&mut local));
    let area = Area { x: 0, y: 0, width: 60, height: 20 };
    measure(&mut local, area, &shown);
    let height = attacode::layout::transcript_body_height(area, &shown);
    assert_eq!(local.viewport_lines, usize::from(height));
}

#[test]
fn events_lead_on_or_out() {
    let mut local = open_ui(Vec::new(), &frame());
    let shown = prepare(frame(), &mut local);
    for e in [LoopEvent::Frame, LoopEvent::OtherInput] {
        assert_eq!(on_event(e, &mut local, &shown).flow, Flow::Continue);
    }
    for e in [LoopEvent::SessionGone, LoopEvent::InputGone] {
        assert_eq!(on_event(e, &mut local, &shown).flow, Flow::Quit);
    }
    on_event(LoopEvent::Commands(vec![found("/new")]), &mut local, &shown);
    assert_eq!(local.commands[0].name, "/new");
    on_event(key(KeyPress::Char('z')), &mut local, &shown);
    assert_eq!(local.draft, "z");
}

#[test]
fn the_list_is_asked_for_only_where_it_can_be_drawn() {
    let mut local = open_ui(Vec::new(), &frame());
    let shown = prepare(frame(), &mut local);
    local.viewport_lines = MIN_LIST_LINES;
    local.draft = "/resume gate".into();
    local.cursor = local.draft.len();
    let step = on_event(key(KeyPress::Enter), &mut local, &shown);
    assert_eq!(step.flow, Flow::ListSessions("gate".into()));
    assert!(step.command.is_none());
    local.viewport_lines = MIN_LIST_LINES - 1;
    local.draft = "/resume gate".into();
    local.cursor = local.draft.len();
    let step = on_event(key(KeyPress::Enter), &mut local, &shown);
    assert_eq!(step.flow, Flow::Continue);
    assert!(matches!(
        step.command,
        Some(BridgeCommand::Note { text })
            if text == "/resume needs a taller terminal to show the list"
    ));
}

#[test]
fn what_a_query_found_is_shown_or_said() {
    let mut local = open_ui(Vec::new(), &frame());
    let shown = prepare(frame(), &mut local);
    let mut answer = |query: &str, found: Vec<PickerCandidate>| {
        let event = LoopEvent::Sessions { query: query.into(), found };
        match on_event(event, &mut local, &shown).command {
            Some(BridgeCommand::Note { text }) => text,
            _ => String::new(),
        }
    };
    assert_eq!(answer("", Vec::new()), "/resume: no earlier sessions in this project");
    assert_eq!(answer("x", Vec::new()), "/resume: nothing matches `x`");
    assert_eq!(answer("x", vec![found("id")]), "");
    assert_eq!(local.session_picker.unwrap()[0].name, "id");
}

#[test]
fn a_session_that_cannot_be_started_costs_nothing() {
    let mut sessions = SessionLoop::new(Some(Resume::Latest));
    let action = sessions.ended(Flow::Resume("gone".into()));
    assert!(matches!(action, SessionAction::Start(Resume::Id(id)) if id == "gone"));
    let action = sessions.tried(Some("no such session".into()));
    assert!(matches!(
        action,
        SessionAction::Stay(BridgeCommand::Note { text })
            if text == "/resume failed, staying in this session: no such session"
    ));
    assert_eq!(sessions.current, Some(Resume::Latest));
    assert!(matches!(sessions.ended(Flow::Quit), SessionAction::Leave));
}

#[test]
fn a_session_that_was_started_takes_over() {
    let mut sessions = SessionLoop::new(None);
    sessions.ended(Flow::Resume("next".into()));
    assert!(matches!(sessions.tried(None), SessionAction::Switch));
    assert_eq!(sessions.current, Some(Resume::Id("next".into())));
    assert_eq!(sessions.next, None);
}
