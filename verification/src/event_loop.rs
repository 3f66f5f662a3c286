//! The event loop: what each event leads to, and how one session follows another. The loop
//! itself waits, draws and fetches; the decisions are made here.

use crate::bootstrap::{Resume, ResumeView};
use crate::canvas::Area;
use crate::dispatch::{
    dispatch_outcome, key_reaction, leads_to, quiet, sends, Flow, FlowView, Reaction, Step,
};
use crate::frame_state::{candidates_view, CandidateView, FrameState, PickerCandidate};
use crate::handle::{BridgeCommand, CommandView};
use crate::keybindings::resolver::{KeyEvent, OutcomeView, ResolveOutcome};
use crate::layout::{body_height_spec, transcript_body_height};
use crate::local_ui::{LocalUi, UiModel};
use crate::merge::{is_merged, merge, prompts_spec, user_prompts};
use vstd::prelude::*;
use vstd::string::*;

verus! {

// ---- around a frame ------------------------------------------------------------------

/// The local state at the beginning of a session. What was submitted before, as far as the
/// transcript shows it, is the history.
pub open spec fn opened(commands: Seq<CandidateView>, frame: FrameState) -> UiModel {
    UiModel {
        draft: seq![],
        cursor: 0,
        commands,
        picker_selected: 0,
        session_picker: None,
        picker_dismissed: false,
        ask_selected: 0,
        ask_active: 0,
        scroll_offset: None,
        selected_block: None,
        history: prompts_spec(frame.transcript.body.entries@),
        history_pos: None,
        history_stash: seq![],
        viewport_lines: 1,
        redraw_requested: false,
    }
}

pub fn open_ui(commands: Vec<PickerCandidate>, frame: &FrameState) -> (local: LocalUi)
    ensures
        local.wf(),
        local@ == opened(candidates_view(commands@), *frame),
{
    let mut local = LocalUi::new(commands);
    local.history = user_prompts(frame);
    local
}

/// Makes the frame that is drawn next: the local state is brought in line with the frame of
/// the session, and then laid over it.
pub fn prepare(frame: FrameState, local: &mut LocalUi) -> (snapshot: FrameState)
    requires
        old(local).wf(),
    ensures
        final(local).wf(),
        final(local)@ == old(local)@.reconcile(frame),
        is_merged(frame, *final(local), snapshot),
{
    local.reconcile(&frame);
    merge(frame, local)
}

/// Whether the screen is to be cleared first. Asking takes the wish back.
pub fn take_redraw(local: &mut LocalUi) -> (r: bool)
    requires
        old(local).wf(),
    ensures
        final(local).wf(),
        r == old(local)@.redraw_requested,
        final(local)@ == (UiModel { redraw_requested: false, ..old(local)@ }),
{
    let r = local.redraw_requested;
    local.redraw_requested = false;
    r
}

/// Keeps the height of the transcript on the frame that is drawn: a page is that long.
pub fn measure(local: &mut LocalUi, area: Area, snapshot: &FrameState)
    requires
        old(local).wf(),
    ensures
        final(local).wf(),
        final(local)@ == (UiModel {
            viewport_lines: body_height_spec(area, *snapshot) as usize,
            ..old(local)@
        }),
{
    local.viewport_lines = transcript_body_height(area, snapshot) as usize;
}

// ---- the list of sessions ------------------------------------------------------------

/// The least height of the transcript at which the session list can be drawn.
pub const MIN_LIST_LINES: usize = 3;

/// The list of sessions is not fetched where it could not be drawn; the transcript says so.
pub fn refuse_session_list(local: &LocalUi) -> (r: Option<BridgeCommand>)
    ensures
        r is Some == (local.viewport_lines < MIN_LIST_LINES),
        r matches Some(c) ==> c@ == (CommandView::Note {
            text: "/resume needs a taller terminal to show the list"@,
        }),
{
    if local.viewport_lines < MIN_LIST_LINES {
        Some(
            BridgeCommand::Note {
                text: "/resume needs a taller terminal to show the list".to_owned(),
            },
        )
    } else {
        None
    }
}

/// What the transcript says where a query finds no session.
pub open spec fn nothing_found(query: Seq<char>) -> CommandView {
    CommandView::Note {
        text: if query.len() == 0 {
            "/resume: no earlier sessions in this project"@
        } else {
            "/resume: nothing matches `"@ + query + "`"@
        },
    }
}

/// Shows the sessions that were found; where there are none, the transcript says so.
pub fn sessions_found(local: &mut LocalUi, query: &str, found: Vec<PickerCandidate>) -> (r: Option<
    BridgeCommand,
>)
    requires
        old(local).wf(),
    ensures
        final(local).wf(),
        r is Some == (found@.len() == 0),
        r matches Some(c) ==> c@ == nothing_found(query@),
        final(local)@ == if found@.len() == 0 {
            old(local)@
        } else {
            old(local)@.open_picker(candidates_view(found@))
        },
{
    if found.len() == 0 {
        let text: String = if query.is_empty() {
            "/resume: no earlier sessions in this project".to_owned()
        } else {
            "/resume: nothing matches `".to_owned().concat(query).concat("`")
        };
        Some(BridgeCommand::Note { text })
    } else {
        local.open_picker(found);
        None
    }
}

/// What the transcript says where a session could not be changed to.
pub fn resume_failed(error: &str) -> (r: BridgeCommand)
    ensures
        r@ == (CommandView::Note {
            text: "/resume failed, staying in this session: "@ + error@,
        }),
{
    BridgeCommand::Note {
        text: "/resume failed, staying in this session: ".to_owned().concat(error),
    }
}

// ---- one event -----------------------------------------------------------------------

/// What reaches the event loop.
#[derive(Debug)]
pub enum LoopEvent {
    /// The session has a new frame.
    Frame,
    /// The session is over.
    SessionGone,
    /// The engine offers other slash commands.
    Commands(Vec<PickerCandidate>),
    /// A key was pressed, and resolved.
    Key { key: KeyEvent, outcome: ResolveOutcome },
    /// The terminal said something else: a key was let go, the size has changed.
    OtherInput,
    /// The terminal says nothing any more.
    InputGone,
    /// The sessions that a query found.
    Sessions { query: String, found: Vec<PickerCandidate> },
}

/// A list of sessions is not asked for where it could not be drawn.
pub open spec fn unless_too_low(r: Reaction) -> Reaction {
    if r.step.flow is ListSessions && r.ui.viewport_lines < MIN_LIST_LINES {
        sends(r.ui, CommandView::Note { text: "/resume needs a taller terminal to show the list"@ })
    } else {
        r
    }
}

/// What an event leads to.
pub open spec fn loop_reaction(ui: UiModel, event: LoopEvent, snapshot: FrameState) -> Reaction {
    match event {
        LoopEvent::Frame | LoopEvent::OtherInput => quiet(ui),
        LoopEvent::SessionGone | LoopEvent::InputGone => leads_to(ui, FlowView::Quit),
        LoopEvent::Commands(commands) => quiet(
            UiModel { commands: candidates_view(commands@), ..ui },
        ),
        LoopEvent::Key { key, outcome } => unless_too_low(
            key_reaction(ui, key, outcome@, snapshot),
        ),
        LoopEvent::Sessions { query, found } => if found@.len() == 0 {
            sends(ui, nothing_found(query@))
        } else {
            quiet(ui.open_picker(candidates_view(found@)))
        },
    }
}

/// Takes an event. [`Flow::ListSessions`] is answered by [`LoopEvent::Sessions`] with the
/// same query; the other flows either draw the next frame or end the loop.
pub fn on_event(event: LoopEvent, local: &mut LocalUi, snapshot: &FrameState) -> (r: Step)
    requires
        old(local).wf(),
    ensures
        final(local).wf(),
        (Reaction { ui: final(local)@, step: r@ }) == loop_reaction(old(local)@, event, *snapshot),
{
    match event {
        LoopEvent::Frame | LoopEvent::OtherInput => Step { flow: Flow::Continue, command: None },
        LoopEvent::SessionGone | LoopEvent::InputGone => Step { flow: Flow::Quit, command: None },
        LoopEvent::Commands(commands) => {
            local.commands = commands;
            Step { flow: Flow::Continue, command: None }
        },
        LoopEvent::Key { key, outcome } => {
            let step = dispatch_outcome(&outcome, key, local, snapshot);
            match step.flow {
                Flow::ListSessions(query) => match refuse_session_list(local) {
                    Some(note) => Step { flow: Flow::Continue, command: Some(note) },
                    None => Step { flow: Flow::ListSessions(query), command: step.command },
                },
                flow => Step { flow, command: step.command },
            }
        },
        LoopEvent::Sessions { query, found } => {
            let command = sessions_found(local, query.as_str(), found);
            Step { flow: Flow::Continue, command }
        },
    }
}

/// A key that asks for the list of sessions asks for nothing else: where the list is
/// refused, no command is lost.
pub proof fn law_listing_sends_nothing(
    ui: UiModel,
    key: KeyEvent,
    outcome: OutcomeView,
    snapshot: FrameState,
)
    requires
        key_reaction(ui, key, outcome, snapshot).step.flow is ListSessions,
    ensures
        key_reaction(ui, key, outcome, snapshot).step.command is None,
{
}

/// The list of sessions is never asked for where it could not be drawn.
pub proof fn law_no_hidden_list(ui: UiModel, event: LoopEvent, snapshot: FrameState)
    requires
        ui.viewport_lines < MIN_LIST_LINES,
    ensures
        !(loop_reaction(ui, event, snapshot).step.flow is ListSessions),
{
}

// ---- one session after the other -----------------------------------------------------

/// What is done about the sessions themselves.
#[derive(Debug)]
pub enum SessionAction {
    /// The session is closed, and the program ends.
    Leave,
    /// That session is started, while the one before still runs.
    Start(Resume),
    /// The session before is closed; the one just started takes its place.
    Switch,
    /// The session before goes on, and its transcript says why.
    Stay(BridgeCommand),
}

/// What a [`SessionAction`] holds.
pub enum SessionActionView {
    Leave,
    Start(ResumeView),
    Switch,
    Stay(CommandView),
}

impl View for SessionAction {
    type V = SessionActionView;

    open spec fn view(&self) -> SessionActionView {
        match *self {
            SessionAction::Leave => SessionActionView::Leave,
            SessionAction::Start(r) => SessionActionView::Start(r@),
            SessionAction::Switch => SessionActionView::Switch,
            SessionAction::Stay(c) => SessionActionView::Stay(c@),
        }
    }
}

/// Decides what follows a session.
#[derive(Debug)]
pub struct SessionLoop {
    /// What the current session goes on with.
    pub current: Option<Resume>,
    /// What the session that is being started goes on with.
    pub next: Option<Resume>,
}

/// The state of a [`SessionLoop`].
pub struct SessionLoopModel {
    pub current: Option<ResumeView>,
    pub next: Option<ResumeView>,
}

pub open spec fn opt_resume(r: Option<Resume>) -> Option<ResumeView> {
    match r {
        Some(x) => Some(x@),
        None => None,
    }
}

impl View for SessionLoop {
    type V = SessionLoopModel;

    open spec fn view(&self) -> SessionLoopModel {
        SessionLoopModel { current: opt_resume(self.current), next: opt_resume(self.next) }
    }
}

impl SessionLoopModel {
    /// The event loop has ended.
    pub open spec fn ended(self, how: FlowView) -> (SessionLoopModel, SessionActionView) {
        match how {
            FlowView::Resume(id) => (
                SessionLoopModel { next: Some(ResumeView::Id(id)), ..self },
                SessionActionView::Start(ResumeView::Id(id)),
            ),
            _ => (self, SessionActionView::Leave),
        }
    }

    /// The next session was started, or could not be.
    pub open spec fn tried(self, error: Option<Seq<char>>) -> (
        SessionLoopModel,
        SessionActionView,
    ) {
        match error {
            None => (
                SessionLoopModel { current: self.next, next: None },
                SessionActionView::Switch,
            ),
            Some(e) => (
                SessionLoopModel { next: None, ..self },
                SessionActionView::Stay(
                    CommandView::Note { text: "/resume failed, staying in this session: "@ + e },
                ),
            ),
        }
    }
}

impl SessionLoop {
    pub fn new(current: Option<Resume>) -> (r: Self)
        ensures
            r@ == (SessionLoopModel { current: opt_resume(current), next: None }),
    {
        SessionLoop { current, next: None }
    }

    pub fn ended(&mut self, how: Flow) -> (r: SessionAction)
        ensures
            (final(self)@, r@) == old(self)@.ended(how@),
    {
        match how {
            Flow::Resume(id) => {
                self.next = Some(Resume::Id(id.clone()));
                SessionAction::Start(Resume::Id(id))
            },
            _ => SessionAction::Leave,
        }
    }

    pub fn tried(&mut self, error: Option<String>) -> (r: SessionAction)
        ensures
            (final(self)@, r@) == old(self)@.tried(
                match error {
                    Some(e) => Some(e@),
                    None => None,
                },
            ),
    {
        match error {
            None => {
                self.current = self.next.take();
                SessionAction::Switch
            },
            Some(e) => {
                self.next = None;
                SessionAction::Stay(resume_failed(e.as_str()))
            },
        }
    }
}

/// A session that cannot be started costs nothing: the one before goes on as it was.
pub proof fn law_failed_switch_stays(m: SessionLoopModel, id: Seq<char>, error: Seq<char>)
    ensures
        m.ended(FlowView::Resume(id)).0.tried(Some(error)).0.current == m.current,
        m.ended(FlowView::Resume(id)).0.tried(Some(error)).1 is Stay,
        m.ended(FlowView::Resume(id)).1 == SessionActionView::Start(ResumeView::Id(id)),
{
}

/// A session that was started takes the place of the one before.
pub proof fn law_switch_takes_over(m: SessionLoopModel, id: Seq<char>)
    ensures
        m.ended(FlowView::Resume(id)).0.tried(None) == (
            SessionLoopModel { current: Some(ResumeView::Id(id)), next: None },
            SessionActionView::Switch,
        ),
{
}

} // verus!
