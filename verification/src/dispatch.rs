//! What a key press does: to the local state, to the event loop, and to the engine.
//!
//! Each function returns a [`Step`]: how the event loop goes on, and the one command that
//! the engine gets, if any.

use crate::frame_state::{
    opt_text, options_view, AnswerWith, AskOption, AskRequest, FrameState, OptionView,
    TranscriptEntry,
};
use crate::handle::{BridgeCommand, BtwKey, CommandView};
use crate::keybindings::parser::{KeyCode, Shortcut};
use crate::keybindings::resolver::{
    press, shortcut_spec, KeyEvent, KeyPress, OutcomeView, ResolveOutcome, Resolver,
};
use crate::local_ui::{leading, LocalUi, UiModel};
use crate::picker::{
    accept_picker_candidate, accepted, already_typed_spec, command_picker_spec,
    compute_command_picker, move_picker_selection, moved_selection, picker_already_typed, step,
    step_spec,
};
use crate::text::{chars_of, is_whitespace, string_of, text_eq, trim, trim_spec};
use vstd::prelude::*;
use vstd::string::*;

verus! {

/// How the event loop goes on.
#[derive(Debug, PartialEq, Eq)]
pub enum Flow {
    Continue,
    Quit,
    /// Fetch the sessions that match, and show them. An empty query means the latest ones.
    ListSessions(String),
    /// Change to that session.
    Resume(String),
}

/// What a [`Flow`] holds.
pub enum FlowView {
    Continue,
    Quit,
    ListSessions(Seq<char>),
    Resume(Seq<char>),
}

impl View for Flow {
    type V = FlowView;

    open spec fn view(&self) -> FlowView {
        match *self {
            Flow::Continue => FlowView::Continue,
            Flow::Quit => FlowView::Quit,
            Flow::ListSessions(q) => FlowView::ListSessions(q@),
            Flow::Resume(id) => FlowView::Resume(id@),
        }
    }
}

/// The outcome of a key press beside the change of the local state.
#[derive(Debug)]
pub struct Step {
    pub flow: Flow,
    pub command: Option<BridgeCommand>,
}

/// What a [`Step`] holds.
pub struct StepView {
    pub flow: FlowView,
    pub command: Option<CommandView>,
}

impl View for Step {
    type V = StepView;

    open spec fn view(&self) -> StepView {
        StepView {
            flow: self.flow@,
            command: match self.command {
                Some(c) => Some(c@),
                None => None,
            },
        }
    }
}

/// The local state after a key press, and the rest of its outcome.
pub struct Reaction {
    pub ui: UiModel,
    pub step: StepView,
}

/// The loop goes on, and the engine gets nothing.
pub open spec fn quiet(ui: UiModel) -> Reaction {
    Reaction { ui, step: StepView { flow: FlowView::Continue, command: None } }
}

/// The loop goes on, and the engine gets a command.
pub open spec fn sends(ui: UiModel, command: CommandView) -> Reaction {
    Reaction { ui, step: StepView { flow: FlowView::Continue, command: Some(command) } }
}

/// The loop leaves, or does something of its own.
pub open spec fn leads_to(ui: UiModel, flow: FlowView) -> Reaction {
    Reaction { ui, step: StepView { flow, command: None } }
}

fn go_on() -> (r: Step)
    ensures
        r@ == (StepView { flow: FlowView::Continue, command: None }),
{
    Step { flow: Flow::Continue, command: None }
}

fn sending(command: BridgeCommand) -> (r: Step)
    ensures
        r@ == (StepView { flow: FlowView::Continue, command: Some(command@) }),
{
    Step { flow: Flow::Continue, command: Some(command) }
}

fn leading_to(flow: Flow) -> (r: Step)
    ensures
        r@ == (StepView { flow: flow@, command: None }),
{
    Step { flow, command: None }
}

// ---- the request that is open --------------------------------------------------------

/// The request being looked at.
pub open spec fn active_ask_spec(snapshot: FrameState) -> Option<AskRequest> {
    match snapshot.composer.content.ask {
        Some(ask) => ask.active_spec(),
        None => None,
    }
}

pub fn active_ask(snapshot: &FrameState) -> (r: Option<&AskRequest>)
    ensures
        r is Some == active_ask_spec(*snapshot) is Some,
        r matches Some(a) ==> Some(*a) == active_ask_spec(*snapshot),
{
    match &snapshot.composer.content.ask {
        Some(ask) => ask.active(),
        None => None,
    }
}

/// The request being looked at, where it is answered by choosing.
pub open spec fn active_choice_spec(snapshot: FrameState) -> Option<AskRequest> {
    match snapshot.composer.content.ask {
        Some(ask) => if ask.locks_composer_spec() {
            ask.active_spec()
        } else {
            None
        },
        None => None,
    }
}

pub fn active_choice(snapshot: &FrameState) -> (r: Option<&AskRequest>)
    ensures
        r is Some == active_choice_spec(*snapshot) is Some,
        r matches Some(a) ==> Some(*a) == active_choice_spec(*snapshot),
{
    match &snapshot.composer.content.ask {
        Some(ask) => if ask.locks_composer() {
            ask.active()
        } else {
            None
        },
        None => None,
    }
}

/// The request being looked at, where it is answered by typing.
pub open spec fn typed_question_spec(snapshot: FrameState) -> Option<AskRequest> {
    match active_ask_spec(snapshot) {
        Some(a) => if a.answer_with == AnswerWith::Type {
            Some(a)
        } else {
            None
        },
        None => None,
    }
}

pub fn pending_typed_question(snapshot: &FrameState) -> (r: Option<&AskRequest>)
    ensures
        r is Some == typed_question_spec(*snapshot) is Some,
        r matches Some(a) ==> Some(*a) == typed_question_spec(*snapshot),
{
    match active_ask(snapshot) {
        Some(a) => if a.answer_with == AnswerWith::Type {
            Some(a)
        } else {
            None
        },
        None => None,
    }
}

// ---- the side question ---------------------------------------------------------------

/// What a key does while the side question is open.
pub open spec fn btw_key_of(action: Seq<char>) -> Option<BtwKey> {
    if action == "editor.history.prev"@ || action == "ask.prev"@ {
        Some(BtwKey::Scroll((-1) as isize))
    } else if action == "editor.history.next"@ || action == "ask.next"@ {
        Some(BtwKey::Scroll(1))
    } else if action == "editor.cursor.left"@ {
        Some(BtwKey::Older)
    } else if action == "editor.cursor.right"@ {
        Some(BtwKey::Newer)
    } else if action == "btw.clear"@ {
        Some(BtwKey::ClearEarlier)
    } else if action == "repl.dismiss"@ || action == "repl.exit"@ || action == "editor.submit"@
        || action == "ask.confirm"@ {
        Some(BtwKey::Close)
    } else {
        None
    }
}

/// The side question takes its own keys and the one that cancels the turn behind it.
pub open spec fn btw_reaction(ui: UiModel, action: Seq<char>) -> Reaction {
    match btw_key_of(action) {
        Some(k) => sends(ui, CommandView::BtwKey(k)),
        None => if action == "repl.cancel"@ {
            sends(ui, CommandView::CancelTurn)
        } else {
            quiet(ui)
        },
    }
}

pub fn dispatch_btw_action(action: &str) -> (r: Step)
    ensures
        forall|ui: UiModel| r@ == (#[trigger] btw_reaction(ui, action@)).step,
{
    let key: BtwKey = if text_eq(action, "editor.history.prev") || text_eq(action, "ask.prev") {
        BtwKey::Scroll(-1)
    } else if text_eq(action, "editor.history.next") || text_eq(action, "ask.next") {
        BtwKey::Scroll(1)
    } else if text_eq(action, "editor.cursor.left") {
        BtwKey::Older
    } else if text_eq(action, "editor.cursor.right") {
        BtwKey::Newer
    } else if text_eq(action, "btw.clear") {
        BtwKey::ClearEarlier
    } else if text_eq(action, "repl.dismiss") || text_eq(action, "repl.exit") || text_eq(
        action,
        "editor.submit",
    ) || text_eq(action, "ask.confirm") {
        BtwKey::Close
    } else if text_eq(action, "repl.cancel") {
        return sending(BridgeCommand::CancelTurn);
    } else {
        return go_on();
    };
    sending(BridgeCommand::BtwKey(key))
}

// ---- the session list ----------------------------------------------------------------

/// What a key does while the session list is open.
pub open spec fn picker_reaction(ui: UiModel, action: Seq<char>) -> Reaction {
    let len = match ui.session_picker {
        Some(c) => c.len() as int,
        None => 0,
    };
    if action == "editor.history.prev"@ || action == "ask.prev"@ {
        quiet(
            UiModel {
                picker_selected: step_spec(ui.picker_selected as int, -1, len) as usize,
                ..ui
            },
        )
    } else if action == "editor.history.next"@ || action == "ask.next"@ {
        quiet(
            UiModel {
                picker_selected: step_spec(ui.picker_selected as int, 1, len) as usize,
                ..ui
            },
        )
    } else if action == "editor.submit"@ || action == "ask.confirm"@ {
        if ui.picker_selected < len {
            leads_to(
                ui.close_picker(),
                FlowView::Resume(ui.session_picker->0[ui.picker_selected as int].name),
            )
        } else {
            quiet(ui.close_picker())
        }
    } else if action == "repl.dismiss"@ || action == "repl.exit"@ {
        quiet(ui.close_picker())
    } else if action == "repl.cancel"@ {
        sends(ui, CommandView::CancelTurn)
    } else {
        quiet(ui)
    }
}

pub fn dispatch_picker_action(action: &str, local: &mut LocalUi) -> (r: Step)
    requires
        old(local).wf(),
    ensures
        final(local).wf(),
        (Reaction { ui: final(local)@, step: r@ }) == picker_reaction(old(local)@, action@),
{
    let len: usize = match &local.session_picker {
        Some(c) => c.len(),
        None => 0,
    };
    if text_eq(action, "editor.history.prev") || text_eq(action, "ask.prev") {
        local.picker_selected = step(local.picker_selected, -1, len);
        go_on()
    } else if text_eq(action, "editor.history.next") || text_eq(action, "ask.next") {
        local.picker_selected = step(local.picker_selected, 1, len);
        go_on()
    } else if text_eq(action, "editor.submit") || text_eq(action, "ask.confirm") {
        let picked: Option<String> = match &local.session_picker {
            Some(c) => if local.picker_selected < c.len() {
                Some(c[local.picker_selected].name.clone())
            } else {
                None
            },
            None => None,
        };
        local.close_picker();
        match picked {
            Some(id) => leading_to(Flow::Resume(id)),
            None => go_on(),
        }
    } else if text_eq(action, "repl.dismiss") || text_eq(action, "repl.exit") {
        local.close_picker();
        go_on()
    } else if text_eq(action, "repl.cancel") {
        sending(BridgeCommand::CancelTurn)
    } else {
        go_on()
    }
}

// ---- the dialog ----------------------------------------------------------------------

/// An answer to a request; both cursors of the dialog go back to the start.
pub open spec fn responded(ui: UiModel, req: AskRequest, decision: OptionView) -> Reaction {
    sends(
        ui.reset_ask_cursor(),
        CommandView::Respond { prompt_id: req.prompt_id@, decision },
    )
}

pub fn respond(local: &mut LocalUi, req: &AskRequest, decision: AskOption) -> (r: Step)
    requires
        old(local).wf(),
    ensures
        final(local).wf(),
        (Reaction { ui: final(local)@, step: r@ }) == responded(old(local)@, *req, decision@),
{
    local.reset_ask_cursor();
    sending(BridgeCommand::Respond { prompt_id: req.prompt_id.clone(), decision })
}

/// A shortcut for an option counts only where the request has that option.
pub open spec fn shortcut_reaction(ui: UiModel, req: AskRequest, option: OptionView) -> Reaction {
    if options_view(req.options@).contains(option) {
        responded(ui, req, option)
    } else {
        quiet(ui)
    }
}

pub fn shortcut(local: &mut LocalUi, req: &AskRequest, option: AskOption) -> (r: Step)
    requires
        old(local).wf(),
    ensures
        final(local).wf(),
        (Reaction { ui: final(local)@, step: r@ }) == shortcut_reaction(
            old(local)@,
            *req,
            option@,
        ),
{
    let ghost views = options_view(req.options@);
    let mut i: usize = 0;
    while i < req.options.len()
        invariant
            i <= req.options@.len(),
            views == options_view(req.options@),
            local.wf(),
            local@ == old(local)@,
            forall|j: int| 0 <= j < i ==> views[j] != option@,
        decreases req.options@.len() - i,
    {
        assert(views[i as int] == req.options@[i as int]@);
        if req.options[i].same(&option) {
            return respond(local, req, option);
        }
        i += 1;
    }
    go_on()
}

/// What a key does while a request is open that is answered by choosing.
pub open spec fn ask_reaction(
    ui: UiModel,
    action: Seq<char>,
    req: AskRequest,
    pending: int,
) -> Reaction {
    let options = req.options@.len() as int;
    if action == "ask.next-request"@ {
        quiet(
            UiModel {
                ask_active: step_spec(ui.ask_active as int, 1, pending) as usize,
                ask_selected: 0,
                ..ui
            },
        )
    } else if action == "editor.history.prev"@ || action == "ask.prev"@ {
        quiet(
            UiModel { ask_selected: step_spec(ui.ask_selected as int, -1, options) as usize, ..ui },
        )
    } else if action == "editor.history.next"@ || action == "ask.next"@ {
        quiet(
            UiModel { ask_selected: step_spec(ui.ask_selected as int, 1, options) as usize, ..ui },
        )
    } else if action == "editor.submit"@ || action == "ask.confirm"@ {
        if ui.ask_selected < options {
            responded(ui, req, req.options@[ui.ask_selected as int]@)
        } else {
            quiet(ui)
        }
    } else if action == "ask.yes-shortcut"@ {
        shortcut_reaction(ui, req, OptionView::PermitOnce)
    } else if action == "ask.no-shortcut"@ || action == "repl.dismiss"@ {
        shortcut_reaction(ui, req, OptionView::Deny)
    } else if action == "repl.cancel"@ {
        sends(ui, CommandView::CancelTurn)
    } else {
        quiet(ui)
    }
}

pub fn dispatch_ask_action(
    action: &str,
    local: &mut LocalUi,
    req: &AskRequest,
    pending: usize,
) -> (r: Step)
    requires
        old(local).wf(),
    ensures
        final(local).wf(),
        (Reaction { ui: final(local)@, step: r@ }) == ask_reaction(
            old(local)@,
            action@,
            *req,
            pending as int,
        ),
{
    if text_eq(action, "ask.next-request") {
        local.ask_active = step(local.ask_active, 1, pending);
        local.ask_selected = 0;
        go_on()
    } else if text_eq(action, "editor.history.prev") || text_eq(action, "ask.prev") {
        local.ask_selected = step(local.ask_selected, -1, req.options.len());
        go_on()
    } else if text_eq(action, "editor.history.next") || text_eq(action, "ask.next") {
        local.ask_selected = step(local.ask_selected, 1, req.options.len());
        go_on()
    } else if text_eq(action, "editor.submit") || text_eq(action, "ask.confirm") {
        if local.ask_selected < req.options.len() {
            let choice: AskOption = req.options[local.ask_selected].clone();
            respond(local, req, choice)
        } else {
            go_on()
        }
    } else if text_eq(action, "ask.yes-shortcut") {
        shortcut(local, req, AskOption::PermitOnce)
    } else if text_eq(action, "ask.no-shortcut") || text_eq(action, "repl.dismiss") {
        shortcut(local, req, AskOption::Deny)
    } else if text_eq(action, "repl.cancel") {
        sending(BridgeCommand::CancelTurn)
    } else {
        go_on()
    }
}

// ---- commands of the terminal --------------------------------------------------------

/// A slash command that the terminal handles by itself.
#[derive(Debug, PartialEq, Eq)]
pub enum LocalCommand {
    Quit,
    /// Without a name the current model is reported.
    Model(Option<String>),
    Doctor,
    Resume(String),
    Btw(String),
}

/// What a [`LocalCommand`] holds.
pub enum LocalCommandView {
    Quit,
    Model(Option<Seq<char>>),
    Doctor,
    Resume(Seq<char>),
    Btw(Seq<char>),
}

impl View for LocalCommand {
    type V = LocalCommandView;

    open spec fn view(&self) -> LocalCommandView {
        match *self {
            LocalCommand::Quit => LocalCommandView::Quit,
            LocalCommand::Model(name) => LocalCommandView::Model(opt_text(name)),
            LocalCommand::Doctor => LocalCommandView::Doctor,
            LocalCommand::Resume(q) => LocalCommandView::Resume(q@),
            LocalCommand::Btw(q) => LocalCommandView::Btw(q@),
        }
    }
}

/// The first word of a line.
pub open spec fn command_head(text: Seq<char>) -> Seq<char> {
    text.take(leading(text, false) as int)
}

/// What follows the first word, trimmed.
pub open spec fn command_rest(text: Seq<char>) -> Seq<char> {
    let k = leading(text, false) as int;
    trim_spec(
        if k < text.len() {
            text.skip(k + 1)
        } else {
            seq![]
        },
    )
}

/// The command of the terminal that a line is, if it is one.
pub open spec fn local_command_spec(text: Seq<char>) -> Option<LocalCommandView> {
    let head = command_head(text);
    let rest = command_rest(text);
    if head == "/quit"@ || head == "/exit"@ {
        Some(LocalCommandView::Quit)
    } else if head == "/model"@ {
        Some(
            LocalCommandView::Model(
                if rest.len() == 0 {
                    None
                } else {
                    Some(rest)
                },
            ),
        )
    } else if head == "/doctor"@ {
        Some(LocalCommandView::Doctor)
    } else if head == "/resume"@ {
        Some(LocalCommandView::Resume(rest))
    } else if head == "/btw"@ {
        Some(LocalCommandView::Btw(rest))
    } else {
        None
    }
}

/// What an optional command holds.
pub open spec fn local_command_view(c: Option<LocalCommand>) -> Option<LocalCommandView> {
    match c {
        Some(x) => Some(x@),
        None => None,
    }
}

pub fn local_command(text: &str) -> (r: Option<LocalCommand>)
    ensures
        local_command_view(r) == local_command_spec(text@),
{
    let v: Vec<char> = chars_of(text);
    let n: usize = v.len();
    let mut k: usize = 0;
    proof {
        assert(v@.skip(0) =~= v@);
    }
    while k < n && !is_whitespace(v[k])
        invariant
            k <= n == v@.len(),
            leading(v@, false) == k + leading(v@.skip(k as int), false),
        decreases n - k,
    {
        assert(v@.skip(k as int).drop_first() =~= v@.skip(k + 1));
        k += 1;
    }
    let head: String = string_of(vstd::slice::slice_subrange(v.as_slice(), 0, k));
    let tail: String = if k < n {
        string_of(vstd::slice::slice_subrange(v.as_slice(), k + 1, n))
    } else {
        String::new()
    };
    let rest: String = trim(tail.as_str());
    let head: &str = head.as_str();
    if text_eq(head, "/quit") || text_eq(head, "/exit") {
        Some(LocalCommand::Quit)
    } else if text_eq(head, "/model") {
        if rest.as_str().is_empty() {
            Some(LocalCommand::Model(None))
        } else {
            Some(LocalCommand::Model(Some(rest)))
        }
    } else if text_eq(head, "/doctor") {
        Some(LocalCommand::Doctor)
    } else if text_eq(head, "/resume") {
        Some(LocalCommand::Resume(rest))
    } else if text_eq(head, "/btw") {
        Some(LocalCommand::Btw(rest))
    } else {
        None
    }
}

/// The state after the draft was sent off: it is empty, the history has the text, and the
/// view follows the end again.
pub open spec fn sent_off(ui: UiModel) -> UiModel {
    UiModel {
        draft: seq![],
        cursor: 0,
        scroll_offset: None,
        selected_block: None,
        ..ui.remember(ui.draft).noted()
    }
}

/// What submitting the draft does. A question that waits for a line takes it before it is
/// looked at as a command.
pub open spec fn submit_reaction(ui: UiModel, snapshot: FrameState) -> Reaction {
    let after = sent_off(ui);
    if ui.draft.len() == 0 {
        quiet(ui)
    } else {
        match typed_question_spec(snapshot) {
            Some(req) => sends(
                after.reset_ask_cursor(),
                CommandView::AnswerQuestion { prompt_id: req.prompt_id@, text: ui.draft },
            ),
            None => match local_command_spec(ui.draft) {
                Some(LocalCommandView::Quit) => leads_to(after, FlowView::Quit),
                Some(LocalCommandView::Resume(q)) => leads_to(after, FlowView::ListSessions(q)),
                Some(LocalCommandView::Model(Some(name))) => sends(
                    after,
                    CommandView::SetModel { name },
                ),
                Some(LocalCommandView::Model(None)) => sends(
                    after,
                    CommandView::Note {
                        text: "current model: "@ + snapshot.footer_hints.model@
                            + " · usage: /model <name>"@,
                    },
                ),
                Some(LocalCommandView::Doctor) => sends(after, CommandView::Doctor),
                Some(LocalCommandView::Btw(question)) => sends(
                    after,
                    CommandView::Btw { question },
                ),
                None => sends(after, CommandView::Submit { text: ui.draft }),
            },
        }
    }
}

pub fn submit(local: &mut LocalUi, snapshot: &FrameState) -> (r: Step)
    requires
        old(local).wf(),
    ensures
        final(local).wf(),
        (Reaction { ui: final(local)@, step: r@ }) == submit_reaction(old(local)@, *snapshot),
{
    if local.draft.as_str().is_empty() {
        return go_on();
    }
    let text: String = local.draft.clone();
    local.remember(text.as_str());
    local.set_draft(String::new());
    local.note_draft_changed();
    local.scroll_offset = None;
    local.selected_block = None;
    match pending_typed_question(snapshot) {
        Some(req) => {
            local.reset_ask_cursor();
            return sending(
                BridgeCommand::AnswerQuestion { prompt_id: req.prompt_id.clone(), text },
            );
        },
        None => {},
    }
    match local_command(text.as_str()) {
        Some(LocalCommand::Quit) => leading_to(Flow::Quit),
        Some(LocalCommand::Resume(query)) => leading_to(Flow::ListSessions(query)),
        Some(LocalCommand::Model(Some(name))) => sending(BridgeCommand::SetModel { name }),
        Some(LocalCommand::Model(None)) => sending(
            BridgeCommand::Note {
                text: "current model: ".to_owned().concat(
                    snapshot.footer_hints.model.as_str(),
                ).concat(" · usage: /model <name>"),
            },
        ),
        Some(LocalCommand::Doctor) => sending(BridgeCommand::Doctor),
        Some(LocalCommand::Btw(question)) => sending(BridgeCommand::Btw { question }),
        None => sending(BridgeCommand::Submit { text }),
    }
}

// ---- the editor ----------------------------------------------------------------------

/// The block of the last line that belongs to one.
pub open spec fn latest_block(entries: Seq<TranscriptEntry>) -> Option<Seq<char>>
    decreases entries.len(),
{
    if entries.len() == 0 {
        None
    } else {
        match opt_text(entries.last().block_id) {
            Some(id) => Some(id),
            None => latest_block(entries.drop_last()),
        }
    }
}

/// The selected block, or the latest one, is folded or unfolded.
pub open spec fn toggle_reaction(ui: UiModel, snapshot: FrameState) -> Reaction {
    let target = match ui.selected_block {
        Some(id) => Some(id),
        None => latest_block(snapshot.transcript.body.entries@),
    };
    match target {
        Some(block_id) => sends(ui, CommandView::ToggleExpand { block_id }),
        None => quiet(ui),
    }
}

pub fn toggle_selected_block(local: &LocalUi, snapshot: &FrameState) -> (r: Step)
    ensures
        r@ == toggle_reaction(local@, *snapshot).step,
{
    match &local.selected_block {
        Some(id) => {
            return sending(BridgeCommand::ToggleExpand { block_id: id.clone() });
        },
        None => {},
    }
    let entries = &snapshot.transcript.body.entries;
    let mut n: usize = entries.len();
    proof {
        assert(entries@.take(n as int) =~= entries@);
    }
    while n > 0
        invariant
            n <= entries@.len(),
            entries@ == snapshot.transcript.body.entries@,
            local@.selected_block is None,
            latest_block(entries@) == latest_block(entries@.take(n as int)),
        decreases n,
    {
        assert(entries@.take(n as int).drop_last() =~= entries@.take(n - 1));
        match &entries[n - 1].block_id {
            Some(id) => {
                return sending(BridgeCommand::ToggleExpand { block_id: id.clone() });
            },
            None => {},
        }
        n -= 1;
    }
    go_on()
}

/// What an action does when the editor has the keyboard.
pub open spec fn action_reaction(ui: UiModel, action: Seq<char>, snapshot: FrameState) -> Reaction {
    let picking = command_picker_spec(ui) is Some;
    let entries = snapshot.transcript.body.entries@;
    if action == "editor.submit"@ {
        if picking && !already_typed_spec(ui) {
            quiet(accepted(ui))
        } else {
            submit_reaction(ui, snapshot)
        }
    } else if action == "editor.newline"@ {
        quiet(ui.insert('\n'))
    } else if action == "editor.clear"@ {
        quiet(UiModel { draft: seq![], cursor: 0, ..ui.noted() })
    } else if action == "editor.delete-word"@ {
        quiet(ui.delete_word_before())
    } else if action == "editor.kill-to-eol"@ {
        quiet(ui.kill_to_line_end())
    } else if action == "editor.delete-forward"@ {
        quiet(ui.delete_forward())
    } else if action == "editor.cursor.left"@ {
        quiet(ui.move_char(-1))
    } else if action == "editor.cursor.right"@ {
        quiet(ui.move_char(1))
    } else if action == "editor.cursor.word-left"@ {
        quiet(ui.move_word(-1))
    } else if action == "editor.cursor.word-right"@ {
        quiet(ui.move_word(1))
    } else if action == "editor.cursor.line-start"@ {
        quiet(ui.at(ui.line_start()))
    } else if action == "editor.cursor.line-end"@ {
        quiet(ui.at(ui.line_end()))
    } else if action == "editor.redraw"@ {
        quiet(UiModel { redraw_requested: true, ..ui })
    } else if action == "editor.history.prev"@ {
        quiet(
            if picking {
                moved_selection(ui, -1)
            } else {
                ui.up()
            },
        )
    } else if action == "editor.history.next"@ {
        quiet(
            if picking {
                moved_selection(ui, 1)
            } else {
                ui.down()
            },
        )
    } else if action == "repl.scroll-up"@ {
        quiet(ui.scroll_up(entries.len() as int))
    } else if action == "repl.scroll-down"@ {
        quiet(ui.scroll_down(entries.len() as int))
    } else if action == "repl.cancel"@ {
        sends(ui, CommandView::CancelTurn)
    } else if action == "repl.exit"@ {
        if ui.draft.len() == 0 {
            leads_to(ui, FlowView::Quit)
        } else {
            quiet(ui)
        }
    } else if action == "repl.dismiss"@ {
        if picking {
            quiet(UiModel { picker_dismissed: true, ..ui })
        } else {
            quiet(UiModel { selected_block: None, ..ui })
        }
    } else if action == "ask.next-request"@ {
        match snapshot.composer.content.ask {
            Some(ask) => quiet(
                UiModel {
                    ask_active: step_spec(
                        ui.ask_active as int,
                        1,
                        ask.pending@.len() as int,
                    ) as usize,
                    ask_selected: 0,
                    ..ui
                },
            ),
            None => quiet(ui),
        }
    } else if action == "transcript.select-prev"@ {
        quiet(ui.select_block(entries, -1))
    } else if action == "transcript.select-next"@ {
        quiet(ui.select_block(entries, 1))
    } else if action == "transcript.toggle-expand"@ {
        toggle_reaction(ui, snapshot)
    } else {
        quiet(ui)
    }
}

pub fn dispatch_action(action: &str, local: &mut LocalUi, snapshot: &FrameState) -> (r: Step)
    requires
        old(local).wf(),
    ensures
        final(local).wf(),
        (Reaction { ui: final(local)@, step: r@ }) == action_reaction(
            old(local)@,
            action@,
            *snapshot,
        ),
{
    let picking: bool = compute_command_picker(local).is_some();
    if text_eq(action, "editor.submit") {
        if picking && !picker_already_typed(local) {
            accept_picker_candidate(local);
        } else {
            return submit(local, snapshot);
        }
    } else if text_eq(action, "editor.newline") {
        local.insert('\n');
    } else if text_eq(action, "editor.clear") {
        local.set_draft(String::new());
        local.note_draft_changed();
    } else if text_eq(action, "editor.delete-word") {
        local.delete_word_before();
    } else if text_eq(action, "editor.kill-to-eol") {
        local.kill_to_line_end();
    } else if text_eq(action, "editor.delete-forward") {
        local.delete_forward();
    } else if text_eq(action, "editor.cursor.left") {
        local.move_char(-1);
    } else if text_eq(action, "editor.cursor.right") {
        local.move_char(1);
    } else if text_eq(action, "editor.cursor.word-left") {
        local.move_word(-1);
    } else if text_eq(action, "editor.cursor.word-right") {
        local.move_word(1);
    } else if text_eq(action, "editor.cursor.line-start") {
        local.move_to_line_start();
    } else if text_eq(action, "editor.cursor.line-end") {
        local.move_to_line_end();
    } else if text_eq(action, "editor.redraw") {
        local.redraw_requested = true;
    } else if text_eq(action, "editor.history.prev") {
        if picking {
            move_picker_selection(local, -1);
        } else {
            local.up();
        }
    } else if text_eq(action, "editor.history.next") {
        if picking {
            move_picker_selection(local, 1);
        } else {
            local.down();
        }
    } else if text_eq(action, "repl.scroll-up") {
        local.scroll_up(snapshot.transcript.body.entries.len());
    } else if text_eq(action, "repl.scroll-down") {
        local.scroll_down(snapshot.transcript.body.entries.len());
    } else if text_eq(action, "repl.cancel") {
        return sending(BridgeCommand::CancelTurn);
    } else if text_eq(action, "repl.exit") {
        if local.draft.as_str().is_empty() {
            return leading_to(Flow::Quit);
        }
    } else if text_eq(action, "repl.dismiss") {
        if picking {
            local.picker_dismissed = true;
        } else {
            local.selected_block = None;
        }
    } else if text_eq(action, "ask.next-request") {
        match &snapshot.composer.content.ask {
            Some(ask) => {
                local.ask_active = step(local.ask_active, 1, ask.pending.len());
                local.ask_selected = 0;
            },
            None => {},
        }
    } else if text_eq(action, "transcript.select-prev") {
        local.select_block(snapshot, -1);
    } else if text_eq(action, "transcript.select-next") {
        local.select_block(snapshot, 1);
    } else if text_eq(action, "transcript.toggle-expand") {
        return toggle_selected_block(local, snapshot);
    }
    go_on()
}

/// A key that is typed: a character goes into the draft unless Ctrl is held, and Backspace
/// takes one out.
pub open spec fn typed(ui: UiModel, key: KeyEvent) -> UiModel {
    match key.code {
        KeyPress::Char(c) => if key.control {
            ui
        } else {
            ui.insert(c)
        },
        KeyPress::Backspace => ui.delete_backward(),
        _ => ui,
    }
}

pub fn insert_char(key: KeyEvent, local: &mut LocalUi)
    requires
        old(local).wf(),
    ensures
        final(local).wf(),
        final(local)@ == typed(old(local)@, key),
{
    match key.code {
        KeyPress::Char(c) => {
            if !key.control {
                local.insert(c);
            }
        },
        KeyPress::Backspace => local.delete_backward(),
        _ => {},
    }
}

// ---- who has the keyboard ------------------------------------------------------------

/// The actions bound to bare characters, which are plain input where the region that they
/// belong to is not open.
pub open spec fn is_bare_character(action: Seq<char>) -> bool {
    action == "ask.yes-shortcut"@ || action == "ask.no-shortcut"@ || action == "btw.clear"@
}

/// A bare `x`. Inside the side question it clears the earlier exchanges where nothing else is
/// bound to it; anywhere else it is plain input.
pub open spec fn clear_key() -> Shortcut {
    Shortcut { modifiers: 0, key: KeyCode::Char('x') }
}

/// What the resolved key does. The keyboard belongs to the side question, then to a request
/// that is answered by choosing, then to the session list, then to the editor.
pub open spec fn key_reaction(
    ui: UiModel,
    key: KeyEvent,
    outcome: OutcomeView,
    snapshot: FrameState,
) -> Reaction {
    if snapshot.btw is Some {
        match outcome {
            OutcomeView::Action(action) => btw_reaction(ui, action),
            OutcomeView::Unmatched(s) => if s == clear_key() {
                sends(ui, CommandView::BtwKey(BtwKey::ClearEarlier))
            } else {
                quiet(ui)
            },
            _ => quiet(ui),
        }
    } else if active_choice_spec(snapshot) is Some {
        match outcome {
            OutcomeView::Action(action) => ask_reaction(
                ui,
                action,
                active_choice_spec(snapshot)->0,
                snapshot.composer.content.ask->0.pending@.len() as int,
            ),
            _ => quiet(ui),
        }
    } else if ui.session_picker is Some {
        match outcome {
            OutcomeView::Action(action) => picker_reaction(ui, action),
            _ => quiet(ui),
        }
    } else {
        match outcome {
            OutcomeView::Action(action) => if is_bare_character(action) {
                quiet(typed(ui, key))
            } else {
                action_reaction(ui, action, snapshot)
            },
            OutcomeView::Unmatched(_) => quiet(typed(ui, key)),
            _ => quiet(ui),
        }
    }
}

/// Routes a resolved key to whoever has the keyboard.
pub fn dispatch_outcome(
    outcome: &ResolveOutcome,
    key: KeyEvent,
    local: &mut LocalUi,
    snapshot: &FrameState,
) -> (r: Step)
    requires
        old(local).wf(),
    ensures
        final(local).wf(),
        (Reaction { ui: final(local)@, step: r@ }) == key_reaction(
            old(local)@,
            key,
            outcome@,
            *snapshot,
        ),
{
    if snapshot.btw.is_some() {
        return match outcome {
            ResolveOutcome::Action(action) => {
                let step = dispatch_btw_action(action.as_str());
                step
            },
            ResolveOutcome::Unmatched(s) => if s.modifiers == 0 && s.key == KeyCode::Char('x') {
                sending(BridgeCommand::BtwKey(BtwKey::ClearEarlier))
            } else {
                go_on()
            },
            _ => go_on(),
        };
    }
    match active_choice(snapshot) {
        Some(req) => {
            let pending: usize = match &snapshot.composer.content.ask {
                Some(ask) => ask.pending.len(),
                None => 1,
            };
            return match outcome {
                ResolveOutcome::Action(action) => dispatch_ask_action(
                    action.as_str(),
                    local,
                    req,
                    pending,
                ),
                _ => go_on(),
            };
        },
        None => {},
    }
    if local.session_picker.is_some() {
        return match outcome {
            ResolveOutcome::Action(action) => dispatch_picker_action(action.as_str(), local),
            _ => go_on(),
        };
    }
    match outcome {
        ResolveOutcome::Action(action) => {
            let action: &str = action.as_str();
            if text_eq(action, "ask.yes-shortcut") || text_eq(action, "ask.no-shortcut") || text_eq(
                action,
                "btw.clear",
            ) {
                insert_char(key, local);
                go_on()
            } else {
                dispatch_action(action, local, snapshot)
            }
        },
        ResolveOutcome::Unmatched(_) => {
            insert_char(key, local);
            go_on()
        },
        _ => go_on(),
    }
}

/// The outcome of a key at the resolver, and the keys that it holds from then on.
pub open spec fn resolved(resolver: Resolver, key: KeyEvent) -> (OutcomeView, Seq<Shortcut>) {
    match shortcut_spec(key) {
        Some(s) => press(resolver.table(), resolver.prefix(), s),
        None => (
            OutcomeView::Unmatched(Shortcut { modifiers: 0, key: KeyCode::Char('?') }),
            Seq::<Shortcut>::empty(),
        ),
    }
}

/// Takes a key press: resolves it, and routes it.
pub fn dispatch_key(
    key: KeyEvent,
    resolver: &mut Resolver,
    local: &mut LocalUi,
    snapshot: &FrameState,
) -> (r: Step)
    requires
        old(local).wf(),
    ensures
        final(local).wf(),
        final(resolver).table() == old(resolver).table(),
        final(resolver).prefix() == resolved(*old(resolver), key).1,
        (Reaction { ui: final(local)@, step: r@ }) == key_reaction(
            old(local)@,
            key,
            resolved(*old(resolver), key).0,
            *snapshot,
        ),
{
    let outcome: ResolveOutcome = resolver.on_key(&key);
    dispatch_outcome(&outcome, key, local, snapshot)
}

} // verus!
