//! The commands that the terminal gives, and what each of them does: to the state of the
//! session, to the engine, and to whoever waits for an answer.

use crate::ask::Questions;
use crate::doctor::{report_spec, HealthReport};
use crate::domain::Now;
use crate::frame_state::{AskOption, OptionView};
use crate::reducer::{Reducer, ReducerModel};
use vstd::prelude::*;
use vstd::string::*;

verus! {

/// The engine has gone.
#[derive(Debug, Clone, Copy, PartialEq, Eq, Structural)]
pub enum BridgeError {
    EngineStopped,
}

impl BridgeError {
    /// The error in words.
    pub fn message(&self) -> (r: &'static str)
        ensures
            r@ == "engine is no longer running (input channel closed)"@,
    {
        "engine is no longer running (input channel closed)"
    }
}

/// A key that acts on the open side question.
#[derive(Debug, Clone, Copy, PartialEq, Eq, Structural)]
pub enum BtwKey {
    /// Scrolls the answer by lines.
    Scroll(isize),
    /// Shows the exchange before.
    Older,
    /// Shows the exchange after.
    Newer,
    ClearEarlier,
    Close,
}

#[derive(Debug)]
pub enum BridgeCommand {
    Submit { text: String },
    /// An option of a request was chosen. The option tells which gate the answer is for.
    Respond { prompt_id: String, decision: AskOption },
    /// A line was typed in answer to a question.
    AnswerQuestion { prompt_id: String, text: String },
    ToggleExpand { block_id: String },
    CancelTurn,
    /// Another model, from the next turn on.
    SetModel { name: String },
    /// A line for the transcript that the engine does not see.
    Note { text: String },
    Doctor,
    /// A side question; without a text the earlier ones are shown again.
    Btw { question: String },
    BtwKey(BtwKey),
}

/// What a [`BridgeCommand`] holds.
pub enum CommandView {
    Submit { text: Seq<char> },
    Respond { prompt_id: Seq<char>, decision: OptionView },
    AnswerQuestion { prompt_id: Seq<char>, text: Seq<char> },
    ToggleExpand { block_id: Seq<char> },
    CancelTurn,
    SetModel { name: Seq<char> },
    Note { text: Seq<char> },
    Doctor,
    Btw { question: Seq<char> },
    BtwKey(BtwKey),
}

impl View for BridgeCommand {
    type V = CommandView;

    open spec fn view(&self) -> CommandView {
        match *self {
            BridgeCommand::Submit { text } => CommandView::Submit { text: text@ },
            BridgeCommand::Respond { prompt_id, decision } => CommandView::Respond {
                prompt_id: prompt_id@,
                decision: decision@,
            },
            BridgeCommand::AnswerQuestion { prompt_id, text } => CommandView::AnswerQuestion {
                prompt_id: prompt_id@,
                text: text@,
            },
            BridgeCommand::ToggleExpand { block_id } => CommandView::ToggleExpand {
                block_id: block_id@,
            },
            BridgeCommand::CancelTurn => CommandView::CancelTurn,
            BridgeCommand::SetModel { name } => CommandView::SetModel { name: name@ },
            BridgeCommand::Note { text } => CommandView::Note { text: text@ },
            BridgeCommand::Doctor => CommandView::Doctor,
            BridgeCommand::Btw { question } => CommandView::Btw { question: question@ },
            BridgeCommand::BtwKey(k) => CommandView::BtwKey(k),
        }
    }
}

impl Clone for BridgeCommand {
    fn clone(&self) -> (r: Self)
        ensures
            r@ == self@,
    {
        match self {
            BridgeCommand::Submit { text } => BridgeCommand::Submit { text: text.clone() },
            BridgeCommand::Respond { prompt_id, decision } => BridgeCommand::Respond {
                prompt_id: prompt_id.clone(),
                decision: decision.clone(),
            },
            BridgeCommand::AnswerQuestion { prompt_id, text } => BridgeCommand::AnswerQuestion {
                prompt_id: prompt_id.clone(),
                text: text.clone(),
            },
            BridgeCommand::ToggleExpand { block_id } => BridgeCommand::ToggleExpand {
                block_id: block_id.clone(),
            },
            BridgeCommand::CancelTurn => BridgeCommand::CancelTurn,
            BridgeCommand::SetModel { name } => BridgeCommand::SetModel { name: name.clone() },
            BridgeCommand::Note { text } => BridgeCommand::Note { text: text.clone() },
            BridgeCommand::Doctor => BridgeCommand::Doctor,
            BridgeCommand::Btw { question } => BridgeCommand::Btw { question: question.clone() },
            BridgeCommand::BtwKey(k) => BridgeCommand::BtwKey(*k),
        }
    }
}

// ---- what goes out -------------------------------------------------------------------

/// How long a permission lasts.
#[derive(Debug, Clone, Copy, PartialEq, Eq, Structural)]
pub enum PersistScope {
    Session,
    Local,
}

/// The answer to a permission request.
#[derive(Debug)]
pub enum PermissionDecision {
    Permit,
    PermitAlways { scope: PersistScope },
    Deny { reason: String },
}

#[derive(Debug, Clone, Copy, PartialEq, Eq, Structural)]
pub enum EngineCommand {
    CancelTurn,
    UpdateModel,
}

/// A message to the engine.
#[derive(Debug)]
pub enum InputMessage {
    User { content: String, turn_id: String },
    PermissionResponse { prompt_id: String, decision: PermissionDecision },
    System { kind: EngineCommand, content: String },
}

/// What a [`PermissionDecision`] holds.
pub enum DecisionView {
    Permit,
    PermitAlways { scope: PersistScope },
    Deny { reason: Seq<char> },
}

/// What an [`InputMessage`] holds.
pub enum MessageView {
    User { content: Seq<char>, turn_id: Seq<char> },
    PermissionResponse { prompt_id: Seq<char>, decision: DecisionView },
    System { kind: EngineCommand, content: Seq<char> },
}

impl View for PermissionDecision {
    type V = DecisionView;

    open spec fn view(&self) -> DecisionView {
        match *self {
            PermissionDecision::Permit => DecisionView::Permit,
            PermissionDecision::PermitAlways { scope } => DecisionView::PermitAlways { scope },
            PermissionDecision::Deny { reason } => DecisionView::Deny { reason: reason@ },
        }
    }
}

impl View for InputMessage {
    type V = MessageView;

    open spec fn view(&self) -> MessageView {
        match *self {
            InputMessage::User { content, turn_id } => MessageView::User {
                content: content@,
                turn_id: turn_id@,
            },
            InputMessage::PermissionResponse { prompt_id, decision } =>
                MessageView::PermissionResponse { prompt_id: prompt_id@, decision: decision@ },
            InputMessage::System { kind, content } => MessageView::System {
                kind,
                content: content@,
            },
        }
    }
}

/// What a command sends out, beside what it does to the state.
#[derive(Debug)]
pub enum Outbound {
    /// Nothing.
    Nothing,
    /// A message to the engine.
    Engine(InputMessage),
    /// An answer to whoever waits for that question.
    Answer { prompt_id: String, text: String },
    /// A side question.
    Side { question: String },
    /// A key for the side question.
    SideKey(BtwKey),
}

/// What an [`Outbound`] holds.
pub enum OutboundView {
    Nothing,
    Engine(MessageView),
    Answer { prompt_id: Seq<char>, text: Seq<char> },
    Side { question: Seq<char> },
    SideKey(BtwKey),
}

impl View for Outbound {
    type V = OutboundView;

    open spec fn view(&self) -> OutboundView {
        match *self {
            Outbound::Nothing => OutboundView::Nothing,
            Outbound::Engine(m) => OutboundView::Engine(m@),
            Outbound::Answer { prompt_id, text } => OutboundView::Answer {
                prompt_id: prompt_id@,
                text: text@,
            },
            Outbound::Side { question } => OutboundView::Side { question: question@ },
            Outbound::SideKey(k) => OutboundView::SideKey(k),
        }
    }
}

/// The answer to the permission gate that an option stands for. The three ways to permit
/// are three different answers. An option of a question is for another gate.
pub open spec fn decision_spec(option: OptionView) -> Option<DecisionView> {
    match option {
        OptionView::PermitOnce => Some(DecisionView::Permit),
        OptionView::PermitSession => Some(
            DecisionView::PermitAlways { scope: PersistScope::Session },
        ),
        OptionView::PermitProject => Some(DecisionView::PermitAlways { scope: PersistScope::Local }),
        OptionView::Deny => Some(DecisionView::Deny { reason: "denied by user"@ }),
        OptionView::Answer { .. } => None,
    }
}

/// What a command does to the state of the session.
pub open spec fn command_applied(
    m: ReducerModel,
    cmd: CommandView,
    turn_id: Seq<char>,
    now: Now,
    health: Option<HealthReport>,
) -> ReducerModel {
    match cmd {
        CommandView::Submit { text } => m.begun(turn_id, text, now),
        CommandView::Respond { prompt_id, .. } => m.resolved(prompt_id),
        CommandView::AnswerQuestion { prompt_id, .. } => m.resolved(prompt_id),
        CommandView::ToggleExpand { block_id } => m.toggled(block_id),
        CommandView::CancelTurn => m.cancelling(now),
        CommandView::SetModel { name } => m.with_model(name),
        CommandView::Note { text } => m.noted(text),
        CommandView::Doctor => m.noted(
            match health {
                Some(report) => report_spec(report),
                None => "doctor: no engine is attached to this session"@,
            },
        ),
        CommandView::Btw { .. } => m,
        CommandView::BtwKey(_) => m,
    }
}

/// What a command sends out. `waiting` says whether somebody waits for the question that it
/// answers; an answer that nobody waits for goes nowhere.
pub open spec fn command_sends(
    cmd: CommandView,
    turn_id: Seq<char>,
    waiting: Set<Seq<char>>,
) -> OutboundView {
    match cmd {
        CommandView::Submit { text } => OutboundView::Engine(
            MessageView::User { content: text, turn_id },
        ),
        CommandView::Respond { prompt_id, decision } => match decision {
            OptionView::Answer { key, .. } => answer_sends(prompt_id, key, waiting),
            _ => OutboundView::Engine(
                MessageView::PermissionResponse {
                    prompt_id,
                    decision: decision_spec(decision)->0,
                },
            ),
        },
        CommandView::AnswerQuestion { prompt_id, text } => answer_sends(prompt_id, text, waiting),
        CommandView::CancelTurn => OutboundView::Engine(
            MessageView::System { kind: EngineCommand::CancelTurn, content: seq![] },
        ),
        CommandView::SetModel { name } => OutboundView::Engine(
            MessageView::System { kind: EngineCommand::UpdateModel, content: name },
        ),
        CommandView::Btw { question } => OutboundView::Side { question },
        CommandView::BtwKey(k) => OutboundView::SideKey(k),
        CommandView::ToggleExpand { .. } => OutboundView::Nothing,
        CommandView::Note { .. } => OutboundView::Nothing,
        CommandView::Doctor => OutboundView::Nothing,
    }
}

pub open spec fn answer_sends(
    prompt_id: Seq<char>,
    text: Seq<char>,
    waiting: Set<Seq<char>>,
) -> OutboundView {
    if waiting.contains(prompt_id) {
        OutboundView::Answer { prompt_id, text }
    } else {
        OutboundView::Nothing
    }
}

/// Who waits for answers after a command.
pub open spec fn still_waiting(cmd: CommandView, waiting: Set<Seq<char>>) -> Set<Seq<char>> {
    match cmd {
        CommandView::Respond { prompt_id, decision } => if decision is Answer {
            waiting.remove(prompt_id)
        } else {
            waiting
        },
        CommandView::AnswerQuestion { prompt_id, .. } => waiting.remove(prompt_id),
        _ => waiting,
    }
}

/// The state of a session, and who waits for answers in it.
#[derive(Debug)]
pub struct BridgeHandle {
    pub reducer: Reducer,
    pub questions: Questions,
}

impl BridgeHandle {
    pub fn new(reducer: Reducer, questions: Questions) -> (r: Self)
        ensures
            r.reducer == reducer,
            r.questions == questions,
    {
        BridgeHandle { reducer, questions }
    }

    /// Hands an answer on, and takes the dialog away. It is no error that nobody waits any
    /// more.
    fn answer_question(&mut self, prompt_id: String, text: String) -> (r: Outbound)
        requires
            old(self).questions.wf(),
        ensures
            final(self).questions.wf(),
            final(self).questions.ids() == old(self).questions.ids().remove(prompt_id@),
            final(self).reducer@ == old(self).reducer@.resolved(prompt_id@),
            r@ == answer_sends(prompt_id@, text@, old(self).questions.ids()),
    {
        let waited: bool = self.questions.answer(prompt_id.as_str());
        self.reducer.resolve_prompt(prompt_id.as_str());
        if waited {
            Outbound::Answer { prompt_id, text }
        } else {
            Outbound::Nothing
        }
    }

    /// Carries a command out. `turn_id` is a fresh id for the turn that a submission begins;
    /// `health` is what the engine reports of itself, where one is attached.
    pub fn dispatch(
        &mut self,
        cmd: BridgeCommand,
        turn_id: String,
        now: Now,
        health: Option<HealthReport>,
    ) -> (r: Outbound)
        requires
            old(self).questions.wf(),
        ensures
            final(self).questions.wf(),
            final(self).reducer@ == command_applied(
                old(self).reducer@,
                cmd@,
                turn_id@,
                now,
                health,
            ),
            final(self).questions.ids() == still_waiting(cmd@, old(self).questions.ids()),
            r@ == command_sends(cmd@, turn_id@, old(self).questions.ids()),
    {
        match cmd {
            BridgeCommand::Submit { text } => {
                self.reducer.begin_turn(turn_id.clone(), text.clone(), now);
                Outbound::Engine(InputMessage::User { content: text, turn_id })
            },
            BridgeCommand::Respond { prompt_id, decision } => {
                let decision: PermissionDecision = match decision {
                    AskOption::Answer { key, label: _ } => {
                        return self.answer_question(prompt_id, key);
                    },
                    AskOption::Deny => PermissionDecision::Deny {
                        reason: "denied by user".to_owned(),
                    },
                    AskOption::PermitOnce => PermissionDecision::Permit,
                    AskOption::PermitSession => PermissionDecision::PermitAlways {
                        scope: PersistScope::Session,
                    },
                    AskOption::PermitProject => PermissionDecision::PermitAlways {
                        scope: PersistScope::Local,
                    },
                };
                self.reducer.resolve_prompt(prompt_id.as_str());
                Outbound::Engine(InputMessage::PermissionResponse { prompt_id, decision })
            },
            BridgeCommand::AnswerQuestion { prompt_id, text } => self.answer_question(
                prompt_id,
                text,
            ),
            BridgeCommand::ToggleExpand { block_id } => {
                self.reducer.toggle_expand(block_id.as_str());
                Outbound::Nothing
            },
            BridgeCommand::CancelTurn => {
                self.reducer.request_cancel(now);
                Outbound::Engine(
                    InputMessage::System {
                        kind: EngineCommand::CancelTurn,
                        content: String::new(),
                    },
                )
            },
            BridgeCommand::SetModel { name } => {
                self.reducer.set_model(name.clone());
                Outbound::Engine(
                    InputMessage::System { kind: EngineCommand::UpdateModel, content: name },
                )
            },
            BridgeCommand::Note { text } => {
                self.reducer.note(text);
                Outbound::Nothing
            },
            BridgeCommand::Doctor => {
                let text: String = match health {
                    Some(report) => crate::doctor::render(&report),
                    None => "doctor: no engine is attached to this session".to_owned(),
                };
                self.reducer.note(text);
                Outbound::Nothing
            },
            BridgeCommand::Btw { question } => Outbound::Side { question },
            BridgeCommand::BtwKey(k) => Outbound::SideKey(k),
        }
    }
}

/// Whether a command has reached whom it is for; `taken` tells whether the engine took it.
pub open spec fn is_delivered(out: OutboundView, taken: bool) -> bool {
    out is Engine ==> taken
}

/// The result of a command, given whether what it sent out was taken. Only a message that
/// the engine did not take is an error.
pub fn dispatch_result(out: &Outbound, taken: bool) -> (r: Result<(), BridgeError>)
    ensures
        r is Ok == is_delivered(out@, taken),
        r is Err <==> out is Engine && !taken,
{
    match out {
        Outbound::Engine(_) => if taken {
            Ok(())
        } else {
            Err(BridgeError::EngineStopped)
        },
        _ => Ok(()),
    }
}

// ---- laws ----------------------------------------------------------------------------

/// An answer to the model never reaches the permission gate, and a permission never reaches
/// whoever waits for an answer.
pub proof fn law_each_answer_takes_its_own_gate(
    prompt_id: Seq<char>,
    decision: OptionView,
    turn_id: Seq<char>,
    waiting: Set<Seq<char>>,
)
    ensures
        command_sends(CommandView::Respond { prompt_id, decision }, turn_id, waiting) is Engine
            <==> !(decision is Answer),
        command_sends(CommandView::Respond { prompt_id, decision }, turn_id, waiting) is Answer
            <==> decision is Answer && waiting.contains(prompt_id),
{
}

/// Different ways to answer the permission gate are different to the engine.
pub proof fn law_permissions_do_not_collapse(a: OptionView, b: OptionView)
    requires
        !(a is Answer),
        !(b is Answer),
        a != b,
    ensures
        decision_spec(a) != decision_spec(b),
{
}

/// Folding and notes are nothing that the engine hears of.
pub proof fn law_local_commands_stay_local(
    cmd: CommandView,
    turn_id: Seq<char>,
    waiting: Set<Seq<char>>,
)
    requires
        cmd is ToggleExpand || cmd is Note || cmd is Doctor,
    ensures
        command_sends(cmd, turn_id, waiting) is Nothing,
{
}

/// Whatever the answer was, its request is off the queue.
pub proof fn law_answered_request_is_gone(
    m: ReducerModel,
    cmd: CommandView,
    prompt_id: Seq<char>,
    turn_id: Seq<char>,
    now: Now,
    health: Option<HealthReport>,
    a: crate::frame_state::AskView,
)
    requires
        (cmd matches CommandView::Respond { prompt_id: p, .. } && p == prompt_id) || (
        cmd matches CommandView::AnswerQuestion { prompt_id: p, .. } && p == prompt_id),
        command_applied(m, cmd, turn_id, now, health).pending.contains(a),
    ensures
        a.prompt_id != prompt_id,
        m.pending.contains(a),
{
    crate::reducer_laws::law_resolving_removes_exactly_that_request(m.pending, prompt_id, a);
}

} // verus!
