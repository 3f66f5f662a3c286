//! What crosses between the terminal and the engine: commands, sessions, side questions.

use crate::btw::{
    asked, composed, concatenated, ended_with, heard, latest, replay, say_spec, AnswerEvent,
    AnsweringView, ExchangeView, MessageRole, ModelMessageView, SideModel, INTERRUPTED, NOT_ASKED,
    NO_CONTEXT, PREAMBLE,
};
use crate::commands::{candidate_spec, CommandInfo};
use crate::dispatch::{key_reaction, leads_to, quiet, sends, FlowView};
use crate::doctor::{report_spec, HealthReport};
use crate::domain::Now;
use crate::event_loop::{
    loop_reaction, opened, unless_too_low, LoopEvent, SessionActionView, SessionLoopModel,
};
use crate::frame_state::{candidates_view, BtwState, CandidateView, FrameState, OptionView};
use crate::handle::{
    command_applied, command_sends, is_delivered, still_waiting, BtwKey, CommandView, DecisionView,
    EngineCommand, MessageView, OutboundView, PersistScope,
};
use crate::local_ui::UiModel;
use crate::merge::prompts_spec;
use crate::reducer::ReducerModel;
use crate::sessions::{
    blank_lines, describe_spec, first_line_spec, search_spec, subject_spec, SessionSummary,
};
use crate::side_panel::{keyed, listed, shows_exchange};
use crate::text::{decimal_spec, lines_spec, texts, trim_spec};
use crate::text_laws::{lacks, law_line_feed_ends_a_line, law_one_line_is_itself};
use vstd::prelude::*;

verus! {

// ---- commands ------------------------------------------------------------------------

/// What the engine is told of a choice: once, for the session, for the project, or not at all;
/// under the id of the request that was answered.
pub proof fn law_choice_is_told_as_it_was_made(
    prompt_id: Seq<char>,
    turn_id: Seq<char>,
    waiting: Set<Seq<char>>,
)
    ensures
        ({
            let told = |o: OptionView|
                command_sends(CommandView::Respond { prompt_id, decision: o }, turn_id, waiting);
            let reply = |d: DecisionView|
                OutboundView::Engine(MessageView::PermissionResponse { prompt_id, decision: d });
            &&& told(OptionView::PermitOnce) == reply(DecisionView::Permit)
            &&& told(OptionView::PermitSession) == reply(
                DecisionView::PermitAlways { scope: PersistScope::Session },
            )
            &&& told(OptionView::PermitProject) == reply(
                DecisionView::PermitAlways { scope: PersistScope::Local },
            )
            &&& told(OptionView::Deny) == reply(DecisionView::Deny { reason: "denied by user"@ })
        }),
{
}

/// An answer reaches whoever waits for it, as the key of the option or as the line that was
/// typed, and once only. Nobody else stops waiting.
pub proof fn law_answer_reaches_who_waits(
    prompt_id: Seq<char>,
    text: Seq<char>,
    option: OptionView,
    other: Seq<char>,
    turn_id: Seq<char>,
    waiting: Set<Seq<char>>,
)
    requires
        option matches OptionView::Answer { key, .. } && key == text,
    ensures
        ({
            let chosen = CommandView::Respond { prompt_id, decision: option };
            let typed = CommandView::AnswerQuestion { prompt_id, text };
            &&& command_sends(chosen, turn_id, waiting) == command_sends(typed, turn_id, waiting)
            &&& waiting.contains(prompt_id) ==> command_sends(typed, turn_id, waiting)
                == (OutboundView::Answer { prompt_id, text })
            &&& !waiting.contains(prompt_id) ==> command_sends(typed, turn_id, waiting) is Nothing
            &&& still_waiting(chosen, waiting) == still_waiting(typed, waiting)
            &&& !still_waiting(typed, waiting).contains(prompt_id)
            &&& other != prompt_id ==> (still_waiting(typed, waiting).contains(other)
                <==> waiting.contains(other))
        }),
{
}

/// A prompt goes to the engine in full, under the id of the turn that it opens.
pub proof fn law_prompt_is_sent_under_its_turn(
    m: ReducerModel,
    text: Seq<char>,
    turn_id: Seq<char>,
    now: Now,
    health: Option<HealthReport>,
    waiting: Set<Seq<char>>,
)
    ensures
        ({
            let cmd = CommandView::Submit { text };
            let r = command_applied(m, cmd, turn_id, now, health);
            &&& command_sends(cmd, turn_id, waiting) == OutboundView::Engine(
                MessageView::User { content: text, turn_id },
            )
            &&& r.turns.len() == m.turns.len() + 1
            &&& r.turns.take(m.turns.len() as int) == m.turns
            &&& r.turns.last().id == turn_id
            &&& still_waiting(cmd, waiting) == waiting
        }),
{
    let r = command_applied(m, CommandView::Submit { text }, turn_id, now, health);
    assert(r.turns.take(m.turns.len() as int) =~= m.turns);
}

/// Only what is for the engine can fail to arrive, and does where the engine does not take it.
pub proof fn law_only_the_engine_can_be_gone(out: OutboundView)
    ensures
        is_delivered(out, true),
        is_delivered(out, false) <==> !(out is Engine),
{
}

/// The other commands: the wish to cancel and the name of another model go to the engine, a
/// side question and its keys to the side question, and nobody stops waiting for them.
pub proof fn law_other_commands_are_sent(
    m: ReducerModel,
    name: Seq<char>,
    key: BtwKey,
    turn_id: Seq<char>,
    now: Now,
    health: Option<HealthReport>,
    waiting: Set<Seq<char>>,
)
    ensures
        command_sends(CommandView::CancelTurn, turn_id, waiting) == OutboundView::Engine(
            MessageView::System { kind: EngineCommand::CancelTurn, content: seq![] },
        ),
        command_sends(CommandView::SetModel { name }, turn_id, waiting) == OutboundView::Engine(
            MessageView::System { kind: EngineCommand::UpdateModel, content: name },
        ),
        command_sends(CommandView::Btw { question: name }, turn_id, waiting) == (
        OutboundView::Side { question: name }),
        command_sends(CommandView::BtwKey(key), turn_id, waiting) == OutboundView::SideKey(key),
        command_applied(m, CommandView::Btw { question: name }, turn_id, now, health) == m,
        command_applied(m, CommandView::BtwKey(key), turn_id, now, health) == m,
        still_waiting(CommandView::CancelTurn, waiting) == waiting,
        still_waiting(CommandView::SetModel { name }, waiting) == waiting,
        still_waiting(CommandView::ToggleExpand { block_id: name }, waiting) == waiting,
{
}

/// What a command does to the session at once: it folds or unfolds its block, shows that the
/// turn is being cancelled, changes the name of the model, or adds a line.
pub proof fn law_command_acts_on_the_session(
    m: ReducerModel,
    text: Seq<char>,
    turn_id: Seq<char>,
    now: Now,
    health: Option<HealthReport>,
)
    ensures
        command_applied(m, CommandView::ToggleExpand { block_id: text }, turn_id, now, health)
            == m.toggled(text),
        command_applied(m, CommandView::CancelTurn, turn_id, now, health) == m.cancelling(now),
        command_applied(m, CommandView::SetModel { name: text }, turn_id, now, health)
            == m.with_model(text),
        command_applied(m, CommandView::Note { text }, turn_id, now, health) == m.noted(text),
        health matches Some(report) ==> command_applied(
            m,
            CommandView::Doctor,
            turn_id,
            now,
            health,
        ) == m.noted(report_spec(report)),
{
}

// ---- the loop ------------------------------------------------------------------------

/// A terminal that opens is empty, follows the end, and recalls the prompts of the session.
pub proof fn law_terminal_opens_empty(commands: Seq<CandidateView>, frame: FrameState)
    ensures
        ({
            let ui = opened(commands, frame);
            &&& ui.draft.len() == 0
            &&& ui.cursor == 0
            &&& ui.scroll_offset is None
            &&& ui.selected_block is None
            &&& ui.session_picker is None
            &&& !ui.picker_dismissed
            &&& ui.commands == commands
            &&& ui.history == prompts_spec(frame.transcript.body.entries@)
            &&& ui.history_pos is None
        }),
{
}

/// Only the end of the session or of the input ends the loop without a key. A new frame
/// changes nothing, new commands are offered from then on, and sessions that were found are
/// listed.
pub proof fn law_loop_goes_on(ui: UiModel, event: LoopEvent, snapshot: FrameState)
    ensures
        ({
            let r = loop_reaction(ui, event, snapshot);
            &&& event is SessionGone || event is InputGone ==> r == leads_to(ui, FlowView::Quit)
            &&& event is Frame || event is OtherInput ==> r == quiet(ui)
            &&& event is Commands ==> r == quiet(
                UiModel { commands: candidates_view(event->Commands_0@), ..ui },
            )
            &&& event is Sessions && event->found@.len() > 0 ==> {
                &&& r.step.flow is Continue
                &&& r.step.command is None
                &&& r.ui.session_picker == Some(candidates_view(event->found@))
                &&& r.ui.picker_selected == 0
                &&& r.ui.draft == ui.draft
            }
            &&& event is Sessions && event->found@.len() == 0 ==> {
                &&& r.ui == ui
                &&& r.step.flow is Continue
                &&& r.step.command is Some && r.step.command->0 is Note
                &&& event->query@.len() > 0 ==> r.step.command->0->Note_text
                    == "/resume: nothing matches `"@ + event->query@ + "`"@
                &&& event->query@.len() == 0 ==> r.step.command->0->Note_text
                    == "/resume: no earlier sessions in this project"@
            }
            &&& event is Key && !(key_reaction(
                ui,
                event->key,
                event->outcome@,
                snapshot,
            ).step.flow is ListSessions) ==> r == key_reaction(
                ui,
                event->key,
                event->outcome@,
                snapshot,
            )
        }),
{
}

/// Sessions are listed where three lines of the transcript are seen, and a line says so where
/// they are not.
pub proof fn law_list_needs_room(ui: UiModel, query: Seq<char>)
    ensures
        ({
            let asked = leads_to(ui, FlowView::ListSessions(query));
            &&& ui.viewport_lines >= 3 ==> unless_too_low(asked) == asked
            &&& ui.viewport_lines < 3 ==> unless_too_low(asked) == sends(
                ui,
                CommandView::Note { text: "/resume needs a taller terminal to show the list"@ },
            )
        }),
{
}

/// A session that ends otherwise than for another one ends the program.
pub proof fn law_leaving(m: SessionLoopModel, how: FlowView, error: Seq<char>)
    ensures
        !(how is Resume) ==> m.ended(how) == (m, SessionActionView::Leave),
        m.tried(Some(error)).1 == SessionActionView::Stay(
            CommandView::Note { text: "/resume failed, staying in this session: "@ + error },
        ),
        m.tried(Some(error)).0.next is None,
{
}

// ---- sessions ------------------------------------------------------------------------

/// The subject of a session skips blank lines and shows the first other line, trimmed, and
/// only its first sixty characters where it is longer.
pub proof fn law_subject_is_the_first_line(line: Seq<char>, rest: Seq<char>)
    requires
        lacks(line, '\n'),
        line.len() > 0 ==> line.last() != '\r',
    ensures
        ({
            let shown = first_line_spec(line + seq!['\n'] + rest);
            let t = trim_spec(line);
            &&& t.len() == 0 ==> shown == first_line_spec(rest)
            &&& 0 < t.len() <= 60 ==> shown == t && first_line_spec(line) == t
            &&& t.len() > 60 ==> shown == t.take(60).push('…') && first_line_spec(line) == shown
        }),
        first_line_spec(seq![]) == Seq::<char>::empty(),
{
    reveal_strlit("…");
    let t = trim_spec(line);
    assert(trim_spec(Seq::<char>::empty()) =~= seq![]) by {
        reveal_with_fuel(crate::text::trim_start_spec, 2);
        reveal_with_fuel(crate::text::trim_end_spec, 2);
    }
    law_line_feed_ends_a_line(line, rest);
    law_one_line_is_itself(line);
    law_one_line_is_itself(seq![]);
    let ls = seq![line] + lines_spec(rest);
    assert(ls.drop_first() =~= lines_spec(rest));
    assert(t.take(60) + "…"@ =~= t.take(60).push('…'));
    if t.len() == 0 {
        let k = blank_lines(lines_spec(rest)) as int;
        assert(blank_lines(ls) == k + 1);
        if k < lines_spec(rest).len() {
            assert(ls[k + 1] == lines_spec(rest)[k]);
        }
    } else {
        assert(line.len() > 0);
        assert(blank_lines(ls) == 0);
        assert(blank_lines(seq![line]) == 0);
    }
}

/// A listed session: its id, when it was last used, how long it is, and its title or else its
/// subject.
pub proof fn law_listed_session(s: SessionSummary)
    ensures
        describe_spec(s).name == s.session_id@,
        describe_spec(s).description == s.last_modified@ + "  "@ + decimal_spec(
            s.message_count as nat,
        ) + " msgs  "@ + subject_spec(s),
        s.title matches Some(t) ==> subject_spec(s) == if trim_spec(t@).len() > 0 {
            t@
        } else {
            first_line_spec(s.preview@)
        },
        s.title is None ==> subject_spec(s) == first_line_spec(s.preview@),
{
}

/// A search is for the words of the query; without any it is for nothing in particular.
pub proof fn law_search_is_trimmed(query: Seq<char>)
    ensures
        search_spec(query) is None <==> trim_spec(query).len() == 0,
        search_spec(query) matches Some(t) ==> t == trim_spec(query),
{
}

/// A command of the engine is offered under its name with a slash, described as the engine
/// describes it, with its arguments where it has any.
pub proof fn law_offered_command(info: CommandInfo)
    ensures
        ({
            let c = candidate_spec(info);
            &&& c.name == seq!['/'] + info.name@
            &&& info.argument_hint is None ==> c.description == info.description@
            &&& info.argument_hint matches Some(hint) ==> hint@.len() == 0 ==> c.description
                == info.description@
            &&& info.argument_hint matches Some(hint) ==> hint@.len() > 0 ==> c.description
                == info.description@ + "  (args: "@ + hint@ + ")"@
        }),
{
    reveal_strlit("/");
    assert("/"@ =~= seq!['/']);
}

// ---- side questions ------------------------------------------------------------------

/// Each exchange is replayed as its question and, right behind it, its answer, in the order in
/// which they were had.
pub proof fn law_replay_is_in_order(exchanges: Seq<ExchangeView>, i: int)
    requires
        0 <= i < exchanges.len(),
    ensures
        replay(exchanges).len() == 2 * exchanges.len(),
        replay(exchanges)[2 * i] == say_spec(MessageRole::User, exchanges[i].question),
        replay(exchanges)[2 * i + 1] == say_spec(MessageRole::Assistant, exchanges[i].answer),
    decreases exchanges.len(),
{
    let n = exchanges.len() - 1;
    let init = exchanges.drop_last();
    if n > 0 {
        law_replay_is_in_order(
            init,
            if i < n {
                i
            } else {
                0
            },
        );
    } else {
        assert(replay(init) =~= seq![]);
    }
    assert(replay(init).len() == 2 * n);
    assert(i < n ==> init[i] == exchanges[i]);
}

/// What a side question sends: the conversation, the latest twenty exchanges, and the
/// question behind its preamble.
pub proof fn law_side_question_sends(
    conversation: Seq<ModelMessageView>,
    exchanges: Seq<ExchangeView>,
    question: Seq<char>,
    i: int,
)
    ensures
        ({
            let sent = composed(conversation, exchanges, question);
            let n = exchanges.len() as int;
            let m = if n <= 20 {
                n
            } else {
                20
            };
            let c = conversation.len();
            &&& sent.len() == c + 2 * m + 1
            &&& 0 <= i < c ==> sent[i] == conversation[i]
            &&& 0 <= i < m ==> sent[c + 2 * i] == say_spec(
                MessageRole::User,
                exchanges[n - m + i].question,
            ) && sent[c + 2 * i + 1] == say_spec(
                MessageRole::Assistant,
                exchanges[n - m + i].answer,
            )
            &&& sent.last() == say_spec(MessageRole::User, PREAMBLE@ + question)
        }),
{
    let kept = latest(exchanges);
    if kept.len() > 0 {
        law_replay_is_in_order(
            kept,
            if 0 <= i < kept.len() {
                i
            } else {
                0
            },
        );
    }
}

/// A side question needs a conversation. It takes the place of the one before, whose number is
/// handed back, and leaves the conversation and the exchanges as they are.
pub proof fn law_side_question_takes_the_place_of_the_one_before(
    side: SideModel,
    question: Seq<char>,
    number: u64,
)
    ensures
        ({
            let (r, after) = asked(side, question, number);
            &&& r is Ok <==> side.snapshot is Some
            &&& r matches Ok((superseded, messages)) ==> {
                &&& superseded == side.in_flight
                &&& messages == composed(side.snapshot->0, side.exchanges, question)
                &&& after.in_flight == Some(number)
                &&& after.snapshot == side.snapshot
                &&& after.exchanges == side.exchanges
            }
            &&& r matches Err(e) ==> e == NO_CONTEXT@ && after == side
        }),
{
}

/// An answer comes in pieces, between which other things may be said; at its end it is all of
/// them together, and kept. One that fails or is taken back leaves nothing.
pub proof fn law_answer_comes_in_pieces(
    a: AnsweringView,
    side: SideModel,
    piece: String,
    why: String,
    cancelled: bool,
)
    ensures
        ({
            let (b, after, r) = heard(a, side, AnswerEvent::Text(piece), cancelled);
            let (c, kept, answer) = heard(b, after, AnswerEvent::End, false);
            &&& r is None && after == side && b.question == a.question
            &&& answer == Some(Ok::<Seq<char>, Seq<char>>(concatenated(a.pieces) + piece@))
            &&& kept.exchanges == side.exchanges.push(
                ExchangeView { question: a.question, answer: concatenated(a.pieces) + piece@ },
            )
            &&& heard(a, side, AnswerEvent::Other, cancelled) == (
                a,
                side,
                None::<Result<Seq<char>, Seq<char>>>,
            )
            &&& heard(a, side, AnswerEvent::End, true) == (
                a,
                side,
                Some(Err::<Seq<char>, Seq<char>>(INTERRUPTED@)),
            )
            &&& heard(a, side, AnswerEvent::Cancelled, cancelled) == (
                a,
                side,
                Some(Err::<Seq<char>, Seq<char>>(INTERRUPTED@)),
            )
            &&& heard(a, side, AnswerEvent::Failed(why), cancelled) == (
                a,
                side,
                Some(Err::<Seq<char>, Seq<char>>(NOT_ASKED@ + why@)),
            )
        }),
{
    law_answer_is_all_its_pieces(a.pieces, piece@);
}

/// An answer is its pieces one behind the other.
pub proof fn law_answer_is_all_its_pieces(pieces: Seq<Seq<char>>, piece: Seq<char>)
    ensures
        concatenated(seq![]) == Seq::<char>::empty(),
        concatenated(pieces.push(piece)) == concatenated(pieces) + piece,
{
    assert(pieces.push(piece).drop_last() =~= pieces);
}

/// A finished answer is kept behind the earlier exchanges, under its question; one that was
/// taken back is not.
pub proof fn law_finished_answer_is_kept(a: AnsweringView, side: SideModel)
    ensures
        ended_with(a, side, false).0 == Ok::<Seq<char>, Seq<char>>(concatenated(a.pieces)),
        ({
            let after = ended_with(a, side, false).1;
            &&& after.exchanges.len() == side.exchanges.len() + 1
            &&& after.exchanges.drop_last() == side.exchanges
            &&& after.exchanges.last() == (ExchangeView {
                question: a.question,
                answer: concatenated(a.pieces),
            })
            &&& after.snapshot == side.snapshot
        }),
        ended_with(a, side, true).0 == Err::<Seq<char>, Seq<char>>(INTERRUPTED@),
        ended_with(a, side, true).1 == side,
{
    assert(ended_with(a, side, false).1.exchanges.drop_last() =~= side.exchanges);
}

/// The panel shows an exchange by how far back it is: the latest one first, and the oldest one
/// for everything further back.
pub proof fn law_panel_shows_what_is_looked_at(
    exchanges: Seq<ExchangeView>,
    viewing: int,
    p: BtwState,
    i: int,
)
    requires
        exchanges.len() > 0,
        viewing >= 0,
        shows_exchange(exchanges, viewing, p),
    ensures
        ({
            let n = exchanges.len() as int;
            let at = if viewing < n {
                n - 1 - viewing
            } else {
                0
            };
            &&& p.question@ == exchanges[at].question
            &&& p.answer@ == exchanges[at].answer
            &&& p.viewing == n - 1 - at
            &&& p.scroll == 0
            &&& !p.streaming
            &&& p.earlier@.len() + p.older == n
            &&& p.earlier@.len() <= 5
            &&& p.older > 0 ==> p.earlier@.len() == 5
            &&& 0 <= i < p.earlier@.len() ==> p.earlier@[i]@ == exchanges[n - 1 - i].question
        }),
{
    assert(texts(p.earlier@).len() == p.earlier@.len());
    assert(texts(p.earlier@) == listed(exchanges));
    if 0 <= i < p.earlier@.len() {
        assert(texts(p.earlier@)[i] == p.earlier@[i]@);
    }
}

/// The keys of the panel: the answer is scrolled by as many lines as asked for but not before
/// its first one, Left and Right show the exchange one further back or forth, `x` empties the
/// list of earlier questions, and closing leaves nothing.
pub proof fn law_keys_of_the_panel(
    exchanges: Seq<ExchangeView>,
    p: BtwState,
    key: BtwKey,
    r: Option<BtwState>,
)
    requires
        keyed(p, key, exchanges, r),
    ensures
        key is Close <==> r is None,
        key matches BtwKey::Scroll(delta) ==> {
            &&& r->0 == (BtwState { scroll: r->0.scroll, ..p })
            &&& 0 <= p.scroll + delta <= usize::MAX ==> r->0.scroll == p.scroll + delta
            &&& p.scroll + delta < 0 ==> r->0.scroll == 0
        },
        key is Older ==> shows_exchange(exchanges, p.viewing + 1, r->0),
        key is Newer && p.viewing > 0 ==> shows_exchange(exchanges, p.viewing - 1, r->0),
        key is Newer && p.viewing == 0 ==> shows_exchange(exchanges, 0, r->0),
        key is ClearEarlier ==> {
            &&& r->0.earlier@.len() == 0
            &&& r->0.older == 0
            &&& r->0.viewing == 0
            &&& r->0.question == p.question
            &&& r->0.answer == p.answer
            &&& r->0.scroll == p.scroll
            &&& r->0.streaming == p.streaming
        },
{
}

} // verus!
