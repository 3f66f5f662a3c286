//! What the events of the engine and the commands of the user do to a session, in terms of
//! its turns, blocks, requests and rows.

use crate::ask::{PendingQuestion, QuestionEvent};
use crate::domain::{
    lemma_turn_index, turn_index, AgentEvent, BlockModel, Now, OutcomeModel, SubAgentModel,
    TurnModel,
};
use crate::frame_state::{AnswerWith, AskView, ItemStatus, OptionView, StatusView, SubAgentState};
use crate::json::{json_items, json_member, json_string, json_text};
use crate::reducer::{
    agent_index, compact_note_spec, early_stop_spec, event_applied, event_name_spec,
    first_line_spec, input_fits, parse_todos_spec, status_spinner, summary_spec, task_spec,
    tasks_of, todo_entry, tool_end, unresolved, ReducerModel, TodoView,
};
use crate::reducer_laws::lemma_agent_index;
use crate::text::{byte_len, char_pos, lemma_char_pos_bound, lemma_char_pos_of_prefix};
use vstd::prelude::*;

verus! {

// ---- which turn ----------------------------------------------------------------------

/// The first turn with that id stands at `k`; where there is none, `k` is the end.
pub open spec fn is_turn(turns: Seq<TurnModel>, id: Seq<char>, k: int) -> bool {
    &&& 0 <= k <= turns.len()
    &&& k < turns.len() ==> turns[k].id == id
    &&& forall|j: int| 0 <= j < k ==> (#[trigger] turns[j]).id != id
}

/// The blocks at `k`; none at the end.
pub open spec fn blocks_at(turns: Seq<TurnModel>, k: int) -> Seq<BlockModel> {
    if 0 <= k < turns.len() {
        turns[k].blocks
    } else {
        seq![]
    }
}

/// At most the blocks of turn `k` differ; it is there afterwards, and has that id.
pub open spec fn only_turn(
    before: Seq<TurnModel>,
    after: Seq<TurnModel>,
    id: Seq<char>,
    k: int,
) -> bool {
    &&& after.len() == if k < before.len() {
        before.len()
    } else {
        before.len() + 1
    }
    &&& after[k].id == id
    &&& forall|j: int| 0 <= j < before.len() && j != k ==> #[trigger] after[j] == before[j]
}

proof fn lemma_is_turn(turns: Seq<TurnModel>, id: Seq<char>, k: int)
    requires
        is_turn(turns, id, k),
    ensures
        turn_index(turns, id) == k,
{
    lemma_turn_index(turns, id);
    let i = turn_index(turns, id) as int;
    if i < k {
        assert(turns[i].id != id);
    } else if k < i {
        assert(turns[k].id != id);
    }
}

/// The turn that an event names, if it names one.
pub open spec fn turn_named(event: AgentEvent) -> Option<Seq<char>> {
    match event {
        AgentEvent::TextDelta { turn_id, .. } => Some(turn_id@),
        AgentEvent::ThinkingDelta { turn_id, .. } => Some(turn_id@),
        AgentEvent::ToolUse { turn_id, .. } => Some(turn_id@),
        AgentEvent::ToolResult { turn_id, .. } => Some(turn_id@),
        AgentEvent::Error { turn_id, .. } => Some(turn_id@),
        _ => None,
    }
}

/// An event that names a turn changes that turn and no other; a turn that is not there yet is
/// opened at the end.
pub proof fn law_event_stays_in_its_turn(m: ReducerModel, event: AgentEvent, now: Now, k: int)
    requires
        turn_named(event) is Some,
        is_turn(m.turns, turn_named(event)->0, k),
    ensures
        only_turn(m.turns, event_applied(m, event, now).turns, turn_named(event)->0, k),
{
    lemma_is_turn(m.turns, turn_named(event)->0, k);
}

// ---- streamed text -------------------------------------------------------------------

/// All that the assistant said in a turn, one after the other.
pub open spec fn said(blocks: Seq<BlockModel>) -> Seq<char>
    decreases blocks.len(),
{
    if blocks.len() == 0 {
        seq![]
    } else {
        said(blocks.drop_last()) + match blocks.last() {
            BlockModel::AssistantText(t) => t,
            _ => seq![],
        }
    }
}

/// All that the assistant thought in a turn.
pub open spec fn thought(blocks: Seq<BlockModel>) -> Seq<char>
    decreases blocks.len(),
{
    if blocks.len() == 0 {
        seq![]
    } else {
        thought(blocks.drop_last()) + match blocks.last() {
            BlockModel::Thinking(t) => t,
            _ => seq![],
        }
    }
}

pub open spec fn ends_with(s: Seq<char>, t: Seq<char>) -> bool {
    t.len() <= s.len() && s.skip(s.len() - t.len()) == t
}

/// All blocks stay but the last one, to which one may have been joined; or one is added.
pub open spec fn all_but_the_last(before: Seq<BlockModel>, after: Seq<BlockModel>) -> bool {
    &&& after.len() == before.len() || after.len() == before.len() + 1
    &&& forall|i: int| 0 <= i < before.len() && i + 1 < after.len() ==> #[trigger] after[i]
        == before[i]
}

/// Streamed text is never lost: what the assistant said in the turn is what it said before,
/// and the new text behind it. The turn ends with assistant text, which ends with the new
/// text, whatever stood last before; and nothing else of the turn changes.
pub proof fn law_streamed_text_is_never_lost(
    m: ReducerModel,
    event: AgentEvent,
    now: Now,
    k: int,
)
    requires
        event is TextDelta,
        is_turn(m.turns, event->TextDelta_turn_id@, k),
    ensures
        ({
            let text = event->TextDelta_text@;
            let before = blocks_at(m.turns, k);
            let after = event_applied(m, event, now).turns[k].blocks;
            &&& said(after) == said(before) + text
            &&& thought(after) == thought(before)
            &&& after.len() > 0
            &&& after.last() is AssistantText
            &&& ends_with(after.last()->AssistantText_0, text)
            &&& all_but_the_last(before, after)
            &&& after.len() == before.len() <==> before.len() > 0 && before.last() is AssistantText
        }),
{
    let text = event->TextDelta_text@;
    lemma_is_turn(m.turns, event->TextDelta_turn_id@, k);
    let before = blocks_at(m.turns, k);
    let after = event_applied(m, event, now).turns[k].blocks;
    if before.len() > 0 && before.last() is AssistantText {
        assert(after.drop_last() =~= before.drop_last());
        assert(said(after) =~= said(before) + text);
        let t = after.last()->AssistantText_0;
        assert(t.skip(t.len() - text.len()) =~= text);
    } else {
        assert(after.drop_last() =~= before);
        assert(text.skip(0) =~= text);
    }
    assert(thought(after) =~= thought(before));
}

/// The same of what the assistant thinks.
pub proof fn law_streamed_thoughts_are_never_lost(
    m: ReducerModel,
    event: AgentEvent,
    now: Now,
    k: int,
)
    requires
        event is ThinkingDelta,
        is_turn(m.turns, event->ThinkingDelta_turn_id@, k),
    ensures
        ({
            let text = event->ThinkingDelta_text@;
            let before = blocks_at(m.turns, k);
            let after = event_applied(m, event, now).turns[k].blocks;
            &&& thought(after) == thought(before) + text
            &&& said(after) == said(before)
            &&& after.len() > 0
            &&& after.last() is Thinking
            &&& ends_with(after.last()->Thinking_0, text)
            &&& all_but_the_last(before, after)
            &&& after.len() == before.len() <==> before.len() > 0 && before.last() is Thinking
        }),
{
    let text = event->ThinkingDelta_text@;
    lemma_is_turn(m.turns, event->ThinkingDelta_turn_id@, k);
    let before = blocks_at(m.turns, k);
    let after = event_applied(m, event, now).turns[k].blocks;
    if before.len() > 0 && before.last() is Thinking {
        assert(after.drop_last() =~= before.drop_last());
        assert(thought(after) =~= thought(before) + text);
        let t = after.last()->Thinking_0;
        assert(t.skip(t.len() - text.len()) =~= text);
    } else {
        assert(after.drop_last() =~= before);
        assert(text.skip(0) =~= text);
    }
    assert(said(after) =~= said(before));
}

// ---- calls and results ---------------------------------------------------------------

/// One block was added at the end.
pub open spec fn one_added(before: Seq<BlockModel>, after: Seq<BlockModel>) -> bool {
    &&& after.len() == before.len() + 1
    &&& forall|i: int| 0 <= i < before.len() ==> #[trigger] after[i] == before[i]
}

/// A call is added at the end of its turn, with its id, its name and its input, folded and
/// without a result.
pub proof fn law_call_is_added(m: ReducerModel, event: AgentEvent, now: Now, k: int)
    requires
        event is ToolUse,
        is_turn(m.turns, event->ToolUse_turn_id@, k),
    ensures
        ({
            let before = blocks_at(m.turns, k);
            let after = event_applied(m, event, now).turns[k].blocks;
            &&& one_added(before, after)
            &&& after.last() matches BlockModel::Tool { id, name, input_summary, result, expanded }
            &&& id == event->ToolUse_id@
            &&& name == event->ToolUse_name@
            &&& input_summary == summary_spec(event->ToolUse_input)
            &&& result is None
            &&& !expanded
        }),
{
    lemma_is_turn(m.turns, event->ToolUse_turn_id@, k);
}

/// The summary of an input is its JSON text where that has no more than eighty bytes, and its
/// first eighty bytes with an ellipsis where it has more.
pub proof fn law_summary_is_the_beginning(input: serde_json::Value, n: int)
    requires
        input_fits(input),
        0 <= n <= json_text(input).len(),
        byte_len(json_text(input)) > 80 ==> byte_len(json_text(input).take(n)) == 80,
    ensures
        byte_len(json_text(input)) <= 80 ==> summary_spec(input) == json_text(input),
        byte_len(json_text(input)) > 80 ==> summary_spec(input) == json_text(input).take(n) + "…"@,
{
    let s = json_text(input);
    if byte_len(s) > 80 {
        crate::text::lemma_char_pos_of_prefix(s, n);
        assert(char_pos(s, 80) == n);
    }
}

/// The last call with that id stands at `i`.
pub open spec fn is_last_call(blocks: Seq<BlockModel>, id: Seq<char>, i: int) -> bool {
    &&& 0 <= i < blocks.len()
    &&& blocks[i] is Tool
    &&& blocks[i]->Tool_id == id
    &&& forall|j: int|
        i < j < blocks.len() ==> !(#[trigger] blocks[j] is Tool && blocks[j]->Tool_id == id)
}

/// No call has that id.
pub open spec fn no_call(blocks: Seq<BlockModel>, id: Seq<char>) -> bool {
    forall|j: int|
        0 <= j < blocks.len() ==> !(#[trigger] blocks[j] is Tool && blocks[j]->Tool_id == id)
}

pub proof fn lemma_last_call(blocks: Seq<BlockModel>, id: Seq<char>)
    ensures
        tool_end(blocks, id) <= blocks.len(),
        tool_end(blocks, id) > 0 ==> is_last_call(blocks, id, tool_end(blocks, id) - 1),
        tool_end(blocks, id) == 0 ==> no_call(blocks, id),
        forall|i: int| #[trigger] is_last_call(blocks, id, i) ==> tool_end(blocks, id) == i + 1,
        no_call(blocks, id) ==> tool_end(blocks, id) == 0,
    decreases blocks.len(),
{
    if blocks.len() > 0 {
        let init = blocks.drop_last();
        let n = init.len() as int;
        lemma_last_call(init, id);
        assert(blocks[n] == blocks.last());
        if !(blocks.last() is Tool && blocks.last()->Tool_id == id) {
            let e = tool_end(init, id) as int;
            if e > 0 {
                assert(blocks[e - 1] == init[e - 1]);
                assert forall|j: int| e - 1 < j < blocks.len() implies !(#[trigger] blocks[j] is Tool
                    && blocks[j]->Tool_id == id) by {
                    if j < n {
                        assert(init[j] == blocks[j]);
                    }
                }
            } else {
                assert forall|j: int| 0 <= j < blocks.len() implies !(#[trigger] blocks[j] is Tool
                    && blocks[j]->Tool_id == id) by {
                    if j < n {
                        assert(init[j] == blocks[j]);
                    }
                }
            }
        }
        assert forall|i: int| #[trigger] is_last_call(blocks, id, i) implies tool_end(blocks, id)
            == i + 1 by {
            let e = tool_end(blocks, id) as int;
            if e == 0 {
                assert(!(blocks[i] is Tool && blocks[i]->Tool_id == id));
            } else if e - 1 > i {
                assert(!(blocks[e - 1] is Tool && blocks[e - 1]->Tool_id == id));
            } else if e - 1 < i {
                assert(!(blocks[i] is Tool && blocks[i]->Tool_id == id));
            }
        }
        if no_call(blocks, id) {
            let e = tool_end(blocks, id) as int;
            if e > 0 {
                assert(!(blocks[e - 1] is Tool && blocks[e - 1]->Tool_id == id));
            }
        }
    }
}

/// A call as it was, with another result.
pub open spec fn only_result(before: BlockModel, after: BlockModel, result: OutcomeModel) -> bool {
    &&& before matches BlockModel::Tool { id, name, input_summary, result: _, expanded }
    &&& after == (BlockModel::Tool { id, name, input_summary, result: Some(result), expanded })
}

/// A result belongs to the last call of its id in its turn: that call holds its text from then
/// on, and whether it was an error; a result that does not say is none. No other block changes.
pub proof fn law_result_goes_to_its_call(
    m: ReducerModel,
    event: AgentEvent,
    now: Now,
    k: int,
    i: int,
)
    requires
        event is ToolResult,
        is_turn(m.turns, event->ToolResult_turn_id@, k),
        is_last_call(blocks_at(m.turns, k), event->ToolResult_id@, i),
    ensures
        ({
            let before = blocks_at(m.turns, k);
            let after = event_applied(m, event, now).turns[k].blocks;
            &&& after.len() == before.len()
            &&& forall|j: int| 0 <= j < before.len() && j != i ==> #[trigger] after[j] == before[j]
            &&& only_result(
                before[i],
                after[i],
                OutcomeModel {
                    text: event->ToolResult_content@,
                    is_error: event->ToolResult_is_error matches Some(e) && e,
                },
            )
        }),
{
    lemma_is_turn(m.turns, event->ToolResult_turn_id@, k);
    lemma_last_call(blocks_at(m.turns, k), event->ToolResult_id@);
}

/// A result without a call is kept as a note that names the call and holds the text.
pub proof fn law_result_without_a_call_is_noted(
    m: ReducerModel,
    event: AgentEvent,
    now: Now,
    k: int,
)
    requires
        event is ToolResult,
        is_turn(m.turns, event->ToolResult_turn_id@, k),
        no_call(blocks_at(m.turns, k), event->ToolResult_id@),
    ensures
        ({
            let before = blocks_at(m.turns, k);
            let after = event_applied(m, event, now).turns[k].blocks;
            &&& one_added(before, after)
            &&& after.last() == BlockModel::Note(
                "[orphan tool result "@ + event->ToolResult_id@ + "] "@ + event->ToolResult_content@,
            )
        }),
{
    lemma_is_turn(m.turns, event->ToolResult_turn_id@, k);
    lemma_last_call(blocks_at(m.turns, k), event->ToolResult_id@);
}

/// An error is added at the end of its turn, and no turn runs from then on.
pub proof fn law_error_is_added(m: ReducerModel, event: AgentEvent, now: Now, k: int)
    requires
        event is Error,
        is_turn(m.turns, event->Error_turn_id@, k),
    ensures
        ({
            let r = event_applied(m, event, now);
            &&& one_added(blocks_at(m.turns, k), r.turns[k].blocks)
            &&& r.turns[k].blocks.last() == BlockModel::Error(event->Error_message@)
            &&& r.active_turn_started is None
            &&& r.status is None
        }),
{
    lemma_is_turn(m.turns, event->Error_turn_id@, k);
}

// ---- notes ---------------------------------------------------------------------------

/// A note was added at the end of the last turn; where there was no turn, one was opened.
pub open spec fn note_added(
    before: Seq<TurnModel>,
    after: Seq<TurnModel>,
    text: Seq<char>,
) -> bool {
    let k = before.len() - 1;
    if before.len() == 0 {
        &&& after.len() == 1
        &&& after[0].id.len() == 0
        &&& after[0].blocks == seq![BlockModel::Note(text)]
    } else {
        &&& after.len() == before.len()
        &&& forall|j: int| 0 <= j < k ==> #[trigger] after[j] == before[j]
        &&& after[k].id == before[k].id
        &&& one_added(before[k].blocks, after[k].blocks)
        &&& after[k].blocks.last() == BlockModel::Note(text)
    }
}

/// What the engine says goes into the transcript as it is, and so does a change of session.
pub proof fn law_messages_are_noted(m: ReducerModel, event: AgentEvent, now: Now)
    ensures
        event matches AgentEvent::System { message } ==> note_added(
            m.turns,
            event_applied(m, event, now).turns,
            message@,
        ),
        event matches AgentEvent::SessionChanged { session_id } ==> note_added(
            m.turns,
            event_applied(m, event, now).turns,
            "session changed: "@ + session_id@,
        ),
        event matches AgentEvent::CompactAction {
            strategy,
            messages_before,
            messages_after,
            dropped_rounds,
            estimated_tokens_saved,
        } ==> note_added(
            m.turns,
            event_applied(m, event, now).turns,
            compact_note_spec(
                strategy@,
                messages_before,
                messages_after,
                dropped_rounds,
                estimated_tokens_saved,
            ),
        ),
{
    match event {
        AgentEvent::CompactAction {
            strategy,
            messages_before,
            messages_after,
            dropped_rounds,
            estimated_tokens_saved,
        } => {
            let text = compact_note_spec(
                strategy@,
                messages_before,
                messages_after,
                dropped_rounds,
                estimated_tokens_saved,
            );
            reveal_strlit(" messages");
            assert(note_added(m.turns, event_applied(m, event, now).turns, text));
        },
        _ => {},
    }
}

/// The note of a compaction gives its numbers, each under its own word.
pub proof fn law_compaction_gives_its_numbers(
    strategy: Seq<char>,
    before: u64,
    after: u64,
    rounds: u64,
    saved: u64,
)
    ensures
        ({
            let plain = compact_note_spec(strategy, before, after, None, None);
            let d = |n: u64| crate::text::decimal_spec(n as nat);
            &&& plain == "Context compacted ("@ + strategy + "): "@ + d(before) + " → "@ + d(after)
                + " messages"@
            &&& compact_note_spec(strategy, before, after, Some(rounds), None)
                == plain + ", "@ + d(rounds) + " rounds dropped"@
            &&& compact_note_spec(strategy, before, after, None, Some(saved))
                == plain + ", ~"@ + d(saved) + " tokens saved"@
            &&& compact_note_spec(
                strategy,
                before,
                after,
                Some(rounds),
                Some(saved),
            ) == plain + ", "@ + d(rounds) + " rounds dropped"@ + ", ~"@ + d(saved)
                + " tokens saved"@
        }),
{
}

/// The end of a turn: the transcript stays as it is, unless the turn stopped early, of which
/// a note is left. Either way nothing runs any more, and nothing is being cancelled.
pub proof fn law_end_of_a_turn(m: ReducerModel, event: AgentEvent, now: Now)
    requires
        event is TurnComplete,
    ensures
        ({
            let r = event_applied(m, event, now);
            let reason = event->TurnComplete_stop_reason@;
            &&& m.fits(event) ==> {
                &&& r.usage.token_in == m.usage.token_in + event->TurnComplete_input_tokens
                &&& r.usage.token_out == m.usage.token_out + event->TurnComplete_output_tokens
                &&& r.usage.turn_count == m.usage.turn_count + 1
            }
            &&& early_stop_spec(reason) is None ==> r.turns == m.turns
            &&& early_stop_spec(reason) matches Some(note) ==> note_added(m.turns, r.turns, note)
            &&& r.active_turn_started is None
            &&& !r.cancel_requested
            &&& r.status is None
        }),
{
}

/// Which ends are early ones, and what is said of them.
pub proof fn law_early_ends(reason: Seq<char>)
    ensures
        early_stop_spec("cancelled"@) == Some("Turn cancelled."@),
        early_stop_spec("max_turns"@) == Some(
            "Turn stopped: hit the per-turn API call limit (max_turns)."@,
        ),
        early_stop_spec("budget_exceeded"@) == Some(
            "Turn stopped: token budget for this turn exhausted."@,
        ),
        early_stop_spec("max_structured_output_retries"@) == Some(
            "Turn stopped: the model kept returning unparseable structured output."@,
        ),
        early_stop_spec("context_exceeded"@) == Some(
            "Turn stopped: the conversation is still over the context limit after compaction. Try /clear, or /compact with a narrower instruction."@,
        ),
        early_stop_spec("host_ceiling"@) == Some(
            "Turn stopped: a host-configured turn limit was reached."@,
        ),
        early_stop_spec("stopped_by_hook"@) == Some("Turn stopped by a configured hook."@),
        early_stop_spec(reason) is Some ==> reason == "cancelled"@ || reason == "max_turns"@
            || reason == "budget_exceeded"@ || reason == "max_structured_output_retries"@ || reason
            == "context_exceeded"@ || reason == "host_ceiling"@ || reason == "stopped_by_hook"@,
{
    reveal_strlit("cancelled");
    reveal_strlit("max_turns");
    reveal_strlit("budget_exceeded");
    reveal_strlit("max_structured_output_retries");
    reveal_strlit("context_exceeded");
    reveal_strlit("host_ceiling");
    reveal_strlit("stopped_by_hook");
    assert("cancelled"@[0] == 'c' && "max_turns"@[0] == 'm');
    assert("budget_exceeded"@[0] == 'b' && "context_exceeded"@[0] == 'c');
    assert("cancelled"@.len() == 9 && "context_exceeded"@.len() == 16);
    assert("max_turns"@.len() == 9 && "max_structured_output_retries"@.len() == 29);
    assert("budget_exceeded"@.len() == 15 && "stopped_by_hook"@.len() == 15 && "host_ceiling"@.len()
        == 12);
    assert("stopped_by_hook"@[0] == 's' && "host_ceiling"@[0] == 'h');
}

// ---- what an event leaves alone ------------------------------------------------------

/// Each event changes its own part of the state and leaves the others as they are.
pub proof fn law_events_touch_only_their_own(m: ReducerModel, event: AgentEvent, now: Now)
    ensures
        ({
            let r = event_applied(m, event, now);
            &&& r.model_name == m.model_name
            &&& r.cwd == m.cwd
            &&& !(event is TurnComplete) ==> r.usage == m.usage
            &&& !(event is PermissionPrompt) ==> r.pending == m.pending
            &&& !(event is ToolUse) ==> r.tasks == m.tasks
            &&& !(event is AgentSpawned || event is AgentCompleted || event is SubagentProgress)
                ==> r.sub_agents == m.sub_agents
            &&& !(event is TurnComplete || event is Error) ==> r.active_turn_started
                == m.active_turn_started
            &&& !(event is TurnComplete) ==> r.cancel_requested == m.cancel_requested
            &&& !(event is TextDelta || event is ThinkingDelta || event is ToolUse) ==> r.activity
                == m.activity
            &&& event is PermissionPrompt || event is AgentSpawned || event is AgentCompleted
                || event is SubagentProgress ==> r.turns == m.turns && r.status == m.status
            &&& event is System || event is CompactAction || event is SessionChanged ==> r.status
                == m.status
            &&& event is SystemInit || event is SessionPersisted || event is SkillsChanged
                || event is TeamProgress ==> r == m
        }),
{
}

// ---- the status line -----------------------------------------------------------------

/// A whole number of seconds has passed, and not yet one more. A clock behind the start has
/// seen none.
pub proof fn law_seconds_are_whole(now: Now, started: u64)
    ensures
        now.steady_ms >= started ==> 1000 * now.seconds_since(started) <= now.steady_ms - started
            < 1000 * (now.seconds_since(started) + 1),
        now.steady_ms < started ==> now.seconds_since(started) == 0,
{
}

/// The status line of a running turn: what it is doing, for how long, and the usage of the
/// session.
pub open spec fn status_says(m: ReducerModel, activity: Seq<char>, now: Now) -> bool {
    match m.active_turn_started {
        Some(started) => m.status matches Some(
            StatusView::TurnRunning { spinner, activity: a, elapsed_secs, token_in, token_out },
        ) && spinner == status_spinner(now.wall_ms) && a == activity && elapsed_secs
            == now.seconds_since(started) && token_in == m.usage.token_in && token_out
            == m.usage.token_out,
        None => true,
    }
}

/// While a turn runs, the status line says what it is doing.
pub proof fn law_status_line_says_what_is_done(m: ReducerModel, event: AgentEvent, now: Now)
    ensures
        event is TextDelta ==> status_says(
            event_applied(m, event, now),
            "Streaming response…"@,
            now,
        ),
        event is ThinkingDelta ==> status_says(event_applied(m, event, now), "Thinking…"@, now),
        event matches AgentEvent::ToolUse { name, .. } ==> status_says(
            event_applied(m, event, now),
            "Running "@ + name@ + "…"@,
            now,
        ),
        event is TextDelta ==> event_applied(m, event, now).activity == "Streaming response…"@,
        event is ThinkingDelta ==> event_applied(m, event, now).activity == "Thinking…"@,
        event matches AgentEvent::ToolUse { name, .. } ==> event_applied(m, event, now).activity
            == "Running "@ + name@ + "…"@,
        event is ToolResult ==> event_applied(m, event, now).status == m.status,
        m.active_turn_started is None ==> event_applied(m, event, now).status == m.status
            || event_applied(m, event, now).status is None,
{
}

/// The clock changes nothing but the status line, and that only while a turn runs.
pub proof fn law_clock_moves_the_status_line(m: ReducerModel, now: Now)
    ensures
        m.active_turn_started is None ==> m.refreshed(now) == m,
        m.refreshed(now) == (ReducerModel { status: m.refreshed(now).status, ..m }),
        status_says(m.refreshed(now), m.activity, now),
{
}

/// The spinner goes round once in six tenths of a second, through four frames of the same
/// length.
pub proof fn law_spinner_goes_round(ms: u128, turns: u128)
    requires
        ms < 600,
        ms + 600 * turns <= u128::MAX,
    ensures
        ({
            let c = status_spinner((ms + 600 * turns) as u128);
            &&& ms < 150 ==> c == '|'
            &&& 150 <= ms < 300 ==> c == '/'
            &&& 300 <= ms < 450 ==> c == '-'
            &&& 450 <= ms ==> c == '\\'
        }),
{
    let t = ms + 600 * turns;
    let q = ms as int / 150;
    assert(t / 150 == q + 4 * turns) by (nonlinear_arith)
        requires
            t == ms + 600 * turns,
            q == ms as int / 150,
            ms >= 0,
    ;
    assert((q + 4 * turns) % 4 == q % 4) by (nonlinear_arith)
        requires
            q >= 0,
            turns >= 0,
    ;
}

// ---- what the user does --------------------------------------------------------------

/// A submitted text opens a turn of its own, with the text as its prompt; the turns before it
/// stay. The turn runs from then on.
pub proof fn law_submitting_opens_a_turn(
    m: ReducerModel,
    turn_id: Seq<char>,
    text: Seq<char>,
    now: Now,
)
    ensures
        ({
            let r = m.begun(turn_id, text, now);
            &&& r.turns == m.turns.push(
                TurnModel { id: turn_id, blocks: seq![BlockModel::UserPrompt(text)] },
            )
            &&& r.active_turn_started == Some(now.steady_ms)
            &&& !r.cancel_requested
            &&& status_says(r, "Working…"@, now)
            &&& r.activity == "Working…"@
            &&& r == (ReducerModel {
                turns: r.turns,
                active_turn_started: r.active_turn_started,
                cancel_requested: false,
                activity: r.activity,
                status: r.status,
                ..m
            })
        }),
{
}

/// The wish to cancel is kept and shown; without a running turn there is nothing to cancel.
pub proof fn law_cancelling_is_shown(m: ReducerModel, now: Now)
    ensures
        m.active_turn_started is None ==> m.cancelling(now) == m,
        m.active_turn_started is Some ==> {
            let r = m.cancelling(now);
            &&& r.cancel_requested
            &&& status_says(r, "Cancelling…"@, now)
            &&& r.activity == "Cancelling…"@
            &&& r == (ReducerModel {
                cancel_requested: true,
                activity: r.activity,
                status: r.status,
                ..m
            })
        },
{
}

/// A permission request waits at the end of the queue, under its own id, with the four answers
/// in order.
pub proof fn law_permission_request_waits(m: ReducerModel, event: AgentEvent, now: Now)
    requires
        event is PermissionPrompt,
    ensures
        ({
            let r = event_applied(m, event, now).pending;
            &&& r.len() == m.pending.len() + 1
            &&& forall|i: int| 0 <= i < m.pending.len() ==> #[trigger] r[i] == m.pending[i]
            &&& r.last().prompt_id == event->PermissionPrompt_prompt_id@
            &&& r.last().tool_name == event->PermissionPrompt_tool_name@
            &&& r.last().message == event->PermissionPrompt_message@
            &&& r.last().answer_with == AnswerWith::Choose
            &&& r.last().selected_option == 0
            &&& r.last().options.len() == 4
            &&& r.last().options[0] is PermitOnce
            &&& r.last().options[1] is PermitSession
            &&& r.last().options[2] is PermitProject
            &&& r.last().options[3] is Deny
        }),
{
}

/// A question of the model waits at the end of the queue, under its own id. With options one
/// of them is chosen, each under its own key and label; without any the answer is typed.
pub proof fn law_question_waits(m: ReducerModel, q: PendingQuestion)
    ensures
        ({
            let r = m.questioned(QuestionEvent::Ask(q)).pending;
            &&& r.len() == m.pending.len() + 1
            &&& forall|i: int| 0 <= i < m.pending.len() ==> #[trigger] r[i] == m.pending[i]
            &&& r.last().prompt_id == q.id@
            &&& r.last().tool_name == q.header@
            &&& r.last().message == q.question@
            &&& r.last().answer_with == AnswerWith::Type <==> q.options@.len() == 0
            &&& r.last().options.len() == q.options@.len()
            &&& r.last().selected_option == 0
            &&& forall|i: int| 0 <= i < q.options@.len() ==> #[trigger] r.last().options[i] == (
            OptionView::Answer { key: q.options@[i].0@, label: q.options@[i].1@ })
            &&& m.questioned(QuestionEvent::Ask(q)) == (ReducerModel { pending: r, ..m })
        }),
{
}

/// A question that is withdrawn is off the queue, as if it had been answered.
pub proof fn law_withdrawn_question_is_gone(m: ReducerModel, id: String)
    ensures
        m.questioned(QuestionEvent::Withdraw(id)) == m.resolved(id@),
        m.resolved(id@) == (ReducerModel { pending: m.resolved(id@).pending, ..m }),
{
}

/// Taking a request off the queue keeps the order of the others: of two queues one after the
/// other, each gives what is left of it.
pub proof fn law_resolving_keeps_the_order(a: Seq<AskView>, b: Seq<AskView>, id: Seq<char>)
    ensures
        unresolved(a + b, id) == unresolved(a, id) + unresolved(b, id),
        b.len() == 1 ==> unresolved(b, id) == if b[0].prompt_id == id {
            seq![]
        } else {
            b
        },
    decreases b.len(),
{
    if b.len() == 0 {
        assert(a + b =~= a);
        assert(unresolved(a, id) + unresolved(b, id) =~= unresolved(a, id));
    } else {
        law_resolving_keeps_the_order(a, b.drop_last(), id);
        assert((a + b).drop_last() =~= a + b.drop_last());
        assert(unresolved(a + b, id) =~= unresolved(a, id) + unresolved(b, id));
        if b.len() == 1 {
            assert(b.drop_last() =~= seq![]);
            assert(unresolved(b.drop_last(), id) =~= seq![]);
            assert(unresolved(b, id) =~= if b[0].prompt_id == id {
                seq![]
            } else {
                b
            });
        }
    }
}

/// Another model: its name is in force, and the transcript says so.
pub proof fn law_changing_the_model(m: ReducerModel, name: Seq<char>)
    ensures
        m.with_model(name).model_name == name,
        note_added(
            m.turns,
            m.with_model(name).turns,
            "model switched to "@ + name + " (takes effect next turn)"@,
        ),
        m.with_model(name) == (ReducerModel {
            model_name: name,
            turns: m.with_model(name).turns,
            ..m
        }),
{
}

/// A note of the user's side is added, and nothing else changes.
pub proof fn law_noting(m: ReducerModel, text: Seq<char>)
    ensures
        note_added(m.turns, m.noted(text).turns, text),
        m.noted(text) == (ReducerModel { turns: m.noted(text).turns, ..m }),
{
}

/// Folding acts on the calls of that id, wherever they are, and changes nothing but whether
/// they are folded.
pub proof fn law_folding_acts_on_its_calls(m: ReducerModel, block_id: Seq<char>, i: int, j: int)
    requires
        0 <= i < m.turns.len(),
        0 <= j < m.turns[i].blocks.len(),
    ensures
        ({
            let r = m.toggled(block_id);
            let before = m.turns[i].blocks[j];
            let after = r.turns[i].blocks[j];
            &&& r.turns.len() == m.turns.len()
            &&& r.turns[i].id == m.turns[i].id
            &&& r.turns[i].blocks.len() == m.turns[i].blocks.len()
            &&& before is Tool && before->Tool_id == block_id ==> after == (BlockModel::Tool {
                id: before->Tool_id,
                name: before->Tool_name,
                input_summary: before->Tool_input_summary,
                result: before->Tool_result,
                expanded: !before->Tool_expanded,
            })
            &&& !(before is Tool && before->Tool_id == block_id) ==> after == before
            &&& r == (ReducerModel { turns: r.turns, ..m })
        }),
{
}

// ---- sub-agents ----------------------------------------------------------------------

/// The first row of that id stands at `k`; where there is none, `k` is the end.
pub open spec fn is_row(rows: Seq<SubAgentModel>, id: Seq<char>, k: int) -> bool {
    &&& 0 <= k <= rows.len()
    &&& k < rows.len() ==> rows[k].id == id
    &&& forall|j: int| 0 <= j < k ==> (#[trigger] rows[j]).id != id
}

/// The usage of the row at `k`; none at the end.
pub open spec fn tokens_at(rows: Seq<SubAgentModel>, k: int) -> int {
    if 0 <= k < rows.len() {
        rows[k].tokens as int
    } else {
        0
    }
}

proof fn lemma_is_row(rows: Seq<SubAgentModel>, id: Seq<char>, k: int)
    requires
        is_row(rows, id, k),
    ensures
        agent_index(rows, id) == k,
{
    lemma_agent_index(rows, id);
    let i = agent_index(rows, id) as int;
    if i < k {
        assert(rows[i].id != id);
    } else if k < i {
        assert(rows[k].id != id);
    }
}

/// At most the row at `k` differs; it is there afterwards, under its id and with its start.
pub open spec fn only_row(
    before: Seq<SubAgentModel>,
    after: Seq<SubAgentModel>,
    id: Seq<char>,
    k: int,
    now: Now,
) -> bool {
    &&& after.len() == if k < before.len() {
        before.len()
    } else {
        before.len() + 1
    }
    &&& after[k].id == id
    &&& after[k].started == if k < before.len() {
        before[k].started
    } else {
        now.steady_ms
    }
    &&& forall|j: int| 0 <= j < before.len() && j != k ==> #[trigger] after[j] == before[j]
}

/// The sub-agent that an event is about, if it is about one.
pub open spec fn agent_named(event: AgentEvent) -> Option<Seq<char>> {
    match event {
        AgentEvent::AgentSpawned { agent_id } => Some(agent_id@),
        AgentEvent::AgentCompleted { agent_id, .. } => Some(agent_id@),
        AgentEvent::SubagentProgress { agent_label, .. } => Some(agent_label@),
        _ => None,
    }
}

/// An event of a sub-agent changes the row of that sub-agent and no other. The first one opens
/// it, from which on its time counts.
pub proof fn law_event_stays_in_its_row(m: ReducerModel, event: AgentEvent, now: Now, k: int)
    requires
        agent_named(event) is Some,
        is_row(m.sub_agents, agent_named(event)->0, k),
    ensures
        only_row(
            m.sub_agents,
            event_applied(m, event, now).sub_agents,
            agent_named(event)->0,
            k,
            now,
        ),
{
    lemma_is_row(m.sub_agents, agent_named(event)->0, k);
}

/// The usage of a sub-agent adds up: the end of a turn of its own adds the tokens of that turn
/// to what the row held before, and no other event changes the usage of any row.
pub proof fn law_sub_agent_usage_adds_up(m: ReducerModel, event: AgentEvent, now: Now, k: int)
    requires
        m.fits(event),
        event matches AgentEvent::SubagentProgress { agent_label, .. } ==> is_row(
            m.sub_agents,
            agent_label@,
            k,
        ),
    ensures
        ({
            let r = event_applied(m, event, now).sub_agents;
            match event {
                AgentEvent::SubagentProgress { event: inner, .. } => {
                    &&& tokens_at(r, k) == tokens_at(m.sub_agents, k) + match *inner {
                        AgentEvent::TurnComplete { input_tokens, output_tokens, .. } => input_tokens
                            + output_tokens,
                        _ => 0,
                    }
                    &&& forall|j: int| 0 <= j && j != k ==> #[trigger] tokens_at(r, j)
                        == tokens_at(m.sub_agents, j)
                },
                _ => forall|j: int|
                    0 <= j ==> #[trigger] tokens_at(r, j) == tokens_at(m.sub_agents, j),
            }
        }),
{
    match event {
        AgentEvent::SubagentProgress { agent_label, .. } => {
            lemma_is_row(m.sub_agents, agent_label@, k);
        },
        AgentEvent::AgentSpawned { agent_id } => {
            lemma_agent_index(m.sub_agents, agent_id@);
        },
        AgentEvent::AgentCompleted { agent_id, .. } => {
            lemma_agent_index(m.sub_agents, agent_id@);
        },
        _ => {},
    }
}

/// What an event of a sub-agent's own makes of its row: an end of a turn ends it with the
/// reason, an error fails it with the first line of the message, and anything else says that
/// it is running, and has not ended.
pub proof fn law_sub_agent_row_tells_how_it_goes(
    m: ReducerModel,
    event: AgentEvent,
    now: Now,
    k: int,
)
    requires
        event is SubagentProgress,
        is_row(m.sub_agents, event->SubagentProgress_agent_label@, k),
    ensures
        ({
            let row = event_applied(m, event, now).sub_agents[k];
            match *event->SubagentProgress_event {
                AgentEvent::TurnComplete { stop_reason, .. } => row.state == SubAgentState::Done
                    && row.outcome == Some(stop_reason@),
                AgentEvent::Error { message, .. } => row.state == SubAgentState::Failed
                    && row.outcome == Some(first_line_spec(message@)),
                _ => row.state == SubAgentState::Running && row.outcome is None,
            }
        }),
{
    lemma_is_row(m.sub_agents, event->SubagentProgress_agent_label@, k);
}

/// The announced end of a sub-agent: `failed` fails it and anything else ends it. What the
/// sub-agent said itself of its end is kept; otherwise the announced outcome is shown.
pub proof fn law_announced_end_keeps_what_was_said(
    m: ReducerModel,
    event: AgentEvent,
    now: Now,
    k: int,
)
    requires
        event is AgentCompleted,
        is_row(m.sub_agents, event->AgentCompleted_agent_id@, k),
    ensures
        ({
            let row = event_applied(m, event, now).sub_agents[k];
            let outcome = event->AgentCompleted_outcome@;
            &&& outcome == "failed"@ ==> row.state == SubAgentState::Failed
            &&& outcome != "failed"@ ==> row.state == SubAgentState::Done
            &&& row.outcome == if k < m.sub_agents.len() && m.sub_agents[k].outcome is Some {
                m.sub_agents[k].outcome
            } else {
                Some(outcome)
            }
        }),
{
    lemma_is_row(m.sub_agents, event->AgentCompleted_agent_id@, k);
}

/// A spawned sub-agent is running, with nothing used; one that is known stays as it is.
pub proof fn law_spawned_sub_agent_is_running(
    m: ReducerModel,
    event: AgentEvent,
    now: Now,
    k: int,
)
    requires
        event is AgentSpawned,
        is_row(m.sub_agents, event->AgentSpawned_agent_id@, k),
    ensures
        ({
            let row = event_applied(m, event, now).sub_agents[k];
            &&& k < m.sub_agents.len() ==> row == m.sub_agents[k]
            &&& k == m.sub_agents.len() ==> row.state == SubAgentState::Running && row.tokens == 0
                && row.outcome is None
        }),
{
    lemma_is_row(m.sub_agents, event->AgentSpawned_agent_id@, k);
}

// ---- tasks ---------------------------------------------------------------------------

/// The task list is what the task tool was last called with; another tool, or an input that
/// holds no list, leaves it as it is.
pub proof fn law_task_tool_sets_the_list(m: ReducerModel, event: AgentEvent, now: Now)
    requires
        event is ToolUse,
    ensures
        event->ToolUse_name@ == "TodoWrite"@ ==> (match parse_todos_spec(
            json_text(event->ToolUse_input),
        ) {
            Some(t) => event_applied(m, event, now).tasks == t,
            None => event_applied(m, event, now).tasks == m.tasks,
        }),
        event->ToolUse_name@ != "TodoWrite"@ ==> event_applied(m, event, now).tasks == m.tasks,
{
}

/// A task needs a status and a label. In progress it runs, completed it is done, and with any
/// other status it is pending. It goes by its content; a running one by its active form, where
/// it has one.
pub proof fn law_task_of_an_entry(e: TodoView)
    ensures
        ({
            let t = task_spec(e.status, e.active_form, e.content);
            let running = e.status == Some("in_progress"@);
            let own_form = running && e.active_form is Some && e.active_form->0.len() > 0;
            &&& t is None <==> e.status is None || (e.content is None && !own_form)
            &&& t matches Some(task) ==> {
                &&& task.status == ItemStatus::Running <==> running
                &&& task.status == ItemStatus::Done <==> e.status == Some("completed"@)
                &&& task.status != ItemStatus::Failed
                &&& own_form ==> Some(task.label) == e.active_form
                &&& !own_form ==> Some(task.label) == e.content
            }
        }),
{
    reveal_strlit("in_progress");
    reveal_strlit("completed");
    assert("in_progress"@.len() == 11 && "completed"@.len() == 9);
}

/// The tasks stand in the order of their entries, and an entry that makes none is left out.
pub proof fn law_tasks_are_in_order(a: Seq<TodoView>, b: Seq<TodoView>, e: TodoView)
    ensures
        tasks_of(a + b) == tasks_of(a) + tasks_of(b),
        tasks_of(seq![e]) == match task_spec(e.status, e.active_form, e.content) {
            Some(t) => seq![t],
            None => seq![],
        },
    decreases b.len(),
{
    let one = seq![e];
    assert(one.drop_last() =~= seq![]);
    assert(tasks_of(one.drop_last()) =~= seq![]);
    assert(tasks_of(one) =~= match task_spec(e.status, e.active_form, e.content) {
        Some(t) => seq![t],
        None => seq![],
    });
    if b.len() == 0 {
        assert(a + b =~= a);
        assert(tasks_of(a) + tasks_of(b) =~= tasks_of(a));
    } else {
        law_tasks_are_in_order(a, b.drop_last(), e);
        assert((a + b).drop_last() =~= a + b.drop_last());
        assert(tasks_of(a + b) =~= tasks_of(a) + tasks_of(b));
    }
}

/// The tasks are read from the list under `todos`: of each item the status, the form for while
/// it runs, and the content, each under its name and only where it is a text.
pub proof fn law_tasks_are_read_by_name(input: Seq<char>, list: Seq<char>, items: Seq<Seq<char>>)
    ensures
        json_member(input, "todos"@) is None ==> parse_todos_spec(input) is None,
        json_member(input, "todos"@) == Some(list) && json_items(list) is None
            ==> parse_todos_spec(input) is None,
        json_member(input, "todos"@) == Some(list) && json_items(list) == Some(items)
            ==> parse_todos_spec(input) == Some(
            tasks_of(
                Seq::new(
                    items.len(),
                    |i: int|
                        TodoView {
                            status: text_member(items[i], "status"@),
                            active_form: text_member(items[i], "active_form"@),
                            content: text_member(items[i], "content"@),
                        },
                ),
            ),
        ),
{
    if json_member(input, "todos"@) == Some(list) && json_items(list) == Some(items) {
        let read = items.map_values(|item: Seq<char>| todo_entry(item));
        let named = Seq::new(
            items.len(),
            |i: int|
                TodoView {
                    status: text_member(items[i], "status"@),
                    active_form: text_member(items[i], "active_form"@),
                    content: text_member(items[i], "content"@),
                },
        );
        assert(read =~= named);
    }
}

/// The text under a name, where there is one.
pub open spec fn text_member(item: Seq<char>, key: Seq<char>) -> Option<Seq<char>> {
    match json_member(item, key) {
        Some(v) => json_string(v),
        None => None,
    }
}

/// What the trace calls an event: by its kind, with the name of the tool where it has one, and
/// that of a sub-agent's event inside.
pub proof fn law_names_of_the_events(event: AgentEvent)
    ensures
        event_name_spec(event) == match event {
            AgentEvent::TextDelta { .. } => "TextDelta"@,
            AgentEvent::ThinkingDelta { .. } => "ThinkingDelta"@,
            AgentEvent::ToolUse { name, .. } => "ToolUse:"@ + name@,
            AgentEvent::ToolResult { name, .. } => "ToolResult:"@ + name@,
            AgentEvent::PermissionPrompt { .. } => "PermissionPrompt"@,
            AgentEvent::TurnComplete { .. } => "TurnComplete"@,
            AgentEvent::SystemInit => "SystemInit"@,
            AgentEvent::System { .. } => "System"@,
            AgentEvent::CompactAction { .. } => "CompactAction"@,
            AgentEvent::SessionChanged { .. } => "SessionChanged"@,
            AgentEvent::SessionPersisted => "SessionPersisted"@,
            AgentEvent::SkillsChanged => "SkillsChanged"@,
            AgentEvent::AgentSpawned { .. } => "AgentSpawned"@,
            AgentEvent::AgentCompleted { .. } => "AgentCompleted"@,
            AgentEvent::SubagentProgress { event: inner, .. } => "SubagentProgress("@
                + event_name_spec(*inner) + ")"@,
            AgentEvent::TeamProgress => "TeamProgress"@,
            AgentEvent::Error { .. } => "Error"@,
        },
{
}

/// An event can be applied unless a count would overflow or the summary of a call would be cut
/// inside a character.
pub proof fn law_events_that_fit(m: ReducerModel, event: AgentEvent, k: int, n: int)
    ensures
        !(event is ToolUse || event is TurnComplete || event is SubagentProgress) ==> m.fits(event),
        event matches AgentEvent::ToolUse { input, .. } ==> {
            let s = json_text(input);
            &&& byte_len(s) <= 80 ==> m.fits(event)
            &&& 0 <= n <= s.len() && byte_len(s.take(n)) == 80 ==> m.fits(event)
            &&& m.fits(event) && byte_len(s) > 80 ==> exists|j: int|
                0 <= j <= s.len() && #[trigger] byte_len(s.take(j)) == 80
        },
        event matches AgentEvent::TurnComplete { input_tokens, output_tokens, .. } ==> (m.fits(
            event,
        ) <==> m.usage.token_in + input_tokens <= u64::MAX && m.usage.token_out + output_tokens
            <= u64::MAX && m.usage.turn_count + 1 <= u32::MAX),
        event matches AgentEvent::SubagentProgress { agent_label, event: inner } ==> {
            &&& !(*inner is TurnComplete) ==> m.fits(event)
            &&& is_row(m.sub_agents, agent_label@, k) ==> (*inner matches AgentEvent::TurnComplete {
                input_tokens,
                output_tokens,
                ..
            } ==> (m.fits(event) <==> tokens_at(m.sub_agents, k) + input_tokens + output_tokens
                <= u64::MAX))
        },
{
    match event {
        AgentEvent::ToolUse { input, .. } => {
            let s = json_text(input);
            if 0 <= n <= s.len() && byte_len(s.take(n)) == 80 {
                lemma_char_pos_of_prefix(s, n);
            }
            if m.fits(event) && byte_len(s) > 80 {
                lemma_char_pos_bound(s, 80);
                let j = char_pos(s, 80) as int;
                assert(byte_len(s.take(j)) == 80);
            }
        },
        AgentEvent::SubagentProgress { agent_label, event: inner } => {
            if is_row(m.sub_agents, agent_label@, k) {
                lemma_is_row(m.sub_agents, agent_label@, k);
            }
        },
        _ => {},
    }
}

} // verus!
