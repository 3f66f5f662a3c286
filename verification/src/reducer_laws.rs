//! What holds of a session across several operations.

use crate::doctor::HealthReport;
use crate::domain::{
    blocks_of, lemma_turn_index, turn_index, with_blocks, with_note, AgentEvent, BlockModel, Now,
    OutcomeModel, SubAgentModel, TurnModel,
};
use crate::frame_state::{entries_view, AskView, EntryView, LineKind, TranscriptEntry};
use crate::handle::{command_applied, CommandView};
use crate::merge::prompts_spec;
use crate::reducer::{
    agent_index, cut_spec, event_applied, is_tool, orphan_note, result_added, summary_spec,
    text_added, thinking_added, toggle_turns, tool_end, unresolved, with_result, ReducerModel,
    SUMMARY_BYTES,
};
use crate::snapshot::turns_entries;
use crate::text::{
    byte_len, char_pos, has_no_feed, lemma_byte_len_add, lemma_char_pos_bound, lemma_span,
    lines_spec, span, strip_cr,
};
use crate::transcript_lines::{
    block_entries, blocks_entries, fold_note, result_entries, text_entries, FOLD_LINE_THRESHOLD,
};
use vstd::prelude::*;

verus! {

// ---- lines ---------------------------------------------------------------------------

proof fn lemma_lines_have_no_feed(s: Seq<char>)
    ensures
        forall|i: int| 0 <= i < lines_spec(s).len() ==> has_no_feed(#[trigger] lines_spec(s)[i]),
    decreases s.len(),
{
    let k = span(s, '\n') as int;
    lemma_span(s, '\n');
    if s.len() > 0 {
        if k >= s.len() {
            assert(has_no_feed(s));
        } else {
            let head = strip_cr(s.take(k));
            assert forall|i: int| 0 <= i < head.len() implies #[trigger] head[i] != '\n' by {
                assert(head[i] == s[i]);
            }
            lemma_lines_have_no_feed(s.skip(k + 1));
            let rest = lines_spec(s.skip(k + 1));
            assert forall|i: int| 0 <= i < lines_spec(s).len() implies has_no_feed(
                #[trigger] lines_spec(s)[i],
            ) by {
                if i > 0 {
                    assert(lines_spec(s)[i] == rest[i - 1]);
                }
            }
        }
    }
}

/// An entry is one line on the screen: what is made of a text holds no line feed.
pub proof fn law_text_entries_are_single_lines(kind: LineKind, text: Seq<char>, i: int)
    requires
        0 <= i < text_entries(kind, text).len(),
    ensures
        has_no_feed(text_entries(kind, text)[i].text),
{
    lemma_lines_have_no_feed(text);
}

/// The same of what is made of a tool result.
pub proof fn law_result_entries_are_single_lines(
    result: OutcomeModel,
    expanded: bool,
    id: Seq<char>,
    i: int,
)
    requires
        0 <= i < result_entries(result, expanded, id).len(),
    ensures
        has_no_feed(result_entries(result, expanded, id)[i].text),
{
    lemma_lines_have_no_feed(result.text);
    lemma_fold_note((lines_spec(result.text).len() - FOLD_LINE_THRESHOLD) as nat);
}

proof fn lemma_fold_note(n: nat)
    ensures
        has_no_feed(fold_note(n)),
{
    reveal_strlit("… ");
    reveal_strlit(" more lines (toggle to expand)");
    lemma_digits(n);
}

proof fn lemma_digits(n: nat)
    ensures
        has_no_feed(crate::text::decimal_spec(n)),
    decreases n,
{
    if n >= 10 {
        lemma_digits(n / 10);
    }
}

/// Folding hides lines and loses none: unfolded, a result shows each of its lines; folded,
/// the first few and the number of the others.
pub proof fn law_unfolding_shows_every_line(result: OutcomeModel, id: Seq<char>)
    requires
        lines_spec(result.text).len() > 0,
    ensures
        result_entries(result, true, id).len() == lines_spec(result.text).len(),
        lines_spec(result.text).len() > FOLD_LINE_THRESHOLD ==> {
            &&& result_entries(result, false, id).len() == FOLD_LINE_THRESHOLD + 1
            &&& result_entries(result, false, id).take(FOLD_LINE_THRESHOLD as int)
                == result_entries(result, true, id).take(FOLD_LINE_THRESHOLD as int)
        },
        lines_spec(result.text).len() <= FOLD_LINE_THRESHOLD ==> result_entries(result, false, id)
            == result_entries(result, true, id),
{
}

/// The heading of a call is one line: the name of the tool is, and so is the summary.
pub open spec fn block_is_lines(b: BlockModel) -> bool {
    match b {
        BlockModel::Tool { name, input_summary, .. } => has_no_feed(name) && has_no_feed(
            input_summary,
        ),
        _ => true,
    }
}

pub open spec fn blocks_are_lines(blocks: Seq<BlockModel>) -> bool {
    forall|i: int| 0 <= i < blocks.len() ==> block_is_lines(#[trigger] blocks[i])
}

/// The headings of all calls are one line each.
pub open spec fn turns_are_lines(turns: Seq<TurnModel>) -> bool {
    forall|i: int| 0 <= i < turns.len() ==> blocks_are_lines((#[trigger] turns[i]).blocks)
}

/// The tool that an event names has a name of one line.
pub open spec fn names_a_line(event: AgentEvent) -> bool {
    event matches AgentEvent::ToolUse { name, .. } ==> has_no_feed(name@)
}

proof fn lemma_block_entries_are_lines(b: BlockModel)
    requires
        block_is_lines(b),
    ensures
        forall|i: int|
            0 <= i < block_entries(b).len() ==> has_no_feed((#[trigger] block_entries(b)[i]).text),
{
    let es = block_entries(b);
    assert forall|i: int| 0 <= i < es.len() implies has_no_feed((#[trigger] es[i]).text) by {
        match b {
            BlockModel::UserPrompt(t) => law_text_entries_are_single_lines(
                LineKind::UserPrompt,
                t,
                i,
            ),
            BlockModel::AssistantText(t) => law_text_entries_are_single_lines(
                LineKind::AssistantText,
                t,
                i,
            ),
            BlockModel::Thinking(t) => law_text_entries_are_single_lines(LineKind::Thinking, t, i),
            BlockModel::Note(t) => law_text_entries_are_single_lines(LineKind::Note, t, i),
            BlockModel::Error(t) => law_text_entries_are_single_lines(LineKind::Error, t, i),
            BlockModel::Tool { id, name, input_summary, result, expanded } => {
                reveal_strlit("(");
                reveal_strlit(")");
                if i > 0 {
                    let r = result->0;
                    assert(es[i] == result_entries(r, expanded, id)[i - 1]);
                    law_result_entries_are_single_lines(r, expanded, id, i - 1);
                }
            },
        }
    }
}

proof fn lemma_blocks_entries_are_lines(blocks: Seq<BlockModel>)
    requires
        blocks_are_lines(blocks),
    ensures
        forall|i: int|
            0 <= i < blocks_entries(blocks).len() ==> has_no_feed(
                (#[trigger] blocks_entries(blocks)[i]).text,
            ),
    decreases blocks.len(),
{
    if blocks.len() > 0 {
        lemma_blocks_entries_are_lines(blocks.drop_last());
        assert(block_is_lines(blocks[blocks.len() - 1]));
        lemma_block_entries_are_lines(blocks.last());
        let a = blocks_entries(blocks.drop_last());
        let b = block_entries(blocks.last());
        assert(blocks_entries(blocks) =~= a + b);
        assert forall|i: int| 0 <= i < blocks_entries(blocks).len() implies has_no_feed(
            (#[trigger] blocks_entries(blocks)[i]).text,
        ) by {
            if i >= a.len() {
                assert(blocks_entries(blocks)[i] == b[i - a.len()]);
            } else {
                assert(blocks_entries(blocks)[i] == a[i]);
            }
        }
    }
}

/// No line of the transcript holds a line feed. That the headings of the calls are one line
/// each is what every event, every command and a restored session keep.
pub proof fn law_transcript_is_made_of_lines(turns: Seq<TurnModel>, i: int)
    requires
        turns_are_lines(turns),
        0 <= i < turns_entries(turns).len(),
    ensures
        has_no_feed(turns_entries(turns)[i].text),
    decreases turns.len(),
{
    if turns.len() > 0 {
        let a = turns_entries(turns.drop_last());
        assert(blocks_are_lines(turns[turns.len() - 1].blocks));
        lemma_blocks_entries_are_lines(turns.last().blocks);
        if i < a.len() {
            law_transcript_is_made_of_lines(turns.drop_last(), i);
        } else {
            assert(turns_entries(turns)[i] == blocks_entries(turns.last().blocks)[i - a.len()]);
        }
    }
}

pub proof fn lemma_note_keeps_lines(turns: Seq<TurnModel>, text: Seq<char>)
    requires
        turns_are_lines(turns),
    ensures
        turns_are_lines(with_note(turns, text)),
{
    let after = with_note(turns, text);
    assert forall|i: int| 0 <= i < after.len() implies blocks_are_lines(
        (#[trigger] after[i]).blocks,
    ) by {
        if i < turns.len() {
            assert(blocks_are_lines(turns[i].blocks));
        }
    }
}

proof fn lemma_blocks_of_lines(turns: Seq<TurnModel>, id: Seq<char>)
    requires
        turns_are_lines(turns),
    ensures
        blocks_are_lines(blocks_of(turns, id)),
{
    lemma_turn_index(turns, id);
}

proof fn lemma_with_blocks_keeps_lines(
    turns: Seq<TurnModel>,
    id: Seq<char>,
    blocks: Seq<BlockModel>,
)
    requires
        turns_are_lines(turns),
        blocks_are_lines(blocks),
    ensures
        turns_are_lines(with_blocks(turns, id, blocks)),
{
    lemma_turn_index(turns, id);
    let after = with_blocks(turns, id, blocks);
    assert forall|i: int| 0 <= i < after.len() implies blocks_are_lines(
        (#[trigger] after[i]).blocks,
    ) by {
        if i < turns.len() {
            assert(blocks_are_lines(turns[i].blocks));
        }
    }
}

/// An event keeps the headings of the calls one line each, where the name and the summary
/// that it brings are. The summary always is: it is cut from compact JSON.
pub proof fn law_events_keep_lines(m: ReducerModel, event: AgentEvent, now: Now)
    requires
        turns_are_lines(m.turns),
        names_a_line(event),
        event matches AgentEvent::ToolUse { input, .. } ==> has_no_feed(summary_spec(input)),
    ensures
        turns_are_lines(event_applied(m, event, now).turns),
{
    match event {
        AgentEvent::TextDelta { text, turn_id } => {
            let b = blocks_of(m.turns, turn_id@);
            lemma_blocks_of_lines(m.turns, turn_id@);
            assert(blocks_are_lines(text_added(b, text@)));
            lemma_with_blocks_keeps_lines(m.turns, turn_id@, text_added(b, text@));
        },
        AgentEvent::ThinkingDelta { text, turn_id } => {
            let b = blocks_of(m.turns, turn_id@);
            lemma_blocks_of_lines(m.turns, turn_id@);
            assert(blocks_are_lines(thinking_added(b, text@)));
            lemma_with_blocks_keeps_lines(m.turns, turn_id@, thinking_added(b, text@));
        },
        AgentEvent::ToolUse { id, name, input, turn_id } => {
            let b = blocks_of(m.turns, turn_id@);
            lemma_blocks_of_lines(m.turns, turn_id@);
            let block = BlockModel::Tool {
                id: id@,
                name: name@,
                input_summary: summary_spec(input),
                result: None,
                expanded: false,
            };
            assert(blocks_are_lines(b.push(block)));
            lemma_with_blocks_keeps_lines(m.turns, turn_id@, b.push(block));
        },
        AgentEvent::ToolResult { id, content, is_error, turn_id, .. } => {
            let b = blocks_of(m.turns, turn_id@);
            let outcome = OutcomeModel { text: content@, is_error: is_error == Some(true) };
            lemma_blocks_of_lines(m.turns, turn_id@);
            lemma_tool_end(b, id@);
            let after = result_added(b, id@, outcome);
            assert forall|i: int| 0 <= i < after.len() implies block_is_lines(
                #[trigger] after[i],
            ) by {
                if i < b.len() {
                    assert(block_is_lines(b[i]));
                }
            }
            lemma_with_blocks_keeps_lines(m.turns, turn_id@, after);
        },
        AgentEvent::Error { message, turn_id } => {
            let b = blocks_of(m.turns, turn_id@).push(BlockModel::Error(message@));
            lemma_blocks_of_lines(m.turns, turn_id@);
            lemma_with_blocks_keeps_lines(m.turns, turn_id@, b);
        },
        _ => {
            assert forall|text: Seq<char>| #[trigger]
                turns_are_lines(with_note(m.turns, text)) by {
                lemma_note_keeps_lines(m.turns, text);
            }
        },
    }
}

/// What the user does keeps them too.
pub proof fn law_commands_keep_lines(
    m: ReducerModel,
    cmd: CommandView,
    turn_id: Seq<char>,
    now: Now,
    health: Option<HealthReport>,
)
    requires
        turns_are_lines(m.turns),
    ensures
        turns_are_lines(command_applied(m, cmd, turn_id, now, health).turns),
{
    let after = command_applied(m, cmd, turn_id, now, health).turns;
    assert forall|text: Seq<char>| #[trigger] turns_are_lines(with_note(m.turns, text)) by {
        lemma_note_keeps_lines(m.turns, text);
    }
    match cmd {
        CommandView::Submit { .. } => {
            assert forall|i: int| 0 <= i < after.len() implies blocks_are_lines(
                (#[trigger] after[i]).blocks,
            ) by {
                if i < m.turns.len() {
                    assert(blocks_are_lines(m.turns[i].blocks));
                }
            }
        },
        CommandView::ToggleExpand { block_id } => {
            assert forall|i: int| 0 <= i < after.len() implies blocks_are_lines(
                (#[trigger] after[i]).blocks,
            ) by {
                assert(blocks_are_lines(m.turns[i].blocks));
                assert forall|j: int| 0 <= j < after[i].blocks.len() implies block_is_lines(
                    #[trigger] after[i].blocks[j],
                ) by {
                    assert(block_is_lines(m.turns[i].blocks[j]));
                }
            }
        },
        _ => {},
    }
}

/// A summary is cut to its length: no more than the limit and the three bytes of the
/// ellipsis.
pub proof fn law_summary_is_short(s: Seq<char>)
    ensures
        byte_len(cut_spec(s)) <= SUMMARY_BYTES + 3,
{
    reveal_strlit("…");
    let k = char_pos(s, SUMMARY_BYTES as nat) as int;
    lemma_char_pos_bound(s, SUMMARY_BYTES as nat);
    let e = "…"@;
    assert(byte_len(e) == crate::text::char_len('…') + byte_len(e.drop_first()));
    lemma_byte_len_add(s.take(k), e);
}

// ---- prompts -------------------------------------------------------------------------

/// A text that lines can be put together to: it holds no carriage return and does not end
/// in a line feed.
pub open spec fn is_submitted_text(t: Seq<char>) -> bool {
    &&& t.len() > 0
    &&& t.last() != '\n'
    &&& forall|i: int| 0 <= i < t.len() ==> #[trigger] t[i] != '\r'
}

/// The lines from the `k`-th on, each behind a line feed.
pub open spec fn feed_joined(lines: Seq<Seq<char>>, k: int) -> Seq<char>
    decreases lines.len() - k,
{
    if k >= lines.len() {
        seq![]
    } else {
        seq!['\n'] + lines[k] + feed_joined(lines, k + 1)
    }
}

proof fn lemma_feed_joined_shift(a: Seq<Seq<char>>, b: Seq<Seq<char>>, x: Seq<char>, k: int)
    requires
        a == seq![x] + b,
        0 <= k <= b.len(),
    ensures
        feed_joined(a, k + 1) == feed_joined(b, k),
    decreases b.len() - k,
{
    if k < b.len() {
        lemma_feed_joined_shift(a, b, x, k + 1);
    }
}

/// The lines of a submitted text, joined again, are the text.
proof fn lemma_lines_join(t: Seq<char>)
    requires
        is_submitted_text(t),
    ensures
        lines_spec(t).len() > 0,
        lines_spec(t)[0] + feed_joined(lines_spec(t), 1) == t,
    decreases t.len(),
{
    let k = span(t, '\n') as int;
    lemma_span(t, '\n');
    let ls = lines_spec(t);
    if k < t.len() {
        let head = t.take(k);
        let rest = t.skip(k + 1);
        lemma_lines_join(rest);
        let rl = lines_spec(rest);
        lemma_feed_joined_shift(ls, rl, head, 1);
        assert(head + (seq!['\n'] + rest) =~= t);
    }
}

proof fn lemma_prompts_run(es: Seq<TranscriptEntry>, more: Seq<TranscriptEntry>, t: Seq<char>, k: int)
    requires
        t.len() > 0,
        entries_view(more) == text_entries(LineKind::UserPrompt, t),
        0 < k <= more.len(),
    ensures
        prompts_spec(es + more.take(k)).len() == prompts_spec(es).len() + 1,
        prompts_spec(es + more.take(k)).drop_last() == prompts_spec(es),
        prompts_spec(es + more.take(k)).last() + feed_joined(lines_spec(t), k) == lines_spec(t)[0]
            + feed_joined(lines_spec(t), 1),
    decreases k,
{
    let all = es + more.take(k);
    let e = more[k - 1];
    assert(entries_view(more).len() == more.len());
    assert(entries_view(more)[k - 1] == e@);
    assert(all.drop_last() =~= es + more.take(k - 1));
    if k > 1 {
        lemma_prompts_run(es, more, t, k - 1);
    }
}

/// A submitted text comes back whole from the transcript, as one entry of the history, and
/// the prompts before it stay as they are.
pub proof fn law_prompt_comes_back_whole(
    es: Seq<TranscriptEntry>,
    more: Seq<TranscriptEntry>,
    t: Seq<char>,
)
    requires
        is_submitted_text(t),
        entries_view(more) == text_entries(LineKind::UserPrompt, t),
    ensures
        prompts_spec(es + more) == prompts_spec(es).push(t),
{
    lemma_lines_join(t);
    let n = more.len() as int;
    assert(entries_view(more).len() == n);
    lemma_prompts_run(es, more, t, n);
    assert(more.take(n) =~= more);
}

// ---- requests ------------------------------------------------------------------------

/// Taking a request off the queue takes off that one and no other.
pub proof fn law_resolving_removes_exactly_that_request(
    pending: Seq<AskView>,
    id: Seq<char>,
    a: AskView,
)
    ensures
        unresolved(pending, id).contains(a) <==> pending.contains(a) && a.prompt_id != id,
    decreases pending.len(),
{
    if pending.len() > 0 {
        let init = pending.drop_last();
        law_resolving_removes_exactly_that_request(init, id, a);
        let before = unresolved(init, id);
        let after = unresolved(pending, id);
        if before.contains(a) {
            let k = choose|k: int| 0 <= k < before.len() && before[k] == a;
            assert(after[k] == a);
        }
        if pending.last() == a {
            if a.prompt_id != id {
                assert(after[after.len() - 1] == a);
            }
        }
        if pending.contains(a) && pending.last() != a {
            let k = choose|k: int| 0 <= k < pending.len() && pending[k] == a;
            assert(init[k] == a);
        }
    }
}

/// Answering twice is the same as answering once.
pub proof fn law_resolving_is_idempotent(pending: Seq<AskView>, id: Seq<char>)
    ensures
        unresolved(unresolved(pending, id), id) == unresolved(pending, id),
    decreases pending.len(),
{
    if pending.len() > 0 {
        let init = pending.drop_last();
        law_resolving_is_idempotent(init, id);
        if pending.last().prompt_id != id {
            let before = unresolved(init, id);
            let after = before.push(pending.last());
            assert(after.drop_last() =~= before);
        }
    }
}

// ---- turns and blocks ----------------------------------------------------------------

/// Folding a block and unfolding it leads back.
pub proof fn law_toggle_undoes_toggle(m: ReducerModel, id: Seq<char>)
    ensures
        m.toggled(id).toggled(id) == m,
{
    let once = toggle_turns(m.turns, id);
    let twice = toggle_turns(once, id);
    assert forall|i: int| 0 <= i < m.turns.len() implies #[trigger] twice[i] == m.turns[i] by {
    }
}

/// An event that belongs to one turn leaves the blocks of every other turn as they are.
pub proof fn law_other_turns_are_untouched(
    turns: Seq<TurnModel>,
    id: Seq<char>,
    blocks: Seq<BlockModel>,
    other: Seq<char>,
)
    requires
        id != other,
    ensures
        blocks_of(with_blocks(turns, id, blocks), other) == blocks_of(turns, other),
        blocks_of(with_blocks(turns, id, blocks), id) == blocks,
{
    let after = with_blocks(turns, id, blocks);
    lemma_turn_index(turns, id);
    lemma_turn_index(turns, other);
    lemma_turn_index(after, id);
    lemma_turn_index(after, other);
    let i = turn_index(turns, id) as int;
    let j = turn_index(turns, other) as int;
    assert(after[i].id == id);
    if j < turns.len() {
        assert(after[j].id == other);
    }
}

/// A note is never swallowed: the transcript ends with its lines, and what was there before
/// stays as it is.
pub proof fn law_notes_are_never_swallowed(turns: Seq<TurnModel>, text: Seq<char>)
    ensures
        turns_entries(with_note(turns, text)) == turns_entries(turns) + text_entries(
            LineKind::Note,
            text,
        ),
{
    let after = with_note(turns, text);
    if turns.len() == 0 {
        assert(after.drop_last() =~= turns);
        let blocks = after.last().blocks;
        assert(blocks_entries(blocks.drop_last()) == Seq::<EntryView>::empty());
    } else {
        assert(after.drop_last() =~= turns.drop_last());
        let old_blocks = turns.last().blocks;
        let blocks = after.last().blocks;
        assert(blocks.drop_last() =~= old_blocks);
        assert(turns_entries(after) =~= turns_entries(turns) + text_entries(LineKind::Note, text));
    }
}

proof fn lemma_tool_end(blocks: Seq<BlockModel>, id: Seq<char>)
    ensures
        tool_end(blocks, id) <= blocks.len(),
        tool_end(blocks, id) > 0 ==> is_tool(blocks[tool_end(blocks, id) - 1], id),
        tool_end(blocks, id) == 0 ==> forall|i: int|
            0 <= i < blocks.len() ==> !is_tool(#[trigger] blocks[i], id),
    decreases blocks.len(),
{
    if blocks.len() > 0 && !is_tool(blocks.last(), id) {
        let init = blocks.drop_last();
        lemma_tool_end(init, id);
        if tool_end(blocks, id) == 0 {
            assert forall|i: int| 0 <= i < blocks.len() implies !is_tool(
                #[trigger] blocks[i],
                id,
            ) by {
                if i < init.len() {
                    assert(blocks[i] == init[i]);
                }
            }
        }
    }
}

/// A tool result is kept: on a call of its own id where there is one, and as a note
/// otherwise. No other block changes.
pub proof fn law_tool_result_is_kept(
    blocks: Seq<BlockModel>,
    id: Seq<char>,
    outcome: OutcomeModel,
)
    ensures
        (exists|i: int|
            0 <= i < blocks.len() && is_tool(#[trigger] blocks[i], id) && result_added(
                blocks,
                id,
                outcome,
            ) == blocks.update(i, with_result(blocks[i], outcome))) || result_added(
            blocks,
            id,
            outcome,
        ) == blocks.push(BlockModel::Note(orphan_note(id, outcome.text))),
        (exists|i: int| 0 <= i < blocks.len() && is_tool(#[trigger] blocks[i], id)) ==> result_added(
            blocks,
            id,
            outcome,
        ).len() == blocks.len(),
{
    lemma_tool_end(blocks, id);
}

/// It does not matter in what pieces a text arrives: two pieces in a row show what the whole
/// of it would show.
pub proof fn law_text_arrives_in_any_pieces(
    m: ReducerModel,
    first: AgentEvent,
    second: AgentEvent,
    whole: AgentEvent,
    now: Now,
)
    requires
        (first is TextDelta && second is TextDelta && whole is TextDelta && second->TextDelta_turn_id@
            == first->TextDelta_turn_id@ && whole->TextDelta_turn_id@ == first->TextDelta_turn_id@
            && whole->TextDelta_text@ == first->TextDelta_text@ + second->TextDelta_text@) || (
        first is ThinkingDelta && second is ThinkingDelta && whole is ThinkingDelta
            && second->ThinkingDelta_turn_id@ == first->ThinkingDelta_turn_id@
            && whole->ThinkingDelta_turn_id@ == first->ThinkingDelta_turn_id@
            && whole->ThinkingDelta_text@ == first->ThinkingDelta_text@
            + second->ThinkingDelta_text@),
    ensures
        event_applied(event_applied(m, first, now), second, now) == event_applied(m, whole, now),
{
    let (id, a, b) = match (first, second) {
        (
            AgentEvent::TextDelta { text, turn_id },
            AgentEvent::TextDelta { text: rest, .. },
        ) => (turn_id@, text@, rest@),
        (
            AgentEvent::ThinkingDelta { text, turn_id },
            AgentEvent::ThinkingDelta { text: rest, .. },
        ) => (turn_id@, text@, rest@),
        _ => (seq![], seq![], seq![]),
    };
    let blocks = blocks_of(m.turns, id);
    let (once, twice) = if first is TextDelta {
        (text_added(blocks, a), text_added(text_added(blocks, a), b))
    } else {
        (thinking_added(blocks, a), thinking_added(thinking_added(blocks, a), b))
    };
    if first is TextDelta {
        if blocks.len() > 0 && blocks.last() is AssistantText {
            assert(blocks.last()->AssistantText_0 + a + b =~= blocks.last()->AssistantText_0 + (a
                + b));
        }
        assert(twice =~= text_added(blocks, a + b));
    } else {
        if blocks.len() > 0 && blocks.last() is Thinking {
            assert(blocks.last()->Thinking_0 + a + b =~= blocks.last()->Thinking_0 + (a + b));
        }
        assert(twice =~= thinking_added(blocks, a + b));
    }
    let turns = with_blocks(m.turns, id, once);
    lemma_turn_index(m.turns, id);
    lemma_turn_index(turns, id);
    let k = turn_index(m.turns, id) as int;
    assert(turns[k].id == id);
}

/// The usage adds up over the turns, and nothing but the end of a turn changes it.
pub proof fn law_usage_adds_up(m: ReducerModel, event: AgentEvent, now: Now)
    requires
        event matches AgentEvent::TurnComplete { input_tokens, output_tokens, .. } ==> {
            &&& m.usage.token_in + input_tokens <= u64::MAX
            &&& m.usage.token_out + output_tokens <= u64::MAX
            &&& m.usage.turn_count < u32::MAX
        },
    ensures
        match event {
            AgentEvent::TurnComplete { input_tokens, output_tokens, .. } => {
                let after = event_applied(m, event, now).usage;
                &&& after.token_in == m.usage.token_in + input_tokens
                &&& after.token_out == m.usage.token_out + output_tokens
                &&& after.turn_count == m.usage.turn_count + 1
            },
            _ => event_applied(m, event, now).usage == m.usage,
        },
{
}

/// A request waits for its answer: no event of the engine takes one off the queue, and a new
/// one goes to its end.
pub proof fn law_requests_wait_for_their_answers(m: ReducerModel, event: AgentEvent, now: Now)
    ensures
        m.pending.is_prefix_of(event_applied(m, event, now).pending),
        !(event is PermissionPrompt) ==> event_applied(m, event, now).pending == m.pending,
{
}

/// A turn that has ended runs no more: the clock leaves the state as it is, whatever event
/// ended it.
pub proof fn law_ended_turn_stands_still(
    m: ReducerModel,
    event: AgentEvent,
    now: Now,
    later: Now,
)
    requires
        event is TurnComplete || event is Error,
    ensures
        event_applied(m, event, now).status is None,
        event_applied(m, event, now).refreshed(later) == event_applied(m, event, now),
{
}

/// The wish to cancel changes the status line and nothing else; the turn ends when the
/// engine says so.
pub proof fn law_cancel_waits_for_the_engine(m: ReducerModel, now: Now)
    ensures
        m.cancelling(now).turns == m.turns,
        m.cancelling(now).active_turn_started == m.active_turn_started,
        m.cancelling(now).pending == m.pending,
        m.active_turn_started is None ==> m.cancelling(now) == m,
{
}

// ---- sub-agents ----------------------------------------------------------------------

/// Each sub-agent has one row.
pub open spec fn rows_are_distinct(agents: Seq<SubAgentModel>) -> bool {
    forall|i: int, j: int|
        0 <= i < j < agents.len() ==> (#[trigger] agents[i]).id != (#[trigger] agents[j]).id
}

pub proof fn lemma_agent_index(agents: Seq<SubAgentModel>, id: Seq<char>)
    ensures
        agent_index(agents, id) <= agents.len(),
        agent_index(agents, id) < agents.len() ==> agents[agent_index(agents, id) as int].id == id,
        forall|i: int| 0 <= i < agent_index(agents, id) ==> (#[trigger] agents[i]).id != id,
    decreases agents.len(),
{
    if agents.len() > 0 && agents[0].id != id {
        let t = agents.drop_first();
        lemma_agent_index(t, id);
        assert forall|i: int| 0 <= i < agent_index(agents, id) implies (#[trigger] agents[i]).id
            != id by {
            if i > 0 {
                assert(agents[i] == t[i - 1]);
            }
        }
    }
}

/// All events of a sub-agent end up in one row, whichever of them comes first.
pub proof fn law_sub_agents_keep_one_row(m: ReducerModel, event: AgentEvent, now: Now)
    requires
        rows_are_distinct(m.sub_agents),
    ensures
        rows_are_distinct(event_applied(m, event, now).sub_agents),
{
    match event {
        AgentEvent::AgentSpawned { agent_id } => {
            lemma_agent_index(m.sub_agents, agent_id@);
        },
        AgentEvent::AgentCompleted { agent_id, outcome } => {
            lemma_agent_index(m.sub_agents, agent_id@);
        },
        AgentEvent::SubagentProgress { agent_label, event } => {
            lemma_agent_index(m.sub_agents, agent_label@);
        },
        _ => {},
    }
}

} // verus!
