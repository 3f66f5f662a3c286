//! What the transcript of a session shows of its blocks, and what an earlier session comes
//! back as.

use crate::domain::{
    BlockModel, ContentBlock, Message, Now, OutcomeModel, SubAgentModel, ToolResultContent,
    TurnModel,
};
use crate::frame_state::{
    agents_view, asks_view, entries_view, opt_text, tasks_view, AnswerWith, AppMode, AskViewMode,
    EntryView, FrameState, HeaderSource, InputMode, LineKind, SeparatorColor,
};
use crate::reducer::{first_line_spec, input_fits, status_view, summary_spec, ReducerModel};
use crate::restore::{
    messages_fit, piece_fits, piece_texts, pieces_added, pieces_fit, restored, result_text_spec,
    turn_of_tool, user_text_spec,
};
use crate::session_laws::{
    is_last_call, lemma_last_call, no_call, note_added, one_added, only_result,
};
use crate::snapshot::{
    agent_row, agent_rows, current_prompt_spec, first_prompt, shows, turns_entries, FOOTER_HINT,
};
use crate::text::{decimal_spec, join_spec, lines_spec, starts, trim_spec};
use crate::text_laws::{lacks, law_found_is_the_first, stands_at};
use crate::transcript_lines::{
    block_entries, blocks_entries, diff_start, result_entries, text_entries,
};
use vstd::prelude::*;

verus! {

// ---- blocks as lines -----------------------------------------------------------------

/// A line that belongs to no block that can be folded.
pub open spec fn plain_line(e: EntryView, kind: LineKind, text: Seq<char>) -> bool {
    e.kind == kind && e.text == text && e.block_id is None
}

/// A text is shown line by line: as many entries as it has lines, each with its line, of which
/// all but the first continue the one before. An empty text is one empty line.
pub proof fn law_text_is_shown_line_by_line(kind: LineKind, text: Seq<char>, i: int)
    ensures
        text.len() == 0 ==> text_entries(kind, text).len() == 1 && plain_line(
            text_entries(kind, text)[0],
            kind,
            seq![],
        ) && !text_entries(kind, text)[0].continues_previous,
        text.len() > 0 ==> text_entries(kind, text).len() == lines_spec(text).len(),
        text.len() > 0 && 0 <= i < lines_spec(text).len() ==> plain_line(
            text_entries(kind, text)[i],
            kind,
            lines_spec(text)[i],
        ) && text_entries(kind, text)[i].continues_previous == (i > 0),
{
}

/// Each block is shown as what it is.
pub proof fn law_block_is_shown_as_what_it_is(text: Seq<char>)
    ensures
        block_entries(BlockModel::UserPrompt(text)) == text_entries(LineKind::UserPrompt, text),
        block_entries(BlockModel::AssistantText(text)) == text_entries(
            LineKind::AssistantText,
            text,
        ),
        block_entries(BlockModel::Thinking(text)) == text_entries(LineKind::Thinking, text),
        block_entries(BlockModel::Note(text)) == text_entries(LineKind::Note, text),
        block_entries(BlockModel::Error(text)) == text_entries(LineKind::Error, text),
{
}

/// A call is shown by a heading of its name and its input, and its result below; all of it
/// belongs to one block, by which it is folded.
pub proof fn law_call_is_shown_with_its_result(b: BlockModel, i: int)
    requires
        b is Tool,
        0 <= i < block_entries(b).len(),
    ensures
        ({
            let es = block_entries(b);
            &&& es[0].kind == LineKind::ToolHeading
            &&& es[0].text == b->Tool_name + "("@ + b->Tool_input_summary + ")"@
            &&& b->Tool_result is None ==> es.len() == 1
            &&& b->Tool_result matches Some(r) ==> es.skip(1) == result_entries(
                r,
                b->Tool_expanded,
                b->Tool_id,
            )
            &&& es[i].block_id == Some(b->Tool_id)
        }),
{
    let es = block_entries(b);
    match b->Tool_result {
        Some(r) => {
            assert(es.skip(1) =~= result_entries(r, b->Tool_expanded, b->Tool_id));
            if i > 0 {
                assert(es[i] == result_entries(r, b->Tool_expanded, b->Tool_id)[i - 1]);
            }
        },
        None => {},
    }
}

/// No two lines one after the other head a diff.
pub open spec fn no_diff(lines: Seq<Seq<char>>) -> bool {
    forall|i: int|
        0 <= i < lines.len() - 1 ==> !(starts(#[trigger] lines[i], "--- "@) && starts(
            lines[i + 1],
            "+++ "@,
        ))
}

/// The first two lines that head a diff stand at `d`.
pub open spec fn is_diff_at(lines: Seq<Seq<char>>, d: int) -> bool {
    &&& 0 <= d < lines.len() - 1
    &&& starts(lines[d], "--- "@)
    &&& starts(lines[d + 1], "+++ "@)
    &&& forall|i: int|
        0 <= i < d ==> !(starts(#[trigger] lines[i], "--- "@) && starts(lines[i + 1], "+++ "@))
}

proof fn lemma_no_diff(lines: Seq<Seq<char>>, from: int)
    requires
        no_diff(lines),
        0 <= from <= lines.len(),
    ensures
        diff_start(lines, from) == lines.len(),
    decreases lines.len() - from,
{
    if from + 1 < lines.len() {
        assert(!(starts(lines[from], "--- "@) && starts(lines[from + 1], "+++ "@)));
        lemma_no_diff(lines, from + 1);
    }
}

proof fn lemma_diff_at(lines: Seq<Seq<char>>, from: int, d: int)
    requires
        is_diff_at(lines, d),
        0 <= from <= d,
    ensures
        diff_start(lines, from) == d,
    decreases d - from,
{
    if from < d {
        assert(!(starts(lines[from], "--- "@) && starts(lines[from + 1], "+++ "@)));
        lemma_diff_at(lines, from + 1, d);
    }
}

/// How many lines of a result are shown: all of them where they are few or unfolded, and the
/// first eight where it is folded, with one more line that gives the number of the others. A
/// result without any line is one empty line.
pub proof fn law_folding_shows_eight_lines(r: OutcomeModel, expanded: bool, id: Seq<char>)
    ensures
        ({
            let n = lines_spec(r.text).len();
            let es = result_entries(r, expanded, id);
            &&& n == 0 ==> es.len() == 1 && es[0].text.len() == 0 && es[0].kind == if r.is_error {
                LineKind::ToolResultErr
            } else {
                LineKind::ToolResultOk
            }
            &&& 0 < n <= 8 || (n > 0 && expanded) ==> es.len() == n
            &&& n > 8 && !expanded ==> {
                &&& es.len() == 9
                &&& es[8].kind == LineKind::Note
                &&& es[8].block_id == Some(id)
                &&& es[8].text == "… "@ + decimal_spec((n - 8) as nat)
                    + " more lines (toggle to expand)"@
            }
        }),
{
}

/// Line `i` of a result is among those that are shown.
pub open spec fn is_line_shown(r: OutcomeModel, expanded: bool, i: int) -> bool {
    0 <= i < lines_spec(r.text).len() && (expanded || lines_spec(r.text).len() <= 8 || i < 8)
}

/// A result without a diff is shown as it is: each line with its text, as an error where the
/// call failed and as a success where it did not.
pub proof fn law_result_is_shown_as_it_is(
    r: OutcomeModel,
    expanded: bool,
    id: Seq<char>,
    i: int,
)
    requires
        no_diff(lines_spec(r.text)),
        is_line_shown(r, expanded, i),
    ensures
        ({
            let e = result_entries(r, expanded, id)[i];
            &&& e.text == lines_spec(r.text)[i]
            &&& e.kind == LineKind::ToolResultErr <==> r.is_error
            &&& e.kind == LineKind::ToolResultOk <==> !r.is_error
            &&& e.block_id == Some(id)
        }),
{
    lemma_no_diff(lines_spec(r.text), 0);
}

/// A diff in a result: what stands before it is shown as the result. From there on a line that
/// was taken out is shown as old and one that was put in as new, without the marker that says
/// so; the two file names and the places keep theirs, and every other line is context.
pub proof fn law_diff_is_shown_by_its_markers(
    r: OutcomeModel,
    expanded: bool,
    id: Seq<char>,
    d: int,
    i: int,
)
    requires
        is_diff_at(lines_spec(r.text), d),
        is_line_shown(r, expanded, i),
    ensures
        ({
            let line = lines_spec(r.text)[i];
            let e = result_entries(r, expanded, id)[i];
            let name = starts(line, "--- "@) || starts(line, "+++ "@);
            &&& e.block_id == Some(id)
            &&& i < d ==> e.text == line && e.kind == if r.is_error {
                LineKind::ToolResultErr
            } else {
                LineKind::ToolResultOk
            }
            &&& i >= d && name ==> e.kind == LineKind::DiffContext && e.text == line
            &&& i >= d && !name && line.len() > 0 && line[0] == '-' ==> e.kind == LineKind::DiffOld
                && e.text == line.skip(1)
            &&& i >= d && !name && line.len() > 0 && line[0] == '+' ==> e.kind == LineKind::DiffNew
                && e.text == line.skip(1)
            &&& i >= d && !name && line.len() > 0 && line[0] == ' ' ==> e.kind
                == LineKind::DiffContext && e.text == line.skip(1)
            &&& i >= d && (line.len() == 0 || (line[0] != '-' && line[0] != '+' && line[0] != ' '))
                ==> e.kind == LineKind::DiffContext && e.text == line
        }),
{
    let line = lines_spec(r.text)[i];
    lemma_diff_at(lines_spec(r.text), 0, d);
    reveal_strlit("@@");
    reveal_strlit("--- ");
    reveal_strlit("+++ ");
    if starts(line, "@@"@) {
        assert(line.take(2)[0] == line[0]);
        assert("@@"@[0] == '@');
    }
    if starts(line, "--- "@) {
        assert(line.take(4)[0] == line[0]);
        assert("--- "@[0] == '-');
    }
    if starts(line, "+++ "@) {
        assert(line.take(4)[0] == line[0]);
        assert("+++ "@[0] == '+');
    }
}

/// The blocks of a turn and the turns of a session are shown one after the other.
pub proof fn law_transcript_is_in_order(
    a: Seq<TurnModel>,
    t: TurnModel,
    x: Seq<BlockModel>,
    y: Seq<BlockModel>,
    b: BlockModel,
)
    ensures
        turns_entries(seq![]).len() == 0,
        blocks_entries(seq![]).len() == 0,
        turns_entries(a.push(t)) == turns_entries(a) + blocks_entries(t.blocks),
        blocks_entries(x.push(b)) == blocks_entries(x) + block_entries(b),
        blocks_entries(x + y) == blocks_entries(x) + blocks_entries(y),
    decreases y.len(),
{
    assert(a.push(t).drop_last() =~= a);
    assert(x.push(b).drop_last() =~= x);
    if y.len() == 0 {
        assert(x + y =~= x);
        assert(blocks_entries(x) + blocks_entries(y) =~= blocks_entries(x));
    } else {
        law_transcript_is_in_order(a, t, x, y.drop_last(), b);
        assert((x + y).drop_last() =~= x + y.drop_last());
        assert(blocks_entries(x + y) =~= blocks_entries(x) + blocks_entries(y));
    }
}

// ---- the frame -----------------------------------------------------------------------

/// Turn `k` is the last one with a prompt, and `i` is its first prompt.
pub open spec fn is_latest_prompt(turns: Seq<TurnModel>, k: int, i: int) -> bool {
    &&& 0 <= k < turns.len()
    &&& 0 <= i < turns[k].blocks.len()
    &&& turns[k].blocks[i] is UserPrompt
    &&& forall|j: int| 0 <= j < i ==> !(#[trigger] turns[k].blocks[j] is UserPrompt)
    &&& forall|n: int| k < n < turns.len() ==> has_no_prompt((#[trigger] turns[n]).blocks)
}

pub open spec fn has_no_prompt(blocks: Seq<BlockModel>) -> bool {
    forall|j: int| 0 <= j < blocks.len() ==> !(#[trigger] blocks[j] is UserPrompt)
}

proof fn lemma_first_prompt(blocks: Seq<BlockModel>, i: int)
    ensures
        has_no_prompt(blocks) ==> first_prompt(blocks) is None,
        0 <= i < blocks.len() && blocks[i] is UserPrompt && (forall|j: int|
            0 <= j < i ==> !(#[trigger] blocks[j] is UserPrompt)) ==> first_prompt(blocks) == Some(
            blocks[i]->UserPrompt_0,
        ),
    decreases blocks.len(),
{
    if blocks.len() > 0 {
        let t = blocks.drop_first();
        lemma_first_prompt(t, i - 1);
        if has_no_prompt(blocks) {
            assert(!(blocks[0] is UserPrompt));
            assert forall|j: int| 0 <= j < t.len() implies !(#[trigger] t[j] is UserPrompt) by {
                assert(t[j] == blocks[j + 1]);
            }
        }
        if 0 < i < blocks.len() && (forall|j: int|
            0 <= j < i ==> !(#[trigger] blocks[j] is UserPrompt)) {
            assert(!(blocks[0] is UserPrompt));
            assert forall|j: int| 0 <= j < i - 1 implies !(#[trigger] t[j] is UserPrompt) by {
                assert(t[j] == blocks[j + 1]);
            }
        }
    }
}

/// What is pinned above the transcript is the first line of the latest prompt; without a
/// prompt nothing is.
pub proof fn law_latest_prompt_is_pinned(turns: Seq<TurnModel>, k: int, i: int)
    ensures
        is_latest_prompt(turns, k, i) ==> current_prompt_spec(turns) == Some(
            first_line_spec(turns[k].blocks[i]->UserPrompt_0),
        ),
        (forall|n: int| 0 <= n < turns.len() ==> has_no_prompt((#[trigger] turns[n]).blocks))
            ==> current_prompt_spec(turns) is None,
    decreases turns.len(),
{
    if turns.len() > 0 {
        let init = turns.drop_last();
        let n = turns.len() - 1;
        law_latest_prompt_is_pinned(init, k, i);
        lemma_first_prompt(turns[n].blocks, i);
        if is_latest_prompt(turns, k, i) && k < n {
            assert(has_no_prompt(turns[n].blocks));
            assert(init[k] == turns[k]);
            assert forall|j: int| k < j < init.len() implies has_no_prompt(
                (#[trigger] init[j]).blocks,
            ) by {
                assert(init[j] == turns[j]);
            }
            assert(is_latest_prompt(init, k, i));
        }
        if forall|j: int| 0 <= j < turns.len() ==> has_no_prompt((#[trigger] turns[j]).blocks) {
            assert(has_no_prompt(turns[n].blocks));
            assert forall|j: int| 0 <= j < init.len() implies has_no_prompt(
                (#[trigger] init[j]).blocks,
            ) by {
                assert(init[j] == turns[j]);
            }
        }
    }
}

/// The first line of a text is what stands before its first line feed.
pub proof fn law_first_line(t: Seq<char>, rest: Seq<char>)
    requires
        lacks(t, '\n'),
        t.len() > 0 ==> t.last() != '\r',
    ensures
        first_line_spec(t) == t,
        first_line_spec(t + seq!['\n'] + rest) == t,
{
    crate::text_laws::law_one_line_is_itself(t);
    crate::text_laws::law_line_feed_ends_a_line(t, rest);
    assert((seq![t] + lines_spec(rest))[0] == t);
    if t.len() == 0 {
        assert(first_line_spec(t) =~= t);
    }
}

/// A row of the sub-agent bar shows whose it is, its state, its usage, and how it ended; or,
/// while it runs, for how many seconds.
pub proof fn law_row_shows_the_sub_agent(rows: Seq<SubAgentModel>, now: Now, i: int)
    requires
        0 <= i < rows.len(),
    ensures
        agent_rows(rows, now).len() == rows.len(),
        ({
            let r = agent_rows(rows, now)[i];
            &&& r.name == rows[i].id
            &&& r.state == rows[i].state
            &&& r.token_usage == rows[i].tokens
            &&& rows[i].outcome matches Some(o) ==> r.elapsed_or_status == o
            &&& rows[i].outcome is None ==> r.elapsed_or_status == decimal_spec(
                now.seconds_since(rows[i].started) as nat,
            ) + "s"@
        }),
{
}

/// A frame shows the session as it is: its transcript to the end, its latest prompt, what is
/// being done, its tasks, its requests from the first one on, its sub-agents, its model and
/// its usage.
pub proof fn law_frame_shows_the_session(f: FrameState, m: ReducerModel, now: Now, i: int)
    requires
        shows(f, m, now),
    ensures
        entries_view(f.transcript.body.entries@) == turns_entries(m.turns),
        f.transcript.body.entries@.len() <= usize::MAX ==> f.transcript.body.scroll.total_lines
            == f.transcript.body.entries@.len(),
        f.transcript.body.auto_follow,
        f.transcript.body.selected_block is None,
        opt_text(f.transcript.header.text) == current_prompt_spec(m.turns),
        f.transcript.header.source == HeaderSource::Nothing <==> f.transcript.header.text is None,
        status_view(f.operation_status.status_line.content) == m.status,
        f.operation_status.task_list.items@.len() == m.tasks.len(),
        0 <= i < m.tasks.len() ==> f.operation_status.task_list.items@[i]@ == m.tasks[i],
        f.composer.content.ask is Some <==> m.pending.len() > 0,
        f.composer.content.ask matches Some(a) ==> a.active_idx == 0 && a.pending@.len()
            == m.pending.len(),
        f.composer.content.ask is Some && 0 <= i < m.pending.len()
            ==> f.composer.content.ask->0.pending@[i]@ == m.pending[i],
        f.composer.content.editor.locked <==> m.pending.len() > 0 && m.pending[0].answer_with
            == AnswerWith::Choose,
        f.composer.content.editor.draft@.len() == 0,
        f.sub_agent_bar.agents@.len() == m.sub_agents.len(),
        0 <= i < m.sub_agents.len() ==> f.sub_agent_bar.agents@[i]@ == agent_row(
            m.sub_agents[i],
            now,
        ),
        f.footer_hints.model@ == m.model_name,
        f.footer_hints.cwd@ == m.cwd,
        f.footer_hints.usage.token_in == m.usage.token_in,
        f.footer_hints.usage.token_out == m.usage.token_out,
        f.footer_hints.usage.turn_count == m.usage.turn_count,
        f.btw is None,
{
    assert(tasks_view(f.operation_status.task_list.items@).len() == m.tasks.len());
    assert(agents_view(f.sub_agent_bar.agents@).len() == agent_rows(m.sub_agents, now).len());
    if 0 <= i < m.tasks.len() {
        assert(tasks_view(f.operation_status.task_list.items@)[i] == m.tasks[i]);
    }
    if 0 <= i < m.sub_agents.len() {
        assert(agents_view(f.sub_agent_bar.agents@)[i] == agent_rows(m.sub_agents, now)[i]);
    }
    match f.composer.content.ask {
        Some(a) => {
            assert(asks_view(a.pending@).len() == m.pending.len());
            if 0 <= i < m.pending.len() {
                assert(asks_view(a.pending@)[i] == m.pending[i]);
            }
            assert(asks_view(a.pending@)[0] == m.pending[0]);
        },
        None => {},
    }
}

// ---- an earlier session --------------------------------------------------------------

/// The rest of a frame that a session gives: an empty editor without lists or messages, grey
/// rules without a label, and the keys at the right of the footer.
pub proof fn law_rest_of_a_frame_is_plain(f: FrameState, m: ReducerModel, now: Now)
    requires
        shows(f, m, now),
    ensures
        f.composer.app_info.text is None,
        f.composer.top_rule.color == SeparatorColor::DarkGray,
        f.composer.bottom_rule.color == SeparatorColor::DarkGray,
        f.composer.top_rule.right_label is None,
        f.composer.content.editor.mode == InputMode::Normal,
        f.composer.content.editor.cursor == 0,
        f.composer.content.editor.paste_placeholder is None,
        f.composer.content.picker is None,
        f.composer.content.ask matches Some(a) ==> a.view_mode == AskViewMode::TabView,
        f.transcript.body.scroll.offset == 0,
        f.footer_hints.mode == AppMode::Normal,
        f.footer_hints.right_hint@ == FOOTER_HINT@,
{
}

/// What the user typed of a message is what stands before the reminder that the engine added,
/// trimmed; a message of which nothing is left was not typed.
pub proof fn law_reminders_are_not_typed(text: Seq<char>, k: int)
    requires
        k == text.len() || stands_at(text, "<system-reminder>"@, k),
        0 <= k <= text.len(),
        forall|j: int| 0 <= j < k ==> !#[trigger] stands_at(text, "<system-reminder>"@, j),
    ensures
        user_text_spec(text) == if trim_spec(text.take(k)).len() == 0 {
            None
        } else {
            Some(trim_spec(text.take(k)))
        },
{
    reveal_strlit("<system-reminder>");
    let p = "<system-reminder>"@;
    assert(p.len() == 17);
    let f = crate::text::find_spec(text, p) as int;
    law_found_is_the_first(text, p, k);
    if f < text.len() && f < k {
        assert(!stands_at(text, p, f));
    }
}

/// A message in two parts, one after the other, comes back as the whole of it would.
pub proof fn law_message_comes_back_in_any_parts(
    messages: Seq<Message>,
    first: Message,
    second: Message,
    whole: Message,
)
    requires
        (first is User && second is User && whole is User && whole->User_content@
            == first->User_content@ + second->User_content@) || (first is Assistant
            && second is Assistant && whole is Assistant && whole->Assistant_content@
            == first->Assistant_content@ + second->Assistant_content@),
    ensures
        restored(messages.push(first).push(second)) == restored(messages.push(whole)),
{
    let one = messages.push(first);
    let two = one.push(second);
    assert(one.drop_last() =~= messages);
    assert(two.drop_last() =~= one);
    assert(messages.push(whole).drop_last() =~= messages);
    reveal_with_fuel(restored, 3);
    if first is User {
        lemma_pieces(
            restored(messages),
            first->User_content@,
            second->User_content@,
            true,
        );
    } else {
        lemma_pieces(
            restored(messages),
            first->Assistant_content@,
            second->Assistant_content@,
            false,
        );
    }
}

proof fn lemma_pieces(
    turns: Seq<TurnModel>,
    a: Seq<ContentBlock>,
    b: Seq<ContentBlock>,
    user: bool,
)
    ensures
        pieces_added(turns, a + b, user) == pieces_added(pieces_added(turns, a, user), b, user),
    decreases b.len(),
{
    if b.len() == 0 {
        assert(a + b =~= a);
    } else {
        lemma_pieces(turns, a, b.drop_last(), user);
        assert((a + b).drop_last() =~= a + b.drop_last());
    }
}

proof fn lemma_one_piece(turns: Seq<TurnModel>, content: Seq<ContentBlock>, user: bool)
    requires
        content.len() == 1,
    ensures
        pieces_added(turns, content, user) == if user {
            crate::restore::user_piece(turns, content[0])
        } else {
            crate::restore::assistant_piece(turns, content[0])
        },
{
    assert(content.drop_last() =~= seq![]);
    assert(pieces_added(turns, content.drop_last(), user) == turns);
}

/// What the user typed opens a turn of its own; what they did not type leaves the transcript as
/// it is.
pub proof fn law_typed_text_opens_a_turn(messages: Seq<Message>, m: Message, text: String)
    requires
        m is User,
        m->User_content@ == seq![ContentBlock::Text { text }],
    ensures
        user_text_spec(text@) is None ==> restored(messages.push(m)) == restored(messages),
        user_text_spec(text@) matches Some(t) ==> {
            let r = restored(messages.push(m));
            &&& r.len() == restored(messages).len() + 1
            &&& r.drop_last() == restored(messages)
            &&& r.last().blocks == seq![BlockModel::UserPrompt(t)]
            &&& r.last().id == "restored-"@ + decimal_spec(restored(messages).len())
        },
{
    assert(messages.push(m).drop_last() =~= messages);
    lemma_one_piece(restored(messages), m->User_content@, true);
    assert(restored(messages.push(m)).drop_last() =~= restored(messages) || user_text_spec(text@)
        is None);
}

/// A block was added at the end of the last turn; where there was none, one was opened.
pub open spec fn block_added(
    before: Seq<TurnModel>,
    after: Seq<TurnModel>,
    block: BlockModel,
) -> bool {
    let k = before.len() - 1;
    if before.len() == 0 {
        &&& after.len() == 1
        &&& after[0].blocks == seq![block]
    } else {
        &&& after.len() == before.len()
        &&& forall|j: int| 0 <= j < k ==> #[trigger] after[j] == before[j]
        &&& after[k].id == before[k].id
        &&& one_added(before[k].blocks, after[k].blocks)
        &&& after[k].blocks.last() == block
    }
}

/// What the assistant said, thought and called comes back as what it was, at the end of the
/// turn that it belongs to. Anything else leaves a placeholder.
pub proof fn law_assistant_comes_back(messages: Seq<Message>, m: Message, piece: ContentBlock)
    requires
        m is Assistant,
        m->Assistant_content@ == seq![piece],
    ensures
        ({
            let before = restored(messages);
            let after = restored(messages.push(m));
            match piece {
                ContentBlock::Text { text } => block_added(
                    before,
                    after,
                    BlockModel::AssistantText(text@),
                ),
                ContentBlock::Thinking { thinking } => block_added(
                    before,
                    after,
                    BlockModel::Thinking(thinking@),
                ),
                ContentBlock::ToolUse { id, name, input } => block_added(
                    before,
                    after,
                    BlockModel::Tool {
                        id: id@,
                        name: name@,
                        input_summary: summary_spec(input),
                        result: None,
                        expanded: false,
                    },
                ),
                ContentBlock::Image => block_added(before, after, BlockModel::Note("[image]"@)),
                ContentBlock::ToolResult { .. } => block_added(
                    before,
                    after,
                    BlockModel::Note("[tool_result]"@),
                ),
                ContentBlock::Other => block_added(before, after, BlockModel::Note("[block]"@)),
            }
        }),
{
    assert(messages.push(m).drop_last() =~= messages);
    lemma_one_piece(restored(messages), m->Assistant_content@, false);
    lemma_placeholders();
}

proof fn lemma_placeholders()
    ensures
        "["@ + "image"@ + "]"@ == "[image]"@,
        "["@ + "tool_result"@ + "]"@ == "[tool_result]"@,
        "["@ + "tool_use"@ + "]"@ == "[tool_use]"@,
        "["@ + "thinking"@ + "]"@ == "[thinking]"@,
        "["@ + "block"@ + "]"@ == "[block]"@,
        "["@ + "text"@ + "]"@ == "[text]"@,
{
    reveal_strlit("[");
    reveal_strlit("]");
    reveal_strlit("image");
    reveal_strlit("[image]");
    reveal_strlit("tool_result");
    reveal_strlit("[tool_result]");
    reveal_strlit("tool_use");
    reveal_strlit("[tool_use]");
    reveal_strlit("thinking");
    reveal_strlit("[thinking]");
    reveal_strlit("block");
    reveal_strlit("[block]");
    reveal_strlit("text");
    reveal_strlit("[text]");
    assert("["@ + "image"@ + "]"@ =~= "[image]"@);
    assert("["@ + "tool_result"@ + "]"@ =~= "[tool_result]"@);
    assert("["@ + "tool_use"@ + "]"@ =~= "[tool_use]"@);
    assert("["@ + "thinking"@ + "]"@ =~= "[thinking]"@);
    assert("["@ + "block"@ + "]"@ =~= "[block]"@);
    assert("["@ + "text"@ + "]"@ =~= "[text]"@);
}

/// What the system said is noted, and so is a picture of the user's.
pub proof fn law_other_pieces_are_noted(messages: Seq<Message>, m: Message)
    ensures
        m matches Message::System { text } ==> block_added(
            restored(messages),
            restored(messages.push(m)),
            BlockModel::Note(text@),
        ),
        m is User && m->User_content@ == seq![ContentBlock::Image] ==> block_added(
            restored(messages),
            restored(messages.push(m)),
            BlockModel::Note("[image]"@),
        ),
        m is User && m->User_content@ == seq![ContentBlock::Other] ==> block_added(
            restored(messages),
            restored(messages.push(m)),
            BlockModel::Note("[block]"@),
        ),
        m is User && m->User_content@.len() == 1 && m->User_content@[0] is Thinking ==> block_added(
            restored(messages),
            restored(messages.push(m)),
            BlockModel::Note("[thinking]"@),
        ),
        m is User && m->User_content@.len() == 1 && m->User_content@[0] is ToolUse ==> block_added(
            restored(messages),
            restored(messages.push(m)),
            BlockModel::Note("[tool_use]"@),
        ),
{
    assert(messages.push(m).drop_last() =~= messages);
    if m is User && m->User_content@.len() == 1 {
        lemma_one_piece(restored(messages), m->User_content@, true);
    }
    lemma_placeholders();
}

/// The last turn with a call of that id stands at `k`.
pub open spec fn is_last_turn_with(turns: Seq<TurnModel>, id: Seq<char>, k: int) -> bool {
    &&& 0 <= k < turns.len()
    &&& !no_call(turns[k].blocks, id)
    &&& forall|j: int| k < j < turns.len() ==> no_call((#[trigger] turns[j]).blocks, id)
}

proof fn lemma_turn_of_tool(turns: Seq<TurnModel>, id: Seq<char>, k: int)
    ensures
        is_last_turn_with(turns, id, k) ==> turn_of_tool(turns, id) == k + 1,
        (forall|j: int| 0 <= j < turns.len() ==> no_call((#[trigger] turns[j]).blocks, id))
            ==> turn_of_tool(turns, id) == 0,
    decreases turns.len(),
{
    if turns.len() > 0 {
        let init = turns.drop_last();
        let n = turns.len() - 1;
        lemma_turn_of_tool(init, id, k);
        lemma_last_call(turns[n].blocks, id);
        if is_last_turn_with(turns, id, k) && k < n {
            assert(no_call(turns[n].blocks, id));
            assert(init[k] == turns[k]);
            assert forall|j: int| k < j < init.len() implies no_call(
                (#[trigger] init[j]).blocks,
                id,
            ) by {
                assert(init[j] == turns[j]);
            }
        }
        if forall|j: int| 0 <= j < turns.len() ==> no_call((#[trigger] turns[j]).blocks, id) {
            assert(no_call(turns[n].blocks, id));
            assert forall|j: int| 0 <= j < init.len() implies no_call(
                (#[trigger] init[j]).blocks,
                id,
            ) by {
                assert(init[j] == turns[j]);
            }
        }
    }
}

/// A stored result comes back at the last call of its id: that call holds its text, and
/// whether it was an error, as they were stored. Nothing else changes.
pub proof fn law_stored_result_keeps_its_outcome(
    messages: Seq<Message>,
    m: Message,
    tool_use_id: String,
    content: ToolResultContent,
    is_error: bool,
    k: int,
    i: int,
)
    requires
        m is User,
        m->User_content@ == seq![ContentBlock::ToolResult { tool_use_id, content, is_error }],
        is_last_turn_with(restored(messages), tool_use_id@, k),
        is_last_call(restored(messages)[k].blocks, tool_use_id@, i),
    ensures
        ({
            let before = restored(messages);
            let after = restored(messages.push(m));
            &&& after.len() == before.len()
            &&& forall|j: int| 0 <= j < before.len() && j != k ==> #[trigger] after[j] == before[j]
            &&& after[k].id == before[k].id
            &&& after[k].blocks.len() == before[k].blocks.len()
            &&& forall|j: int|
                0 <= j < before[k].blocks.len() && j != i ==> #[trigger] after[k].blocks[j]
                    == before[k].blocks[j]
            &&& only_result(
                before[k].blocks[i],
                after[k].blocks[i],
                OutcomeModel { text: result_text_spec(content), is_error },
            )
        }),
{
    assert(messages.push(m).drop_last() =~= messages);
    lemma_one_piece(restored(messages), m->User_content@, true);
    lemma_turn_of_tool(restored(messages), tool_use_id@, k);
    lemma_last_call(restored(messages)[k].blocks, tool_use_id@);
}

/// A stored result whose call is nowhere is kept as a note.
pub proof fn law_stored_result_without_a_call_is_noted(
    messages: Seq<Message>,
    m: Message,
    tool_use_id: String,
    content: ToolResultContent,
    is_error: bool,
)
    requires
        m is User,
        m->User_content@ == seq![ContentBlock::ToolResult { tool_use_id, content, is_error }],
        forall|j: int|
            0 <= j < restored(messages).len() ==> no_call(
                (#[trigger] restored(messages)[j]).blocks,
                tool_use_id@,
            ),
    ensures
        note_added(
            restored(messages),
            restored(messages.push(m)),
            "[orphan tool result "@ + tool_use_id@ + "] "@ + result_text_spec(content),
        ),
{
    assert(messages.push(m).drop_last() =~= messages);
    lemma_one_piece(restored(messages), m->User_content@, true);
    lemma_turn_of_tool(restored(messages), tool_use_id@, 0);
}

/// A failed call of an earlier session is shown as failed, and a successful one as successful:
/// each plain line of its result has the kind that the stored result calls for.
pub proof fn law_stored_failure_is_shown_as_one(
    messages: Seq<Message>,
    m: Message,
    tool_use_id: String,
    content: ToolResultContent,
    is_error: bool,
    k: int,
    i: int,
    n: int,
)
    requires
        m is User,
        m->User_content@ == seq![ContentBlock::ToolResult { tool_use_id, content, is_error }],
        is_last_turn_with(restored(messages), tool_use_id@, k),
        is_last_call(restored(messages)[k].blocks, tool_use_id@, i),
        no_diff(lines_spec(result_text_spec(content))),
        0 <= n < lines_spec(result_text_spec(content)).len(),
        n < 8 || lines_spec(result_text_spec(content)).len() <= 8,
    ensures
        ({
            let b = restored(messages.push(m))[k].blocks[i];
            let line = block_entries(b)[n + 1];
            &&& line.text == lines_spec(result_text_spec(content))[n]
            &&& line.kind == if is_error {
                LineKind::ToolResultErr
            } else {
                LineKind::ToolResultOk
            }
        }),
{
    law_stored_result_keeps_its_outcome(messages, m, tool_use_id, content, is_error, k, i);
    let b = restored(messages.push(m))[k].blocks[i];
    let r = OutcomeModel { text: result_text_spec(content), is_error };
    law_result_is_shown_as_it_is(r, b->Tool_expanded, b->Tool_id, n);
    law_folding_shows_eight_lines(r, b->Tool_expanded, b->Tool_id);
    assert(block_entries(b)[n + 1] == result_entries(r, b->Tool_expanded, b->Tool_id)[n]);
}

/// The text of a stored result: as it is, or its pieces one to a line, with a placeholder for
/// each piece that is not text.
pub proof fn law_text_of_a_stored_result(t: String, c: ToolResultContent, i: int)
    ensures
        result_text_spec(ToolResultContent::Text(t)) == t@,
        c matches ToolResultContent::Blocks(blocks) ==> result_text_spec(c) == join_spec(
            piece_texts(blocks@),
            "\n"@,
        ),
        c matches ToolResultContent::Blocks(blocks) ==> piece_texts(blocks@).len()
            == blocks@.len(),
        c matches ToolResultContent::Blocks(blocks) ==> (0 <= i < blocks@.len() ==> (
        match blocks@[i] {
            ContentBlock::Text { text } => piece_texts(blocks@)[i] == text@,
            ContentBlock::Image => piece_texts(blocks@)[i] == "[image]"@,
            ContentBlock::ToolUse { .. } => piece_texts(blocks@)[i]
                == "[tool_use]"@,
            ContentBlock::ToolResult { .. } => piece_texts(blocks@)[i]
                == "[tool_result]"@,
            ContentBlock::Thinking { .. } => piece_texts(blocks@)[i]
                == "[thinking]"@,
            ContentBlock::Other => piece_texts(blocks@)[i] == "[block]"@,
        })),
{
    lemma_placeholders();
}

/// Nothing comes back of nothing.
pub proof fn law_nothing_comes_back_of_nothing(messages: Seq<Message>, m: Message)
    ensures
        restored(seq![]).len() == 0,
        m is User && m->User_content@.len() == 0 ==> restored(messages.push(m)) == restored(
            messages,
        ),
        m is Assistant && m->Assistant_content@.len() == 0 ==> restored(messages.push(m))
            == restored(messages),
{
    assert(messages.push(m).drop_last() =~= messages);
}

/// Messages can be restored unless the summary of one of the assistant's calls would be cut
/// inside a character.
pub proof fn law_messages_that_can_be_restored(messages: Seq<Message>, m: Message)
    ensures
        messages_fit(seq![]),
        !(m is Assistant) ==> (messages_fit(messages.push(m)) <==> messages_fit(messages)),
        m is Assistant ==> (messages_fit(messages.push(m)) <==> messages_fit(messages) && (forall|
            i: int,
        |
            0 <= i < m->Assistant_content@.len() && (#[trigger] m->Assistant_content@[i]) is ToolUse
                ==> input_fits(m->Assistant_content@[i]->ToolUse_input))),
{
    let all = messages.push(m);
    let n = messages.len() as int;
    if messages_fit(all) {
        assert forall|i: int| 0 <= i < messages.len() implies ((#[trigger] messages[i]) matches
            Message::Assistant { content } ==> pieces_fit(content@)) by {
            assert(all[i] == messages[i]);
        }
        assert(all[n] == m);
        if m is Assistant {
            let c = m->Assistant_content@;
            assert(pieces_fit(c));
            assert forall|i: int| 0 <= i < c.len() && (#[trigger] c[i]) is ToolUse implies input_fits(
                c[i]->ToolUse_input,
            ) by {
                assert(piece_fits(c[i]));
            }
        }
    }
}

} // verus!
