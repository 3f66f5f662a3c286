//! The transcript of an earlier session, rebuilt from its messages.

use crate::domain::{
    blocks_view, push_note, turns_view, with_note, Block, BlockModel, ContentBlock, Message,
    OutcomeModel, ToolOutcome, ToolResultContent, Turn, TurnModel,
};
use crate::frame_state::opt_text;
use crate::reducer::{
    can_summarize, find_tool, input_fits, orphan_note, orphan_text, set_result, summarize_input,
    summary_spec, tool_end, with_result,
};
use crate::reducer_laws::{
    block_is_lines, blocks_are_lines, lemma_note_keeps_lines, turns_are_lines,
};
use crate::text::{
    chars_of, decimal, decimal_spec, find, find_spec, has_no_feed, join, join_spec, string_of,
    texts, trim, trim_spec,
};
use vstd::prelude::*;
use vstd::string::*;

verus! {

/// What stands in front of the text that the engine adds to a message for the model.
pub const REMINDER: &'static str = "<system-reminder>";

/// What the user typed of a message: everything before a reminder, trimmed; nothing where
/// that is empty.
pub open spec fn user_text_spec(text: Seq<char>) -> Option<Seq<char>> {
    let head = trim_spec(text.take(find_spec(text, REMINDER@) as int));
    if head.len() == 0 {
        None
    } else {
        Some(head)
    }
}

pub fn user_text(text: &str) -> (r: Option<String>)
    ensures
        opt_text(r) == user_text_spec(text@),
{
    let v: Vec<char> = chars_of(text);
    let at: usize = find(text, REMINDER);
    let head: String = string_of(vstd::slice::slice_subrange(v.as_slice(), 0, at));
    let head: String = trim(head.as_str());
    if head.as_str().is_empty() {
        None
    } else {
        Some(head)
    }
}

/// The name of a piece that is not shown.
pub open spec fn block_kind_spec(b: ContentBlock) -> Seq<char> {
    match b {
        ContentBlock::Text { .. } => "text"@,
        ContentBlock::Image => "image"@,
        ContentBlock::ToolUse { .. } => "tool_use"@,
        ContentBlock::ToolResult { .. } => "tool_result"@,
        ContentBlock::Thinking { .. } => "thinking"@,
        ContentBlock::Other => "block"@,
    }
}

pub fn block_kind(block: &ContentBlock) -> (r: &'static str)
    ensures
        r@ == block_kind_spec(*block),
{
    match block {
        ContentBlock::Text { .. } => "text",
        ContentBlock::Image => "image",
        ContentBlock::ToolUse { .. } => "tool_use",
        ContentBlock::ToolResult { .. } => "tool_result",
        ContentBlock::Thinking { .. } => "thinking",
        ContentBlock::Other => "block",
    }
}

/// A name in square brackets.
pub open spec fn placeholder_spec(b: ContentBlock) -> Seq<char> {
    "["@ + block_kind_spec(b) + "]"@
}

fn placeholder(b: &ContentBlock) -> (r: String)
    ensures
        r@ == placeholder_spec(*b),
{
    "[".to_owned().concat(block_kind(b)).concat("]")
}

/// The text of a piece of a result, or a placeholder.
pub open spec fn piece_text(b: ContentBlock) -> Seq<char> {
    match b {
        ContentBlock::Text { text } => text@,
        _ => placeholder_spec(b),
    }
}

pub open spec fn piece_texts(blocks: Seq<ContentBlock>) -> Seq<Seq<char>> {
    blocks.map_values(|b: ContentBlock| piece_text(b))
}

/// The text of a tool result: its pieces one to a line.
pub open spec fn result_text_spec(c: ToolResultContent) -> Seq<char> {
    match c {
        ToolResultContent::Text(t) => t@,
        ToolResultContent::Blocks(blocks) => join_spec(piece_texts(blocks@), "\n"@),
    }
}

fn result_text(c: ToolResultContent) -> (r: String)
    ensures
        r@ == result_text_spec(c),
{
    match c {
        ToolResultContent::Text(t) => t,
        ToolResultContent::Blocks(blocks) => {
            let ghost all = piece_texts(blocks@);
            let mut parts: Vec<String> = Vec::new();
            let mut i: usize = 0;
            while i < blocks.len()
                invariant
                    i <= blocks@.len(),
                    all == piece_texts(blocks@),
                    texts(parts@) == all.take(i as int),
                decreases blocks@.len() - i,
            {
                let part: String = match &blocks[i] {
                    ContentBlock::Text { text } => text.clone(),
                    other => placeholder(other),
                };
                let ghost before = parts@;
                parts.push(part);
                proof {
                    assert(texts(parts@) =~= texts(before).push(part@));
                }
                i += 1;
            }
            assert(all.take(i as int) =~= all);
            join(&parts, "\n")
        },
    }
}

/// The id of a restored turn.
pub open spec fn restored_id(n: nat) -> Seq<char> {
    "restored-"@ + decimal_spec(n)
}

/// A block at the end of the last turn; a turn is opened where there is none.
pub open spec fn with_block(turns: Seq<TurnModel>, block: BlockModel) -> Seq<TurnModel> {
    if turns.len() == 0 {
        seq![TurnModel { id: restored_id(0), blocks: seq![block] }]
    } else {
        let last = turns.last();
        turns.update(
            turns.len() - 1,
            TurnModel { id: last.id, blocks: last.blocks.push(block) },
        )
    }
}

fn push_block(turns: &mut Vec<Turn>, block: Block)
    ensures
        turns_view(final(turns)@) == with_block(turns_view(old(turns)@), block@),
{
    if turns.len() == 0 {
        let mut blocks: Vec<Block> = Vec::new();
        blocks.push(block);
        assert(blocks_view(blocks@) =~= seq![block@]);
        let t = Turn { id: "restored-".to_owned().concat(decimal(0).as_str()), blocks };
        turns.push(t);
    } else {
        let n: usize = turns.len() - 1;
        let ghost last = turns@[n as int];
        turns[n].blocks.push(block);
        assert(blocks_view(turns@[n as int].blocks@) =~= blocks_view(last.blocks@).push(block@));
    }
}

/// How many turns there are up to and with the last one that holds a call of that id; 0
/// without one.
pub open spec fn turn_of_tool(turns: Seq<TurnModel>, id: Seq<char>) -> nat
    decreases turns.len(),
{
    if turns.len() == 0 {
        0
    } else if tool_end(turns.last().blocks, id) > 0 {
        turns.len()
    } else {
        turn_of_tool(turns.drop_last(), id)
    }
}

/// A result goes to the last call of its id, in whatever turn that is; a result that no
/// call waits for is kept as a note.
pub open spec fn result_filled(
    turns: Seq<TurnModel>,
    id: Seq<char>,
    outcome: OutcomeModel,
) -> Seq<TurnModel> {
    let t = turn_of_tool(turns, id) as int;
    if t > 0 {
        let turn = turns[t - 1];
        let k = tool_end(turn.blocks, id) as int;
        turns.update(
            t - 1,
            TurnModel {
                id: turn.id,
                blocks: turn.blocks.update(k - 1, with_result(turn.blocks[k - 1], outcome)),
            },
        )
    } else {
        with_note(turns, orphan_note(id, outcome.text))
    }
}

pub fn fill_tool_result(turns: &mut Vec<Turn>, tool_use_id: &String, text: String, is_error: bool)
    ensures
        turns_view(final(turns)@) == result_filled(
            turns_view(old(turns)@),
            tool_use_id@,
            OutcomeModel { text: text@, is_error },
        ),
{
    let ghost m = turns_view(turns@);
    let ghost outcome = OutcomeModel { text: text@, is_error };
    let mut n: usize = turns.len();
    proof {
        assert(m.take(n as int) =~= m);
    }
    while n > 0
        invariant
            n <= turns@.len(),
            m == turns_view(turns@),
            m == turns_view(old(turns)@),
            outcome == (OutcomeModel { text: text@, is_error }),
            turn_of_tool(m, tool_use_id@) == turn_of_tool(m.take(n as int), tool_use_id@),
        decreases n,
    {
        let k: usize = find_tool(&turns[n - 1].blocks, tool_use_id);
        proof {
            assert(m.take(n as int).drop_last() =~= m.take(n - 1));
        }
        if k > 0 {
            set_result(&mut turns[n - 1].blocks, k - 1, ToolOutcome { text, is_error });
            return;
        }
        n -= 1;
    }
    let note: String = orphan_text(tool_use_id.as_str(), text.as_str());
    push_note(turns, note);
}

/// The turns with a piece of a user message added. What the user typed opens a turn.
pub open spec fn user_piece(turns: Seq<TurnModel>, b: ContentBlock) -> Seq<TurnModel> {
    match b {
        ContentBlock::Text { text } => match user_text_spec(text@) {
            Some(t) => turns.push(
                TurnModel {
                    id: restored_id(turns.len()),
                    blocks: seq![BlockModel::UserPrompt(t)],
                },
            ),
            None => turns,
        },
        ContentBlock::ToolResult { tool_use_id, content, is_error } => result_filled(
            turns,
            tool_use_id@,
            OutcomeModel { text: result_text_spec(content), is_error },
        ),
        _ => with_block(turns, BlockModel::Note(placeholder_spec(b))),
    }
}

/// The turns with a piece of an assistant message added.
pub open spec fn assistant_piece(turns: Seq<TurnModel>, b: ContentBlock) -> Seq<TurnModel> {
    match b {
        ContentBlock::Text { text } => with_block(turns, BlockModel::AssistantText(text@)),
        ContentBlock::Thinking { thinking } => with_block(turns, BlockModel::Thinking(thinking@)),
        ContentBlock::ToolUse { id, name, input } => with_block(
            turns,
            BlockModel::Tool {
                id: id@,
                name: name@,
                input_summary: summary_spec(input),
                result: None,
                expanded: false,
            },
        ),
        _ => with_block(turns, BlockModel::Note(placeholder_spec(b))),
    }
}

/// The turns with the pieces of a message added, one after the other.
pub open spec fn pieces_added(
    turns: Seq<TurnModel>,
    blocks: Seq<ContentBlock>,
    user: bool,
) -> Seq<TurnModel>
    decreases blocks.len(),
{
    if blocks.len() == 0 {
        turns
    } else {
        let before = pieces_added(turns, blocks.drop_last(), user);
        if user {
            user_piece(before, blocks.last())
        } else {
            assistant_piece(before, blocks.last())
        }
    }
}

pub open spec fn message_added(turns: Seq<TurnModel>, m: Message) -> Seq<TurnModel> {
    match m {
        Message::User { content } => pieces_added(turns, content@, true),
        Message::Assistant { content } => pieces_added(turns, content@, false),
        Message::System { text } => with_block(turns, BlockModel::Note(text@)),
    }
}

/// The turns that messages make up.
pub open spec fn restored(messages: Seq<Message>) -> Seq<TurnModel>
    decreases messages.len(),
{
    if messages.len() == 0 {
        seq![]
    } else {
        message_added(restored(messages.drop_last()), messages.last())
    }
}

/// The input of a call in the piece can be summarised.
pub open spec fn piece_fits(b: ContentBlock) -> bool {
    match b {
        ContentBlock::ToolUse { input, .. } => input_fits(input),
        _ => true,
    }
}

pub open spec fn pieces_fit(blocks: Seq<ContentBlock>) -> bool {
    forall|i: int| 0 <= i < blocks.len() ==> piece_fits(#[trigger] blocks[i])
}

/// The inputs of all calls in the messages of the assistant can be summarised.
pub open spec fn messages_fit(messages: Seq<Message>) -> bool {
    forall|i: int|
        0 <= i < messages.len() ==> ((#[trigger] messages[i]) matches Message::Assistant { content }
            ==> pieces_fit(content@))
}

/// The name of a call in the piece is one line.
pub open spec fn piece_names_a_line(b: ContentBlock) -> bool {
    match b {
        ContentBlock::ToolUse { name, .. } => has_no_feed(name@),
        _ => true,
    }
}

pub open spec fn pieces_name_lines(blocks: Seq<ContentBlock>) -> bool {
    forall|i: int| 0 <= i < blocks.len() ==> piece_names_a_line(#[trigger] blocks[i])
}

/// The names of all calls in the messages of the assistant are one line each.
pub open spec fn messages_name_lines(messages: Seq<Message>) -> bool {
    forall|i: int|
        0 <= i < messages.len() ==> ((#[trigger] messages[i]) matches Message::Assistant { content }
            ==> pieces_name_lines(content@))
}

proof fn lemma_with_block_keeps_lines(turns: Seq<TurnModel>, block: BlockModel)
    requires
        turns_are_lines(turns),
        block_is_lines(block),
    ensures
        turns_are_lines(with_block(turns, block)),
{
    let after = with_block(turns, block);
    assert forall|i: int| 0 <= i < after.len() implies blocks_are_lines(
        (#[trigger] after[i]).blocks,
    ) by {
        if i < turns.len() {
            assert(blocks_are_lines(turns[i].blocks));
        }
    }
}

proof fn lemma_tool_end_bound(blocks: Seq<BlockModel>, id: Seq<char>)
    ensures
        tool_end(blocks, id) <= blocks.len(),
    decreases blocks.len(),
{
    if blocks.len() > 0 {
        lemma_tool_end_bound(blocks.drop_last(), id);
    }
}

proof fn lemma_turn_of_tool_bound(turns: Seq<TurnModel>, id: Seq<char>)
    ensures
        turn_of_tool(turns, id) <= turns.len(),
        turn_of_tool(turns, id) > 0 ==> tool_end(
            turns[turn_of_tool(turns, id) - 1].blocks,
            id,
        ) > 0,
    decreases turns.len(),
{
    if turns.len() > 0 {
        lemma_turn_of_tool_bound(turns.drop_last(), id);
    }
}

proof fn lemma_user_piece_keeps_lines(turns: Seq<TurnModel>, b: ContentBlock)
    requires
        turns_are_lines(turns),
    ensures
        turns_are_lines(user_piece(turns, b)),
{
    let after = user_piece(turns, b);
    match b {
        ContentBlock::Text { text } => {
            assert forall|i: int| 0 <= i < after.len() implies blocks_are_lines(
                (#[trigger] after[i]).blocks,
            ) by {
                if i < turns.len() {
                    assert(blocks_are_lines(turns[i].blocks));
                }
            }
        },
        ContentBlock::ToolResult { tool_use_id, content, is_error } => {
            let id = tool_use_id@;
            let t = turn_of_tool(turns, id) as int;
            lemma_turn_of_tool_bound(turns, id);
            if t > 0 {
                lemma_tool_end_bound(turns[t - 1].blocks, id);
                assert forall|i: int| 0 <= i < after.len() implies blocks_are_lines(
                    (#[trigger] after[i]).blocks,
                ) by {
                    assert(blocks_are_lines(turns[i].blocks));
                    assert forall|j: int| 0 <= j < after[i].blocks.len() implies block_is_lines(
                        #[trigger] after[i].blocks[j],
                    ) by {
                        assert(block_is_lines(turns[i].blocks[j]));
                    }
                }
            } else {
                lemma_note_keeps_lines(
                    turns,
                    orphan_note(id, result_text_spec(content)),
                );
            }
        },
        _ => {
            lemma_with_block_keeps_lines(turns, BlockModel::Note(placeholder_spec(b)));
        },
    }
}

fn add_user_piece(turns: &mut Vec<Turn>, block: ContentBlock)
    ensures
        turns_view(final(turns)@) == user_piece(turns_view(old(turns)@), block),
        turns_are_lines(turns_view(old(turns)@)) ==> turns_are_lines(turns_view(final(turns)@)),
{
    let ghost before = turns_view(turns@);
    proof {
        if turns_are_lines(before) {
            lemma_user_piece_keeps_lines(before, block);
        }
    }
    match block {
        ContentBlock::Text { text } => match user_text(text.as_str()) {
            Some(t) => {
                let mut blocks: Vec<Block> = Vec::new();
                blocks.push(Block::UserPrompt(t));
                assert(blocks_view(blocks@) =~= seq![BlockModel::UserPrompt(t@)]);
                let n: usize = turns.len();
                let turn = Turn {
                    id: "restored-".to_owned().concat(decimal(n as u64).as_str()),
                    blocks,
                };
                turns.push(turn);
            },
            None => {},
        },
        ContentBlock::ToolResult { tool_use_id, content, is_error } => {
            let text: String = result_text(content);
            fill_tool_result(turns, &tool_use_id, text, is_error);
        },
        other => {
            let note: String = placeholder(&other);
            push_block(turns, Block::Note(note));
        },
    }
    assert(turns_view(turns@) =~= user_piece(before, block));
}

fn add_assistant_piece(turns: &mut Vec<Turn>, block: ContentBlock)
    requires
        piece_fits(block),
    ensures
        turns_view(final(turns)@) == assistant_piece(turns_view(old(turns)@), block),
        turns_are_lines(turns_view(old(turns)@)) && piece_names_a_line(block) ==> turns_are_lines(
            turns_view(final(turns)@),
        ),
{
    let ghost before = turns_view(turns@);
    proof {
        assert forall|b: BlockModel|
            turns_are_lines(before) && block_is_lines(b) implies #[trigger] turns_are_lines(
            with_block(before, b),
        ) by {
            lemma_with_block_keeps_lines(before, b);
        }
    }
    match block {
        ContentBlock::Text { text } => push_block(turns, Block::AssistantText(text)),
        ContentBlock::Thinking { thinking } => push_block(turns, Block::Thinking(thinking)),
        ContentBlock::ToolUse { id, name, input } => {
            let input_summary: String = summarize_input(&input);
            push_block(
                turns,
                Block::Tool { id, name, input_summary, result: None, expanded: false },
            );
        },
        other => {
            let note: String = placeholder(&other);
            push_block(turns, Block::Note(note));
        },
    }
}

fn add_pieces(turns: &mut Vec<Turn>, content: Vec<ContentBlock>, user: bool)
    requires
        !user ==> pieces_fit(content@),
    ensures
        turns_view(final(turns)@) == pieces_added(turns_view(old(turns)@), content@, user),
        turns_are_lines(turns_view(old(turns)@)) && (!user ==> pieces_name_lines(content@))
            ==> turns_are_lines(turns_view(final(turns)@)),
{
    let ghost start = turns_view(turns@);
    let ghost all = content@;
    let mut rest: Vec<ContentBlock> = content;
    let ghost mut k: int = 0;
    proof {
        assert(all.take(0) =~= seq![]);
        assert(all.skip(0) =~= all);
    }
    while rest.len() > 0
        invariant
            0 <= k <= all.len(),
            rest@ == all.skip(k),
            !user ==> pieces_fit(all),
            turns_view(turns@) == pieces_added(start, all.take(k), user),
            turns_are_lines(start) && (!user ==> pieces_name_lines(all)) ==> turns_are_lines(
                turns_view(turns@),
            ),
        decreases rest@.len(),
    {
        let b: ContentBlock = rest.remove(0);
        proof {
            assert(b == all[k]);
            assert(rest@ =~= all.skip(k + 1));
            assert(all.take(k + 1).drop_last() =~= all.take(k));
            assert(all.take(k + 1).last() == b);
            k = k + 1;
        }
        if user {
            add_user_piece(turns, b);
        } else {
            add_assistant_piece(turns, b);
        }
    }
    assert(all.take(k) =~= all);
}

/// Rebuilds the turns of an earlier session from its messages.
pub fn restore_turns(messages: Vec<Message>) -> (r: Vec<Turn>)
    requires
        messages_fit(messages@),
    ensures
        turns_view(r@) == restored(messages@),
        messages_name_lines(messages@) ==> turns_are_lines(turns_view(r@)),
{
    let mut turns: Vec<Turn> = Vec::new();
    let ghost all = messages@;
    let mut rest: Vec<Message> = messages;
    let ghost mut k: int = 0;
    proof {
        assert(turns_view(turns@) =~= restored(all.take(0)));
        assert(all.skip(0) =~= all);
    }
    while rest.len() > 0
        invariant
            0 <= k <= all.len(),
            rest@ == all.skip(k),
            messages_fit(all),
            turns_view(turns@) == restored(all.take(k)),
            messages_name_lines(all) ==> turns_are_lines(turns_view(turns@)),
        decreases rest@.len(),
    {
        let m: Message = rest.remove(0);
        proof {
            assert(m == all[k]);
            assert(rest@ =~= all.skip(k + 1));
            assert(all.take(k + 1).drop_last() =~= all.take(k));
            assert(all.take(k + 1).last() == m);
            k = k + 1;
        }
        match m {
            Message::User { content } => add_pieces(&mut turns, content, true),
            Message::Assistant { content } => add_pieces(&mut turns, content, false),
            Message::System { text } => {
                proof {
                    if messages_name_lines(all) {
                        lemma_with_block_keeps_lines(turns_view(turns@), BlockModel::Note(text@));
                    }
                }
                push_block(&mut turns, Block::Note(text))
            },
        }
    }
    assert(all.take(k) =~= all);
    turns
}

fn can_restore_piece(b: &ContentBlock) -> (r: bool)
    ensures
        r == piece_fits(*b),
{
    match b {
        ContentBlock::ToolUse { input, .. } => can_summarize(input),
        _ => true,
    }
}

fn can_restore_pieces(blocks: &Vec<ContentBlock>) -> (r: bool)
    ensures
        r == pieces_fit(blocks@),
{
    let mut i: usize = 0;
    while i < blocks.len()
        invariant
            i <= blocks@.len(),
            forall|j: int| 0 <= j < i ==> piece_fits(#[trigger] blocks@[j]),
        decreases blocks@.len() - i,
    {
        if !can_restore_piece(&blocks[i]) {
            return false;
        }
        i += 1;
    }
    true
}

/// Whether the inputs of all calls in the messages can be summarised.
pub fn can_restore(messages: &Vec<Message>) -> (r: bool)
    ensures
        r == messages_fit(messages@),
{
    let mut i: usize = 0;
    while i < messages.len()
        invariant
            i <= messages@.len(),
            forall|j: int|
                0 <= j < i ==> ((#[trigger] messages@[j]) matches Message::Assistant { content }
                    ==> pieces_fit(content@)),
        decreases messages@.len() - i,
    {
        match &messages[i] {
            Message::Assistant { content } => {
                if !can_restore_pieces(content) {
                    return false;
                }
            },
            _ => {},
        }
        i += 1;
    }
    true
}

/// Rebuilds the turns where every call can be summarised; `None` otherwise.
pub fn try_restore_turns(messages: Vec<Message>) -> (r: Option<Vec<Turn>>)
    ensures
        r is Some == messages_fit(messages@),
        r matches Some(turns) ==> turns_view(turns@) == restored(messages@),
        r matches Some(turns) ==> (messages_name_lines(messages@) ==> turns_are_lines(
            turns_view(turns@),
        )),
{
    if can_restore(&messages) {
        Some(restore_turns(messages))
    } else {
        None
    }
}

} // verus!
