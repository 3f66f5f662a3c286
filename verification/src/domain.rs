//! What the engine reports, and what is kept of it.

use crate::frame_state::{opt_text, SubAgentState};
use serde_json::Value;
use vstd::prelude::*;
use vstd::string::*;

verus! {

/// An event of the engine.
#[derive(Debug)]
pub enum AgentEvent {
    TextDelta { text: String, turn_id: String },
    ThinkingDelta { text: String, turn_id: String },
    ToolUse { id: String, name: String, input: Value, turn_id: String },
    ToolResult {
        id: String,
        name: String,
        content: String,
        is_error: Option<bool>,
        turn_id: String,
    },
    PermissionPrompt { prompt_id: String, tool_name: String, message: String },
    TurnComplete { stop_reason: String, input_tokens: u32, output_tokens: u32 },
    SystemInit,
    System { message: String },
    CompactAction {
        strategy: String,
        messages_before: u64,
        messages_after: u64,
        dropped_rounds: Option<u64>,
        estimated_tokens_saved: Option<u64>,
    },
    SessionChanged { session_id: String },
    SessionPersisted,
    SkillsChanged,
    AgentSpawned { agent_id: String },
    AgentCompleted { agent_id: String, outcome: String },
    /// An event of a sub-agent's own, passed on.
    SubagentProgress { agent_label: String, event: Box<AgentEvent> },
    TeamProgress,
    Error { message: String, turn_id: String },
}

/// A message of an earlier session.
#[derive(Debug)]
pub enum Message {
    User { content: Vec<ContentBlock> },
    Assistant { content: Vec<ContentBlock> },
    System { text: String },
}

/// A piece of a message.
#[derive(Debug)]
pub enum ContentBlock {
    Text { text: String },
    Image,
    ToolUse { id: String, name: String, input: Value },
    ToolResult { tool_use_id: String, content: ToolResultContent, is_error: bool },
    Thinking { thinking: String },
    Other,
}

#[derive(Debug)]
pub enum ToolResultContent {
    Text(String),
    Blocks(Vec<ContentBlock>),
}

/// A point in time on two clocks.
#[derive(Debug, Clone, Copy, PartialEq, Eq, Structural)]
pub struct Now {
    /// Milliseconds on a clock that never goes back.
    pub steady_ms: u64,
    /// Milliseconds since the epoch.
    pub wall_ms: u128,
}

impl Now {
    /// Whole seconds since an earlier point on the steady clock.
    pub open spec fn seconds_since(self, started: u64) -> u64 {
        if self.steady_ms >= started {
            ((self.steady_ms - started) / 1000) as u64
        } else {
            0
        }
    }

    pub fn elapsed(&self, started: u64) -> (r: u64)
        ensures
            r == self.seconds_since(started),
    {
        if self.steady_ms >= started {
            (self.steady_ms - started) / 1000
        } else {
            0
        }
    }
}

/// One exchange: what the user said and what followed from it.
#[derive(Debug)]
pub struct Turn {
    pub id: String,
    pub blocks: Vec<Block>,
}

#[derive(Debug)]
pub enum Block {
    UserPrompt(String),
    AssistantText(String),
    Thinking(String),
    Tool {
        id: String,
        name: String,
        input_summary: String,
        result: Option<ToolOutcome>,
        expanded: bool,
    },
    Note(String),
    Error(String),
}

#[derive(Debug)]
pub struct ToolOutcome {
    pub text: String,
    pub is_error: bool,
}

/// A row of the sub-agent bar. Its key is the label that all events of the sub-agent carry.
#[derive(Debug)]
pub struct SubAgentInfo {
    pub id: String,
    pub state: SubAgentState,
    pub tokens: u64,
    /// The start on the steady clock.
    pub started: u64,
    /// How it ended; `None` while it runs.
    pub outcome: Option<String>,
}

// ---- models --------------------------------------------------------------------------

#[verifier::ext_equal]
pub struct TurnModel {
    pub id: Seq<char>,
    pub blocks: Seq<BlockModel>,
}

#[verifier::ext_equal]
pub enum BlockModel {
    UserPrompt(Seq<char>),
    AssistantText(Seq<char>),
    Thinking(Seq<char>),
    Tool {
        id: Seq<char>,
        name: Seq<char>,
        input_summary: Seq<char>,
        result: Option<OutcomeModel>,
        expanded: bool,
    },
    Note(Seq<char>),
    Error(Seq<char>),
}

#[verifier::ext_equal]
pub struct OutcomeModel {
    pub text: Seq<char>,
    pub is_error: bool,
}

#[verifier::ext_equal]
pub struct SubAgentModel {
    pub id: Seq<char>,
    pub state: SubAgentState,
    pub tokens: u64,
    pub started: u64,
    pub outcome: Option<Seq<char>>,
}

pub open spec fn outcome_model(o: Option<ToolOutcome>) -> Option<OutcomeModel> {
    match o {
        Some(x) => Some(OutcomeModel { text: x.text@, is_error: x.is_error }),
        None => None,
    }
}

impl View for Block {
    type V = BlockModel;

    open spec fn view(&self) -> BlockModel {
        match *self {
            Block::UserPrompt(t) => BlockModel::UserPrompt(t@),
            Block::AssistantText(t) => BlockModel::AssistantText(t@),
            Block::Thinking(t) => BlockModel::Thinking(t@),
            Block::Tool { id, name, input_summary, result, expanded } => BlockModel::Tool {
                id: id@,
                name: name@,
                input_summary: input_summary@,
                result: outcome_model(result),
                expanded,
            },
            Block::Note(t) => BlockModel::Note(t@),
            Block::Error(t) => BlockModel::Error(t@),
        }
    }
}

pub open spec fn blocks_view(s: Seq<Block>) -> Seq<BlockModel> {
    s.map_values(|b: Block| b@)
}

impl View for Turn {
    type V = TurnModel;

    open spec fn view(&self) -> TurnModel {
        TurnModel { id: self.id@, blocks: blocks_view(self.blocks@) }
    }
}

pub open spec fn turns_view(s: Seq<Turn>) -> Seq<TurnModel> {
    s.map_values(|t: Turn| t@)
}

impl View for SubAgentInfo {
    type V = SubAgentModel;

    open spec fn view(&self) -> SubAgentModel {
        SubAgentModel {
            id: self.id@,
            state: self.state,
            tokens: self.tokens,
            started: self.started,
            outcome: opt_text(self.outcome),
        }
    }
}

pub open spec fn sub_agents_view(s: Seq<SubAgentInfo>) -> Seq<SubAgentModel> {
    s.map_values(|a: SubAgentInfo| a@)
}

// ---- turns ---------------------------------------------------------------------------

/// How many turns stand before the first one with that id.
pub open spec fn turn_index(turns: Seq<TurnModel>, id: Seq<char>) -> nat
    decreases turns.len(),
{
    if turns.len() == 0 || turns[0].id == id {
        0
    } else {
        1 + turn_index(turns.drop_first(), id)
    }
}

/// The turns with one of that id among them: a new one at the end where there was none.
pub open spec fn with_turn(turns: Seq<TurnModel>, id: Seq<char>) -> Seq<TurnModel> {
    if turn_index(turns, id) < turns.len() {
        turns
    } else {
        turns.push(TurnModel { id, blocks: seq![] })
    }
}

/// The blocks of the turn with that id; none where there is no such turn.
pub open spec fn blocks_of(turns: Seq<TurnModel>, id: Seq<char>) -> Seq<BlockModel> {
    let i = turn_index(turns, id) as int;
    if i < turns.len() {
        turns[i].blocks
    } else {
        seq![]
    }
}

/// The turns with other blocks in the turn of that id.
pub open spec fn with_blocks(
    turns: Seq<TurnModel>,
    id: Seq<char>,
    blocks: Seq<BlockModel>,
) -> Seq<TurnModel> {
    with_turn(turns, id).update(turn_index(turns, id) as int, TurnModel { id, blocks })
}

/// A note at the end of the last turn; a turn without id is opened where there is none.
pub open spec fn with_note(turns: Seq<TurnModel>, text: Seq<char>) -> Seq<TurnModel> {
    if turns.len() == 0 {
        seq![TurnModel { id: seq![], blocks: seq![BlockModel::Note(text)] }]
    } else {
        let last = turns.last();
        turns.update(
            turns.len() - 1,
            TurnModel { id: last.id, blocks: last.blocks.push(BlockModel::Note(text)) },
        )
    }
}

pub proof fn lemma_turn_index(turns: Seq<TurnModel>, id: Seq<char>)
    ensures
        turn_index(turns, id) <= turns.len(),
        turn_index(turns, id) < turns.len() ==> turns[turn_index(turns, id) as int].id == id,
        forall|i: int| 0 <= i < turn_index(turns, id) ==> (#[trigger] turns[i]).id != id,
    decreases turns.len(),
{
    if turns.len() > 0 && turns[0].id != id {
        let t = turns.drop_first();
        lemma_turn_index(t, id);
        assert forall|i: int| 0 <= i < turn_index(turns, id) implies (#[trigger] turns[i]).id
            != id by {
            if i > 0 {
                assert(turns[i] == t[i - 1]);
            }
        }
    }
}

fn find_turn(turns: &Vec<Turn>, id: &String) -> (k: usize)
    ensures
        k == turn_index(turns_view(turns@), id@),
        k <= turns@.len(),
{
    let ghost m = turns_view(turns@);
    let mut k: usize = 0;
    proof {
        assert(m.skip(0) =~= m);
    }
    while k < turns.len() && turns[k].id != *id
        invariant
            k <= turns@.len(),
            m == turns_view(turns@),
            turn_index(m, id@) == k + turn_index(m.skip(k as int), id@),
        decreases turns@.len() - k,
    {
        assert(m.skip(k as int).drop_first() =~= m.skip(k + 1));
        k += 1;
    }
    k
}

/// The index of the turn with that id, which is opened where there is none.
pub fn find_or_create_turn(turns: &mut Vec<Turn>, turn_id: &String) -> (k: usize)
    ensures
        turns_view(final(turns)@) == with_turn(turns_view(old(turns)@), turn_id@),
        k == turn_index(turns_view(old(turns)@), turn_id@),
        k < final(turns)@.len(),
        final(turns)@[k as int].id@ == turn_id@,
        blocks_view(final(turns)@[k as int].blocks@) == blocks_of(
            turns_view(old(turns)@),
            turn_id@,
        ),
{
    let ghost m = turns_view(turns@);
    let k: usize = find_turn(turns, turn_id);
    proof {
        lemma_turn_index(m, turn_id@);
    }
    if k == turns.len() {
        let t = Turn { id: turn_id.clone(), blocks: Vec::new() };
        assert(t@ =~= TurnModel { id: turn_id@, blocks: seq![] });
        turns.push(t);
    }
    k
}

/// Replaces the last block of a turn, or adds one behind it.
pub proof fn lemma_set_blocks(
    before: Seq<TurnModel>,
    old_turns: Seq<Turn>,
    new_turns: Seq<Turn>,
    id: Seq<char>,
    blocks: Seq<BlockModel>,
)
    requires
        turns_view(old_turns) == with_turn(before, id),
        turn_index(before, id) < old_turns.len(),
        new_turns.len() == old_turns.len(),
        forall|i: int|
            0 <= i < old_turns.len() && i != turn_index(before, id) ==> new_turns[i]
                == old_turns[i],
        new_turns[turn_index(before, id) as int].id@ == id,
        blocks_view(new_turns[turn_index(before, id) as int].blocks@) == blocks,
    ensures
        turns_view(new_turns) == with_blocks(before, id, blocks),
{
}

/// Adds a note at the end of the last turn.
pub fn push_note(turns: &mut Vec<Turn>, message: String)
    ensures
        turns_view(final(turns)@) == with_note(turns_view(old(turns)@), message@),
{
    if turns.len() == 0 {
        let mut blocks: Vec<Block> = Vec::new();
        blocks.push(Block::Note(message));
        assert(blocks_view(blocks@) =~= seq![BlockModel::Note(message@)]);
        let t = Turn { id: String::new(), blocks };
        turns.push(t);
    } else {
        let n: usize = turns.len() - 1;
        let ghost last = turns@[n as int];
        turns[n].blocks.push(Block::Note(message));
        assert(blocks_view(turns@[n as int].blocks@) =~= blocks_view(last.blocks@).push(
            BlockModel::Note(message@),
        ));
    }
}

} // verus!
