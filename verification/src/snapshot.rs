//! The frame that a session shows. What only the terminal knows is left at its default.

use crate::domain::{
    blocks_view, sub_agents_view, turns_view, Block, BlockModel, Now, SubAgentInfo, SubAgentModel,
    Turn, TurnModel,
};
use crate::frame_state::{
    agents_view, asks_view, entries_view, opt_text, tasks_view, AppInfoLineState, AppMode,
    AskRequest, AskState, AskViewMode, BottomRuleState, ComposerState, ContentState, EditorState,
    EntryView, FooterHintsState, FrameState, HeaderSource, HeaderState, InputMode,
    OperationStatusState, ScrollState, SeparatorColor, StatusContent, StatusLineState,
    SubAgentBarState, SubAgentStatus, SubAgentView, TaskItem, TaskListState, TopRuleState,
    TranscriptBodyState, TranscriptEntry, TranscriptState,
};
use crate::reducer::{first_line, first_line_spec, status_view, Reducer, ReducerModel};
use crate::text::{decimal, decimal_spec};
use crate::transcript_lines::{blocks_entries, push_blocks_entries};
use vstd::prelude::*;
use vstd::string::*;

verus! {

/// The lines of the whole transcript.
pub open spec fn turns_entries(turns: Seq<TurnModel>) -> Seq<EntryView>
    decreases turns.len(),
{
    if turns.len() == 0 {
        seq![]
    } else {
        turns_entries(turns.drop_last()) + blocks_entries(turns.last().blocks)
    }
}

fn transcript_entries(turns: &Vec<Turn>) -> (r: Vec<TranscriptEntry>)
    ensures
        entries_view(r@) == turns_entries(turns_view(turns@)),
{
    let ghost all = turns_view(turns@);
    let mut r: Vec<TranscriptEntry> = Vec::new();
    let mut i: usize = 0;
    while i < turns.len()
        invariant
            i <= turns@.len(),
            all == turns_view(turns@),
            entries_view(r@) == turns_entries(all.take(i as int)),
        decreases turns@.len() - i,
    {
        push_blocks_entries(&mut r, &turns[i].blocks);
        proof {
            assert(all.take(i + 1).drop_last() =~= all.take(i as int));
        }
        i += 1;
    }
    assert(all.take(i as int) =~= all);
    r
}

/// The first prompt among blocks.
pub open spec fn first_prompt(blocks: Seq<BlockModel>) -> Option<Seq<char>>
    decreases blocks.len(),
{
    if blocks.len() == 0 {
        None
    } else {
        match blocks[0] {
            BlockModel::UserPrompt(t) => Some(t),
            _ => first_prompt(blocks.drop_first()),
        }
    }
}

/// The prompt of the last turn that has one.
pub open spec fn last_prompt(turns: Seq<TurnModel>) -> Option<Seq<char>>
    decreases turns.len(),
{
    if turns.len() == 0 {
        None
    } else {
        match first_prompt(turns.last().blocks) {
            Some(t) => Some(t),
            None => last_prompt(turns.drop_last()),
        }
    }
}

/// What is pinned above the transcript: the first line of the latest prompt.
pub open spec fn current_prompt_spec(turns: Seq<TurnModel>) -> Option<Seq<char>> {
    match last_prompt(turns) {
        Some(t) => Some(first_line_spec(t)),
        None => None,
    }
}

fn prompt_in(blocks: &Vec<Block>) -> (r: Option<String>)
    ensures
        opt_text(r) == match first_prompt(blocks_view(blocks@)) {
            Some(t) => Some(first_line_spec(t)),
            None => None,
        },
{
    let ghost m = blocks_view(blocks@);
    let mut i: usize = 0;
    proof {
        assert(m.skip(0) =~= m);
    }
    while i < blocks.len()
        invariant
            i <= blocks@.len(),
            m == blocks_view(blocks@),
            first_prompt(m) == first_prompt(m.skip(i as int)),
        decreases blocks@.len() - i,
    {
        proof {
            assert(m.skip(i as int).drop_first() =~= m.skip(i + 1));
        }
        match &blocks[i] {
            Block::UserPrompt(t) => {
                return Some(first_line(t.as_str()));
            },
            _ => {},
        }
        i += 1;
    }
    None
}

pub fn current_prompt(turns: &Vec<Turn>) -> (r: Option<String>)
    ensures
        opt_text(r) == current_prompt_spec(turns_view(turns@)),
{
    let ghost m = turns_view(turns@);
    let mut n: usize = turns.len();
    proof {
        assert(m.take(n as int) =~= m);
    }
    while n > 0
        invariant
            n <= turns@.len(),
            m == turns_view(turns@),
            last_prompt(m) == last_prompt(m.take(n as int)),
        decreases n,
    {
        proof {
            assert(m.take(n as int).drop_last() =~= m.take(n - 1));
        }
        match prompt_in(&turns[n - 1].blocks) {
            Some(t) => {
                return Some(t);
            },
            None => {},
        }
        n -= 1;
    }
    None
}

/// A row of the sub-agent bar: how it ended, or how long it has been running.
pub open spec fn agent_row(a: SubAgentModel, now: Now) -> SubAgentView {
    SubAgentView {
        name: a.id,
        state: a.state,
        token_usage: a.tokens,
        elapsed_or_status: match a.outcome {
            Some(o) => o,
            None => decimal_spec(now.seconds_since(a.started) as nat) + "s"@,
        },
    }
}

pub open spec fn agent_rows(agents: Seq<SubAgentModel>, now: Now) -> Seq<SubAgentView> {
    agents.map_values(|a: SubAgentModel| agent_row(a, now))
}

fn render_agents(agents: &Vec<SubAgentInfo>, now: Now) -> (r: Vec<SubAgentStatus>)
    ensures
        agents_view(r@) == agent_rows(sub_agents_view(agents@), now),
{
    let ghost all = agent_rows(sub_agents_view(agents@), now);
    let mut r: Vec<SubAgentStatus> = Vec::new();
    let mut i: usize = 0;
    while i < agents.len()
        invariant
            i <= agents@.len(),
            all == agent_rows(sub_agents_view(agents@), now),
            agents_view(r@) == all.take(i as int),
        decreases agents@.len() - i,
    {
        let a: &SubAgentInfo = &agents[i];
        let elapsed_or_status: String = match &a.outcome {
            Some(o) => o.clone(),
            None => decimal(now.elapsed(a.started)).concat("s"),
        };
        let row = SubAgentStatus {
            name: a.id.clone(),
            state: a.state,
            token_usage: a.tokens,
            elapsed_or_status,
        };
        let ghost before = r@;
        r.push(row);
        proof {
            assert(agents_view(r@) =~= agents_view(before).push(row@));
        }
        i += 1;
    }
    r
}

fn clone_requests(v: &Vec<AskRequest>) -> (r: Vec<AskRequest>)
    ensures
        asks_view(r@) == asks_view(v@),
{
    let ghost all = asks_view(v@);
    let mut r: Vec<AskRequest> = Vec::new();
    let mut i: usize = 0;
    while i < v.len()
        invariant
            i <= v@.len(),
            all == asks_view(v@),
            asks_view(r@) == all.take(i as int),
        decreases v@.len() - i,
    {
        let ghost before = r@;
        let a: AskRequest = v[i].clone();
        r.push(a);
        assert(asks_view(r@) =~= asks_view(before).push(a@));
        i += 1;
    }
    r
}

fn clone_tasks(v: &Vec<TaskItem>) -> (r: Vec<TaskItem>)
    ensures
        tasks_view(r@) == tasks_view(v@),
{
    let mut r: Vec<TaskItem> = Vec::new();
    let mut i: usize = 0;
    while i < v.len()
        invariant
            i <= v@.len(),
            r@ == v@.take(i as int),
        decreases v@.len() - i,
    {
        r.push(v[i].clone());
        i += 1;
    }
    r
}

/// The hint at the right of the footer.
pub const FOOTER_HINT: &'static str = "/=cmds · @=file · F4=help";

/// `f` shows the session `m` at the time `now`.
pub open spec fn shows(f: FrameState, m: ReducerModel, now: Now) -> bool {
    let content = f.composer.content;
    &&& entries_view(f.transcript.body.entries@) == turns_entries(m.turns)
    &&& f.transcript.body.scroll == (ScrollState {
        offset: 0,
        total_lines: f.transcript.body.entries@.len() as usize,
    })
    &&& f.transcript.body.auto_follow
    &&& f.transcript.body.selected_block is None
    &&& opt_text(f.transcript.header.text) == current_prompt_spec(m.turns)
    &&& f.transcript.header.source == if current_prompt_spec(m.turns) is Some {
        HeaderSource::UserPrompt
    } else {
        HeaderSource::Nothing
    }
    &&& status_view(f.operation_status.status_line.content) == m.status
    &&& tasks_view(f.operation_status.task_list.items@) == m.tasks
    &&& f.composer.app_info.text is None
    &&& f.composer.top_rule.color == SeparatorColor::DarkGray
    &&& f.composer.top_rule.right_label is None
    &&& f.composer.bottom_rule.color == SeparatorColor::DarkGray
    &&& content.editor.mode == InputMode::Normal
    &&& content.editor.draft@ == Seq::<char>::empty()
    &&& content.editor.cursor == 0
    &&& content.editor.paste_placeholder is None
    &&& content.editor.locked == (content.ask matches Some(a) && a.locks_composer_spec())
    &&& content.picker is None
    &&& content.ask is None == (m.pending.len() == 0)
    &&& content.ask matches Some(a) ==> {
        &&& asks_view(a.pending@) == m.pending
        &&& a.active_idx == 0
        &&& a.view_mode == AskViewMode::TabView
    }
    &&& agents_view(f.sub_agent_bar.agents@) == agent_rows(m.sub_agents, now)
    &&& f.footer_hints.model@ == m.model_name
    &&& f.footer_hints.cwd@ == m.cwd
    &&& f.footer_hints.mode == AppMode::Normal
    &&& f.footer_hints.right_hint@ == FOOTER_HINT@
    &&& f.footer_hints.usage == m.usage
    &&& f.btw is None
}

impl Reducer {
    /// The frame of the session at a time.
    pub fn render(&self, now: Now) -> (f: FrameState)
        ensures
            shows(f, self@, now),
    {
        let entries: Vec<TranscriptEntry> = transcript_entries(&self.turns);
        let total_lines: usize = entries.len();
        let ask: Option<AskState> = if self.pending.len() == 0 {
            None
        } else {
            Some(
                AskState {
                    pending: clone_requests(&self.pending),
                    active_idx: 0,
                    view_mode: AskViewMode::TabView,
                },
            )
        };
        let locked: bool = match &ask {
            Some(a) => a.locks_composer(),
            None => false,
        };
        let header: HeaderState = match current_prompt(&self.turns) {
            Some(text) => HeaderState { text: Some(text), source: HeaderSource::UserPrompt },
            None => HeaderState { text: None, source: HeaderSource::Nothing },
        };
        let status: Option<StatusContent> = match &self.status {
            Some(s) => Some(s.clone()),
            None => None,
        };
        FrameState {
            transcript: TranscriptState {
                header,
                body: TranscriptBodyState {
                    scroll: ScrollState { offset: 0, total_lines },
                    entries,
                    auto_follow: true,
                    selected_block: None,
                },
            },
            operation_status: OperationStatusState {
                status_line: StatusLineState { content: status },
                task_list: TaskListState { items: clone_tasks(&self.tasks) },
            },
            composer: ComposerState {
                app_info: AppInfoLineState { text: None },
                top_rule: TopRuleState { color: SeparatorColor::DarkGray, right_label: None },
                content: ContentState {
                    editor: EditorState {
                        mode: InputMode::Normal,
                        draft: String::new(),
                        cursor: 0,
                        paste_placeholder: None,
                        locked,
                    },
                    picker: None,
                    ask,
                },
                bottom_rule: BottomRuleState { color: SeparatorColor::DarkGray },
            },
            sub_agent_bar: SubAgentBarState { agents: render_agents(&self.sub_agents, now) },
            footer_hints: FooterHintsState {
                model: self.model_name.clone(),
                cwd: self.cwd.clone(),
                mode: AppMode::Normal,
                right_hint: FOOTER_HINT.to_owned(),
                usage: self.usage,
            },
            btw: None,
        }
    }
}

} // verus!
