//! The state of a session, and how the events of the engine change it.
//!
//! [`ReducerModel`] is the state as mathematics; [`event_applied`] is the transition that an
//! event makes.

use crate::ask::{PendingQuestion, QuestionEvent};
use crate::domain::{
    blocks_of, blocks_view, find_or_create_turn, lemma_set_blocks, push_note, sub_agents_view,
    turns_view, with_blocks, with_note, AgentEvent, Block, BlockModel, Now, OutcomeModel,
    SubAgentInfo, SubAgentModel, ToolOutcome, Turn, TurnModel,
};
use crate::frame_state::{
    asks_view, opt_text, options_view, tasks_view, AnswerWith, AskOption, AskRequest, AskView,
    ItemStatus, OptionView, SessionUsageState, StatusContent, StatusView, SubAgentState, TaskItem,
    TaskView,
};
use crate::json::{
    compact, items, json_items, json_member, json_string, json_text, json_texts, member, string,
};
use crate::reducer_laws::{law_events_keep_lines, names_a_line, turns_are_lines};
use crate::text::{
    byte_len, char_pos, chars_of, count_chars_before, decimal, decimal_spec, has_no_feed,
    is_boundary, lemma_char_pos_bound, lines, lines_spec, string_of, text_eq, text_len,
};
use serde_json::Value;
use vstd::prelude::*;
use vstd::string::*;

verus! {

/// The tool whose input is the task list.
pub const TODO_TOOL: &'static str = "TodoWrite";

/// The longest summary of a tool input, in bytes.
pub const SUMMARY_BYTES: usize = 80;

/// The state of a session.
#[derive(Debug)]
pub struct Reducer {
    pub turns: Vec<Turn>,
    /// What waits for an answer: permission requests and questions of the model.
    pub pending: Vec<AskRequest>,
    pub sub_agents: Vec<SubAgentInfo>,
    pub tasks: Vec<TaskItem>,
    pub usage: SessionUsageState,
    pub status: Option<StatusContent>,
    /// When the running turn began, on the steady clock.
    pub active_turn_started: Option<u64>,
    pub cancel_requested: bool,
    pub activity: String,
    pub model_name: String,
    pub cwd: String,
}

/// The state of [`Reducer`] over mathematical types.
#[verifier::ext_equal]
pub struct ReducerModel {
    pub turns: Seq<TurnModel>,
    pub pending: Seq<AskView>,
    pub sub_agents: Seq<SubAgentModel>,
    pub tasks: Seq<TaskView>,
    pub usage: SessionUsageState,
    pub status: Option<StatusView>,
    pub active_turn_started: Option<u64>,
    pub cancel_requested: bool,
    pub activity: Seq<char>,
    pub model_name: Seq<char>,
    pub cwd: Seq<char>,
}

/// What an optional status holds.
pub open spec fn status_view(s: Option<StatusContent>) -> Option<StatusView> {
    match s {
        Some(c) => Some(c@),
        None => None,
    }
}

impl View for Reducer {
    type V = ReducerModel;

    open spec fn view(&self) -> ReducerModel {
        ReducerModel {
            turns: turns_view(self.turns@),
            pending: asks_view(self.pending@),
            sub_agents: sub_agents_view(self.sub_agents@),
            tasks: tasks_view(self.tasks@),
            usage: self.usage,
            status: status_view(self.status),
            active_turn_started: self.active_turn_started,
            cancel_requested: self.cancel_requested,
            activity: self.activity@,
            model_name: self.model_name@,
            cwd: self.cwd@,
        }
    }
}

// ---- small texts ---------------------------------------------------------------------

/// The first line of a text.
pub open spec fn first_line_spec(text: Seq<char>) -> Seq<char> {
    if lines_spec(text).len() > 0 {
        lines_spec(text)[0]
    } else {
        seq![]
    }
}

pub fn first_line(text: &str) -> (r: String)
    ensures
        r@ == first_line_spec(text@),
{
    let parts: Vec<String> = lines(text);
    if parts.len() > 0 {
        parts[0].clone()
    } else {
        String::new()
    }
}

/// A compact JSON text can be cut at the length of a summary, or need not be cut.
pub open spec fn can_cut(s: Seq<char>) -> bool {
    byte_len(s) > SUMMARY_BYTES ==> is_boundary(s, SUMMARY_BYTES as nat)
}

/// The first bytes of a text and an ellipsis, or the whole text where it is short enough.
pub open spec fn cut_spec(s: Seq<char>) -> Seq<char> {
    if byte_len(s) > SUMMARY_BYTES {
        s.take(char_pos(s, SUMMARY_BYTES as nat) as int) + "…"@
    } else {
        s
    }
}

/// Cuts a text to the length of a summary.
pub fn cut_summary(s: &str) -> (r: String)
    requires
        can_cut(s@),
    ensures
        r@ == cut_spec(s@),
{
    if text_len(s) > SUMMARY_BYTES {
        let v: Vec<char> = chars_of(s);
        let k: usize = count_chars_before(&v, SUMMARY_BYTES);
        let head: String = string_of(vstd::slice::slice_subrange(v.as_slice(), 0, k));
        head.concat("…")
    } else {
        s.to_owned()
    }
}

/// The input of a tool can be summarised: a cut of its compact text does not fall inside a
/// character.
pub open spec fn input_fits(input: Value) -> bool {
    can_cut(json_text(input))
}

/// The summary of a tool input: its compact text, cut.
pub open spec fn summary_spec(input: Value) -> Seq<char> {
    cut_spec(json_text(input))
}

/// Whether the input of a tool can be summarised: a cut must not fall inside a character.
pub fn can_summarize(input: &Value) -> (r: bool)
    ensures
        r == input_fits(*input),
{
    let s: String = compact(input);
    if text_len(s.as_str()) <= SUMMARY_BYTES {
        return true;
    }
    let v: Vec<char> = chars_of(s.as_str());
    let k: usize = count_chars_before(&v, SUMMARY_BYTES);
    let head: String = string_of(vstd::slice::slice_subrange(v.as_slice(), 0, k));
    assert(head@ =~= s@.take(k as int));
    text_len(head.as_str()) == SUMMARY_BYTES
}

/// The summary of a tool input.
pub fn summarize_input(input: &Value) -> (r: String)
    requires
        input_fits(*input),
    ensures
        r@ == summary_spec(*input),
        has_no_feed(r@),
{
    let s: String = compact(input);
    proof {
        reveal_strlit("…");
        lemma_char_pos_bound(s@, SUMMARY_BYTES as nat);
    }
    cut_summary(s.as_str())
}

// ---- the task list -------------------------------------------------------------------

/// The string in member `key` of a JSON object.
pub open spec fn string_member(item: Seq<char>, key: Seq<char>) -> Option<Seq<char>> {
    match json_member(item, key) {
        Some(v) => json_string(v),
        None => None,
    }
}

fn read_string(item: &Value, key: &str) -> (r: Option<String>)
    ensures
        opt_text(r) == string_member(json_text(*item), key@),
{
    match member(item, key) {
        Some(v) => match string(v) {
            Some(s) => Some(s.to_owned()),
            None => None,
        },
        None => None,
    }
}

/// A task from its three members. A running task goes by its active form, where it has one
/// that is not empty; without a status or a label it is no task.
pub open spec fn task_spec(
    status: Option<Seq<char>>,
    active_form: Option<Seq<char>>,
    content: Option<Seq<char>>,
) -> Option<TaskView> {
    match status {
        None => None,
        Some(s) => {
            let status = if s == "in_progress"@ {
                ItemStatus::Running
            } else if s == "completed"@ {
                ItemStatus::Done
            } else {
                ItemStatus::Pending
            };
            let by_form = status == ItemStatus::Running && (active_form matches Some(f) && f.len()
                > 0);
            match if by_form {
                active_form
            } else {
                content
            } {
                Some(label) => Some(TaskView { status, label }),
                None => None,
            }
        },
    }
}

/// What an optional task holds.
pub open spec fn opt_task(t: Option<TaskItem>) -> Option<TaskView> {
    match t {
        Some(x) => Some(x@),
        None => None,
    }
}

/// Makes a task of its three members.
pub fn task_from(
    status: Option<String>,
    active_form: Option<String>,
    content: Option<String>,
) -> (r: Option<TaskItem>)
    ensures
        opt_task(r) == task_spec(opt_text(status), opt_text(active_form), opt_text(content)),
{
    let status: ItemStatus = match status {
        None => {
            return None;
        },
        Some(s) => if text_eq(s.as_str(), "in_progress") {
            ItemStatus::Running
        } else if text_eq(s.as_str(), "completed") {
            ItemStatus::Done
        } else {
            ItemStatus::Pending
        },
    };
    if status == ItemStatus::Running {
        match active_form {
            Some(f) => {
                if !f.as_str().is_empty() {
                    return Some(TaskItem { status, label: f });
                }
            },
            None => {},
        }
    }
    match content {
        Some(label) => Some(TaskItem { status, label }),
        None => None,
    }
}

/// The members of a JSON object that make a task.
#[derive(Debug)]
pub struct TodoEntry {
    pub status: Option<String>,
    pub active_form: Option<String>,
    pub content: Option<String>,
}

/// What a [`TodoEntry`] holds.
pub struct TodoView {
    pub status: Option<Seq<char>>,
    pub active_form: Option<Seq<char>>,
    pub content: Option<Seq<char>>,
}

impl View for TodoEntry {
    type V = TodoView;

    open spec fn view(&self) -> TodoView {
        TodoView {
            status: opt_text(self.status),
            active_form: opt_text(self.active_form),
            content: opt_text(self.content),
        }
    }
}

pub open spec fn todos_view(v: Seq<TodoEntry>) -> Seq<TodoView> {
    v.map_values(|x: TodoEntry| x@)
}

/// The tasks that entries make; an entry that makes none is left out.
pub open spec fn tasks_of(entries: Seq<TodoView>) -> Seq<TaskView>
    decreases entries.len(),
{
    if entries.len() == 0 {
        seq![]
    } else {
        let e = entries.last();
        match task_spec(e.status, e.active_form, e.content) {
            Some(t) => tasks_of(entries.drop_last()).push(t),
            None => tasks_of(entries.drop_last()),
        }
    }
}

/// Makes the task list of its entries.
pub fn tasks_from(entries: Vec<TodoEntry>) -> (r: Vec<TaskItem>)
    ensures
        tasks_view(r@) == tasks_of(todos_view(entries@)),
{
    let mut entries: Vec<TodoEntry> = entries;
    let ghost all = todos_view(entries@);
    let mut out: Vec<TaskItem> = Vec::new();
    let ghost mut k: int = 0;
    while entries.len() > 0
        invariant
            0 <= k <= all.len(),
            todos_view(entries@) == all.skip(k),
            tasks_view(out@) == tasks_of(all.take(k)),
        decreases entries@.len(),
    {
        proof {
            assert(todos_view(entries@)[0] == all.skip(k)[0]);
        }
        let ghost rest = entries@;
        let e: TodoEntry = entries.remove(0);
        proof {
            assert(todos_view(entries@) =~= todos_view(rest).skip(1));
            assert(all.take(k + 1).drop_last() =~= all.take(k));
            k = k + 1;
        }
        match task_from(e.status, e.active_form, e.content) {
            Some(t) => {
                out.push(t);
            },
            None => {},
        }
    }
    out
}

/// The members of a JSON object that make a task.
pub open spec fn todo_entry(item: Seq<char>) -> TodoView {
    TodoView {
        status: string_member(item, "status"@),
        active_form: string_member(item, "active_form"@),
        content: string_member(item, "content"@),
    }
}

/// The task list in the input of the task tool: the array in its member `todos`.
pub open spec fn parse_todos_spec(input: Seq<char>) -> Option<Seq<TaskView>> {
    match json_member(input, "todos"@) {
        None => None,
        Some(v) => match json_items(v) {
            None => None,
            Some(items) => Some(tasks_of(items.map_values(|item: Seq<char>| todo_entry(item)))),
        },
    }
}

/// What an optional task list holds.
pub open spec fn opt_tasks(t: Option<Vec<TaskItem>>) -> Option<Seq<TaskView>> {
    match t {
        Some(v) => Some(tasks_view(v@)),
        None => None,
    }
}

pub fn parse_todos(input: &Value) -> (r: Option<Vec<TaskItem>>)
    ensures
        opt_tasks(r) == parse_todos_spec(json_text(*input)),
{
    let todos: &Value = match member(input, "todos") {
        Some(v) => v,
        None => {
            return None;
        },
    };
    let list: &Vec<Value> = match items(todos) {
        Some(l) => l,
        None => {
            return None;
        },
    };
    let mut entries: Vec<TodoEntry> = Vec::new();
    let mut i: usize = 0;
    while i < list.len()
        invariant
            i <= list@.len(),
            entries@.len() == i,
            forall|j: int| 0 <= j < i ==> (#[trigger] entries@[j])@ == todo_entry(
                json_text(list@[j]),
            ),
        decreases list@.len() - i,
    {
        let item: &Value = &list[i];
        entries.push(
            TodoEntry {
                status: read_string(item, "status"),
                active_form: read_string(item, "active_form"),
                content: read_string(item, "content"),
            },
        );
        i += 1;
    }
    proof {
        assert(todos_view(entries@) =~= json_texts(list@).map_values(
            |item: Seq<char>| todo_entry(item),
        ));
    }
    Some(tasks_from(entries))
}

// ---- requests ------------------------------------------------------------------------

/// The answers to a permission request.
pub open spec fn permission_options_spec() -> Seq<OptionView> {
    seq![
        OptionView::PermitOnce,
        OptionView::PermitSession,
        OptionView::PermitProject,
        OptionView::Deny,
    ]
}

pub fn permission_options() -> (r: Vec<AskOption>)
    ensures
        options_view(r@) == permission_options_spec(),
{
    let r: Vec<AskOption> = vec![
        AskOption::PermitOnce,
        AskOption::PermitSession,
        AskOption::PermitProject,
        AskOption::Deny,
    ];
    r
}

/// The options of a question, each with the key that goes back to the model.
pub open spec fn answer_options(options: Seq<(String, String)>) -> Seq<OptionView> {
    options.map_values(
        |o: (String, String)| OptionView::Answer { key: o.0@, label: o.1@ },
    )
}

/// A question of the model in the queue. Without options it is answered by typing.
pub open spec fn question_view(q: PendingQuestion) -> AskView {
    AskView {
        prompt_id: q.id@,
        tool_name: q.header@,
        message: q.question@,
        answer_with: if q.options@.len() == 0 {
            AnswerWith::Type
        } else {
            AnswerWith::Choose
        },
        options: answer_options(q.options@),
        selected_option: 0,
    }
}

pub fn pending_from_question(q: PendingQuestion) -> (r: AskRequest)
    ensures
        r@ == question_view(q),
{
    let answer_with: AnswerWith = if q.options.len() == 0 {
        AnswerWith::Type
    } else {
        AnswerWith::Choose
    };
    let ghost all = answer_options(q.options@);
    let mut options: Vec<AskOption> = Vec::new();
    let mut i: usize = 0;
    proof {
        assert(options_view(options@) =~= all.take(0));
    }
    while i < q.options.len()
        invariant
            i <= q.options@.len(),
            all == answer_options(q.options@),
            options_view(options@) == all.take(i as int),
        decreases q.options@.len() - i,
    {
        let ghost before = options@;
        options.push(
            AskOption::Answer { key: q.options[i].0.clone(), label: q.options[i].1.clone() },
        );
        assert(options_view(options@) =~= options_view(before).push(all[i as int]));
        i += 1;
    }
    assert(all.take(i as int) =~= all);
    AskRequest {
        prompt_id: q.id,
        tool_name: q.header,
        message: q.question,
        answer_with,
        options,
        selected_option: 0,
    }
}

/// The requests of a queue that are not the one with that id.
pub open spec fn unresolved(pending: Seq<AskView>, id: Seq<char>) -> Seq<AskView>
    decreases pending.len(),
{
    if pending.len() == 0 {
        seq![]
    } else {
        let before = unresolved(pending.drop_last(), id);
        if pending.last().prompt_id == id {
            before
        } else {
            before.push(pending.last())
        }
    }
}

fn remove_requests(pending: &mut Vec<AskRequest>, id: &str)
    ensures
        asks_view(final(pending)@) == unresolved(asks_view(old(pending)@), id@),
{
    let ghost all = asks_view(pending@);
    let ghost exec_all = pending@;
    let ghost mut k: int = 0;
    let id: String = id.to_owned();
    let mut i: usize = 0;
    while i < pending.len()
        invariant
            0 <= k <= all.len(),
            all == asks_view(exec_all),
            i <= pending@.len(),
            asks_view(pending@.take(i as int)) == unresolved(all.take(k), id@),
            pending@.skip(i as int) == exec_all.skip(k),
        decreases all.len() - k,
    {
        proof {
            assert(pending@.skip(i as int)[0] == pending@[i as int]);
            assert(exec_all.skip(k).len() > 0);
            assert(all.take(k + 1).drop_last() =~= all.take(k));
            assert(all.take(k + 1).last() == all[k]);
        }
        if pending[i].prompt_id == id {
            pending.remove(i);
            assert(exec_all.skip(k + 1) =~= exec_all.skip(k).skip(1));
        } else {
            assert(exec_all.skip(k + 1) =~= exec_all.skip(k).skip(1));
            i += 1;
        }
        proof {
            k = k + 1;
        }
    }
    proof {
        assert(all.take(k) =~= all);
    }
}

// ---- the running turn ----------------------------------------------------------------

/// The frames of the spinner in the status line.
pub open spec fn status_spinner(wall_ms: u128) -> char {
    crate::merge::spinner_spec((wall_ms as int / 150) % 4)
}

pub fn spinner_char(wall_ms: u128) -> (c: char)
    ensures
        c == status_spinner(wall_ms),
{
    let k: u128 = (wall_ms / 150) % 4;
    if k == 0 {
        '|'
    } else if k == 1 {
        '/'
    } else if k == 2 {
        '-'
    } else {
        '\\'
    }
}

/// What a turn that ended early leaves in the transcript. The ends that need no explanation
/// leave nothing.
pub open spec fn early_stop_spec(reason: Seq<char>) -> Option<Seq<char>> {
    if reason == "cancelled"@ {
        Some("Turn cancelled."@)
    } else if reason == "max_turns"@ {
        Some("Turn stopped: hit the per-turn API call limit (max_turns)."@)
    } else if reason == "budget_exceeded"@ {
        Some("Turn stopped: token budget for this turn exhausted."@)
    } else if reason == "max_structured_output_retries"@ {
        Some("Turn stopped: the model kept returning unparseable structured output."@)
    } else if reason == "context_exceeded"@ {
        Some(
            "Turn stopped: the conversation is still over the context limit after compaction. Try /clear, or /compact with a narrower instruction."@,
        )
    } else if reason == "host_ceiling"@ {
        Some("Turn stopped: a host-configured turn limit was reached."@)
    } else if reason == "stopped_by_hook"@ {
        Some("Turn stopped by a configured hook."@)
    } else {
        None
    }
}

pub fn early_stop_note(stop_reason: &str) -> (r: Option<String>)
    ensures
        opt_text(r) == early_stop_spec(stop_reason@),
{
    if text_eq(stop_reason, "cancelled") {
        Some("Turn cancelled.".to_owned())
    } else if text_eq(stop_reason, "max_turns") {
        Some("Turn stopped: hit the per-turn API call limit (max_turns).".to_owned())
    } else if text_eq(stop_reason, "budget_exceeded") {
        Some("Turn stopped: token budget for this turn exhausted.".to_owned())
    } else if text_eq(stop_reason, "max_structured_output_retries") {
        Some(
            "Turn stopped: the model kept returning unparseable structured output.".to_owned(),
        )
    } else if text_eq(stop_reason, "context_exceeded") {
        Some(
            "Turn stopped: the conversation is still over the context limit after compaction. Try /clear, or /compact with a narrower instruction.".to_owned(),
        )
    } else if text_eq(stop_reason, "host_ceiling") {
        Some("Turn stopped: a host-configured turn limit was reached.".to_owned())
    } else if text_eq(stop_reason, "stopped_by_hook") {
        Some("Turn stopped by a configured hook.".to_owned())
    } else {
        None
    }
}

/// What a compaction leaves in the transcript.
pub open spec fn compact_note_spec(
    strategy: Seq<char>,
    before: u64,
    after: u64,
    rounds: Option<u64>,
    saved: Option<u64>,
) -> Seq<char> {
    let head = "Context compacted ("@ + strategy + "): "@ + decimal_spec(before as nat) + " → "@
        + decimal_spec(after as nat) + " messages"@;
    let head = match rounds {
        Some(n) => head + ", "@ + decimal_spec(n as nat) + " rounds dropped"@,
        None => head,
    };
    match saved {
        Some(n) => head + ", ~"@ + decimal_spec(n as nat) + " tokens saved"@,
        None => head,
    }
}

pub fn compact_note(
    strategy: &str,
    before: u64,
    after: u64,
    rounds: Option<u64>,
    saved: Option<u64>,
) -> (r: String)
    ensures
        r@ == compact_note_spec(strategy@, before, after, rounds, saved),
{
    let mut note: String = "Context compacted (".to_owned().concat(strategy).concat("): ").concat(
        decimal(before).as_str(),
    ).concat(" → ").concat(decimal(after).as_str()).concat(" messages");
    match rounds {
        Some(n) => {
            note = note.concat(", ").concat(decimal(n).as_str()).concat(" rounds dropped");
        },
        None => {},
    }
    match saved {
        Some(n) => {
            note = note.concat(", ~").concat(decimal(n).as_str()).concat(" tokens saved");
        },
        None => {},
    }
    note
}

/// The name of an event in a trace.
pub open spec fn event_name_spec(event: AgentEvent) -> Seq<char>
    decreases event,
{
    match event {
        AgentEvent::TextDelta { .. } => "TextDelta"@,
        AgentEvent::ThinkingDelta { .. } => "ThinkingDelta"@,
        AgentEvent::ToolUse { name, .. } => "ToolUse:"@ + name@,
        AgentEvent::ToolResult { name, .. } => "ToolResult:"@ + name@,
        AgentEvent::PermissionPrompt { .. } => "PermissionPrompt"@,
        AgentEvent::TurnComplete { .. } => "TurnComplete"@,
        AgentEvent::SystemInit => "SystemInit"@,
        AgentEvent::System { .. } => "System"@,
        AgentEvent::CompactAction { .. } => "CompactAction"@,
        AgentEvent::SessionChanged { .. } => "SessionChanged"@,
        AgentEvent::SessionPersisted => "SessionPersisted"@,
        AgentEvent::SkillsChanged => "SkillsChanged"@,
        AgentEvent::AgentSpawned { .. } => "AgentSpawned"@,
        AgentEvent::AgentCompleted { .. } => "AgentCompleted"@,
        AgentEvent::SubagentProgress { event, .. } => "SubagentProgress("@ + event_name_spec(
            *event,
        ) + ")"@,
        AgentEvent::TeamProgress => "TeamProgress"@,
        AgentEvent::Error { .. } => "Error"@,
    }
}

pub fn event_name(event: &AgentEvent) -> (r: String)
    ensures
        r@ == event_name_spec(*event),
    decreases event,
{
    match event {
        AgentEvent::TextDelta { .. } => "TextDelta".to_owned(),
        AgentEvent::ThinkingDelta { .. } => "ThinkingDelta".to_owned(),
        AgentEvent::ToolUse { name, .. } => "ToolUse:".to_owned().concat(name.as_str()),
        AgentEvent::ToolResult { name, .. } => "ToolResult:".to_owned().concat(name.as_str()),
        AgentEvent::PermissionPrompt { .. } => "PermissionPrompt".to_owned(),
        AgentEvent::TurnComplete { .. } => "TurnComplete".to_owned(),
        AgentEvent::SystemInit => "SystemInit".to_owned(),
        AgentEvent::System { .. } => "System".to_owned(),
        AgentEvent::CompactAction { .. } => "CompactAction".to_owned(),
        AgentEvent::SessionChanged { .. } => "SessionChanged".to_owned(),
        AgentEvent::SessionPersisted => "SessionPersisted".to_owned(),
        AgentEvent::SkillsChanged => "SkillsChanged".to_owned(),
        AgentEvent::AgentSpawned { .. } => "AgentSpawned".to_owned(),
        AgentEvent::AgentCompleted { .. } => "AgentCompleted".to_owned(),
        AgentEvent::SubagentProgress { event, .. } => {
            let inner: String = event_name(event);
            "SubagentProgress(".to_owned().concat(inner.as_str()).concat(")")
        },
        AgentEvent::TeamProgress => "TeamProgress".to_owned(),
        AgentEvent::Error { .. } => "Error".to_owned(),
    }
}

// ---- blocks --------------------------------------------------------------------------

/// Text that streams in joins the last block where that is of the same kind.
pub open spec fn text_added(blocks: Seq<BlockModel>, text: Seq<char>) -> Seq<BlockModel> {
    if blocks.len() > 0 && blocks.last() is AssistantText {
        blocks.update(
            blocks.len() - 1,
            BlockModel::AssistantText(blocks.last()->AssistantText_0 + text),
        )
    } else {
        blocks.push(BlockModel::AssistantText(text))
    }
}

pub open spec fn thinking_added(blocks: Seq<BlockModel>, text: Seq<char>) -> Seq<BlockModel> {
    if blocks.len() > 0 && blocks.last() is Thinking {
        blocks.update(blocks.len() - 1, BlockModel::Thinking(blocks.last()->Thinking_0 + text))
    } else {
        blocks.push(BlockModel::Thinking(text))
    }
}

pub open spec fn is_tool(b: BlockModel, tool_id: Seq<char>) -> bool {
    b matches BlockModel::Tool { id, .. } && id == tool_id
}

/// How many blocks there are up to and with the last call of that tool id; 0 without one.
pub open spec fn tool_end(blocks: Seq<BlockModel>, id: Seq<char>) -> nat
    decreases blocks.len(),
{
    if blocks.len() == 0 {
        0
    } else if is_tool(blocks.last(), id) {
        blocks.len()
    } else {
        tool_end(blocks.drop_last(), id)
    }
}

/// A tool call with its result.
pub open spec fn with_result(b: BlockModel, outcome: OutcomeModel) -> BlockModel {
    match b {
        BlockModel::Tool { id, name, input_summary, result, expanded } => BlockModel::Tool {
            id,
            name,
            input_summary,
            result: Some(outcome),
            expanded,
        },
        _ => b,
    }
}

pub open spec fn orphan_note(id: Seq<char>, content: Seq<char>) -> Seq<char> {
    "[orphan tool result "@ + id + "] "@ + content
}

/// A result goes to the last call of its id; a result that no call waits for is kept as a
/// note.
pub open spec fn result_added(
    blocks: Seq<BlockModel>,
    id: Seq<char>,
    outcome: OutcomeModel,
) -> Seq<BlockModel> {
    let k = tool_end(blocks, id) as int;
    if k > 0 {
        blocks.update(k - 1, with_result(blocks[k - 1], outcome))
    } else {
        blocks.push(BlockModel::Note(orphan_note(id, outcome.text)))
    }
}

pub fn orphan_text(id: &str, content: &str) -> (r: String)
    ensures
        r@ == orphan_note(id@, content@),
{
    "[orphan tool result ".to_owned().concat(id).concat("] ").concat(content)
}

proof fn lemma_push_block(v: Seq<Block>, b: Block)
    ensures
        blocks_view(v.push(b)) == blocks_view(v).push(b@),
{
}

fn add_text(blocks: &mut Vec<Block>, text: String)
    ensures
        blocks_view(final(blocks)@) == text_added(blocks_view(old(blocks)@), text@),
{
    let n: usize = blocks.len();
    if n > 0 {
        match &blocks[n - 1] {
            Block::AssistantText(t) => {
                let joined: String = t.clone().concat(text.as_str());
                blocks[n - 1] = Block::AssistantText(joined);
                return;
            },
            _ => {},
        }
    }
    blocks.push(Block::AssistantText(text));
}

fn add_thinking(blocks: &mut Vec<Block>, text: String)
    ensures
        blocks_view(final(blocks)@) == thinking_added(blocks_view(old(blocks)@), text@),
{
    let n: usize = blocks.len();
    if n > 0 {
        match &blocks[n - 1] {
            Block::Thinking(t) => {
                let joined: String = t.clone().concat(text.as_str());
                blocks[n - 1] = Block::Thinking(joined);
                return;
            },
            _ => {},
        }
    }
    blocks.push(Block::Thinking(text));
}

/// Whether a block is the call of a tool with that id.
pub fn is_tool_block(b: &Block, tool_id: &String) -> (r: bool)
    ensures
        r == is_tool(b@, tool_id@),
{
    match b {
        Block::Tool { id, .. } => *id == *tool_id,
        _ => false,
    }
}

/// Finds the last call of a tool id.
pub fn find_tool(blocks: &Vec<Block>, id: &String) -> (k: usize)
    ensures
        k == tool_end(blocks_view(blocks@), id@),
        k <= blocks@.len(),
        k > 0 ==> is_tool(blocks@[k - 1]@, id@),
{
    let ghost m = blocks_view(blocks@);
    let mut k: usize = blocks.len();
    proof {
        assert(m.take(k as int) =~= m);
    }
    while k > 0 && !is_tool_block(&blocks[k - 1], id)
        invariant
            k <= blocks@.len(),
            m == blocks_view(blocks@),
            tool_end(m, id@) == tool_end(m.take(k as int), id@),
        decreases k,
    {
        assert(m.take(k as int).drop_last() =~= m.take(k - 1));
        k -= 1;
    }
    k
}

/// Puts the result on the call at index `i`.
pub fn set_result(blocks: &mut Vec<Block>, i: usize, outcome: ToolOutcome)
    requires
        i < old(blocks)@.len(),
    ensures
        blocks_view(final(blocks)@) == blocks_view(old(blocks)@).update(
            i as int,
            with_result(
                old(blocks)@[i as int]@,
                OutcomeModel { text: outcome.text@, is_error: outcome.is_error },
            ),
        ),
{
    let b: Block = blocks.remove(i);
    let b: Block = match b {
        Block::Tool { id, name, input_summary, result: _, expanded } => Block::Tool {
            id,
            name,
            input_summary,
            result: Some(outcome),
            expanded,
        },
        other => other,
    };
    blocks.insert(i, b);
}

fn add_result(blocks: &mut Vec<Block>, id: &String, outcome: ToolOutcome)
    ensures
        blocks_view(final(blocks)@) == result_added(
            blocks_view(old(blocks)@),
            id@,
            OutcomeModel { text: outcome.text@, is_error: outcome.is_error },
        ),
{
    let k: usize = find_tool(blocks, id);
    if k > 0 {
        set_result(blocks, k - 1, outcome);
    } else {
        let note: Block = Block::Note(orphan_text(id.as_str(), outcome.text.as_str()));
        blocks.push(note);
    }
}

// ---- sub-agents ----------------------------------------------------------------------

/// How many rows stand before the one with that id.
pub open spec fn agent_index(agents: Seq<SubAgentModel>, id: Seq<char>) -> nat
    decreases agents.len(),
{
    if agents.len() == 0 || agents[0].id == id {
        0
    } else {
        1 + agent_index(agents.drop_first(), id)
    }
}

pub open spec fn new_agent(id: Seq<char>, started: u64) -> SubAgentModel {
    SubAgentModel { id, state: SubAgentState::Running, tokens: 0, started, outcome: None }
}

/// The rows with one of that id among them; the first word of a sub-agent opens its row.
pub open spec fn with_agent(
    agents: Seq<SubAgentModel>,
    id: Seq<char>,
    started: u64,
) -> Seq<SubAgentModel> {
    if agent_index(agents, id) < agents.len() {
        agents
    } else {
        agents.push(new_agent(id, started))
    }
}

/// The row of that id, as it is or as it is opened.
pub open spec fn agent_of(
    agents: Seq<SubAgentModel>,
    id: Seq<char>,
    started: u64,
) -> SubAgentModel {
    let i = agent_index(agents, id) as int;
    if i < agents.len() {
        agents[i]
    } else {
        new_agent(id, started)
    }
}

/// The rows with another row of that id.
pub open spec fn set_agent(
    agents: Seq<SubAgentModel>,
    id: Seq<char>,
    started: u64,
    row: SubAgentModel,
) -> Seq<SubAgentModel> {
    with_agent(agents, id, started).update(agent_index(agents, id) as int, row)
}

/// The index of the row with that id, which is opened where there is none.
pub fn sub_agent(agents: &mut Vec<SubAgentInfo>, id: &String, started: u64) -> (k: usize)
    ensures
        sub_agents_view(final(agents)@) == with_agent(
            sub_agents_view(old(agents)@),
            id@,
            started,
        ),
        k == agent_index(sub_agents_view(old(agents)@), id@),
        k < final(agents)@.len(),
        final(agents)@[k as int]@ == agent_of(sub_agents_view(old(agents)@), id@, started),
{
    let ghost m = sub_agents_view(agents@);
    let mut k: usize = 0;
    proof {
        assert(m.skip(0) =~= m);
    }
    while k < agents.len() && agents[k].id != *id
        invariant
            k <= agents@.len(),
            m == sub_agents_view(agents@),
            agent_index(m, id@) == k + agent_index(m.skip(k as int), id@),
        decreases agents@.len() - k,
    {
        assert(m.skip(k as int).drop_first() =~= m.skip(k + 1));
        k += 1;
    }
    if k == agents.len() {
        let row = SubAgentInfo {
            id: id.clone(),
            state: SubAgentState::Running,
            tokens: 0,
            started,
            outcome: None,
        };
        agents.push(row);
    }
    k
}

// ---- transitions ---------------------------------------------------------------------

impl ReducerModel {
    /// The status line of the running turn brought up to date.
    pub open spec fn refreshed(self, now: Now) -> ReducerModel {
        match self.active_turn_started {
            None => self,
            Some(started) => ReducerModel {
                status: Some(
                    StatusView::TurnRunning {
                        spinner: status_spinner(now.wall_ms),
                        activity: self.activity,
                        elapsed_secs: now.seconds_since(started),
                        token_in: self.usage.token_in,
                        token_out: self.usage.token_out,
                    },
                ),
                ..self
            },
        }
    }

    /// A note at the end of the transcript.
    pub open spec fn noted(self, text: Seq<char>) -> ReducerModel {
        ReducerModel { turns: with_note(self.turns, text), ..self }
    }

    /// Other blocks in the turn of that id.
    pub open spec fn in_turn(self, id: Seq<char>, blocks: Seq<BlockModel>) -> ReducerModel {
        ReducerModel { turns: with_blocks(self.turns, id, blocks), ..self }
    }

    pub open spec fn doing(self, activity: Seq<char>) -> ReducerModel {
        ReducerModel { activity, ..self }
    }

    /// A turn that the user began.
    pub open spec fn begun(self, turn_id: Seq<char>, text: Seq<char>, now: Now) -> ReducerModel {
        ReducerModel {
            turns: self.turns.push(
                TurnModel { id: turn_id, blocks: seq![BlockModel::UserPrompt(text)] },
            ),
            active_turn_started: Some(now.steady_ms),
            cancel_requested: false,
            activity: "Working…"@,
            ..self
        }.refreshed(now)
    }

    /// The user wants the running turn to stop. It stops when the engine says so.
    pub open spec fn cancelling(self, now: Now) -> ReducerModel {
        if self.active_turn_started is None {
            self
        } else {
            ReducerModel { cancel_requested: true, activity: "Cancelling…"@, ..self }.refreshed(now)
        }
    }

    pub open spec fn resolved(self, prompt_id: Seq<char>) -> ReducerModel {
        ReducerModel { pending: unresolved(self.pending, prompt_id), ..self }
    }

    pub open spec fn questioned(self, event: QuestionEvent) -> ReducerModel {
        match event {
            QuestionEvent::Ask(q) => ReducerModel {
                pending: self.pending.push(question_view(q)),
                ..self
            },
            QuestionEvent::Withdraw(id) => self.resolved(id@),
        }
    }

    pub open spec fn with_model(self, name: Seq<char>) -> ReducerModel {
        ReducerModel {
            model_name: name,
            ..self.noted("model switched to "@ + name + " (takes effect next turn)"@)
        }
    }

    /// Every call with that id folded or unfolded.
    pub open spec fn toggled(self, block_id: Seq<char>) -> ReducerModel {
        ReducerModel { turns: toggle_turns(self.turns, block_id), ..self }
    }

    /// The counters have room for what the event adds, and the input of a tool can be
    /// summarised.
    pub open spec fn fits(self, event: AgentEvent) -> bool {
        match event {
            AgentEvent::ToolUse { input, .. } => input_fits(input),
            AgentEvent::TurnComplete { input_tokens, output_tokens, .. } => {
                &&& self.usage.token_in + input_tokens <= u64::MAX
                &&& self.usage.token_out + output_tokens <= u64::MAX
                &&& self.usage.turn_count < u32::MAX
            },
            AgentEvent::SubagentProgress { agent_label, event } => match *event {
                AgentEvent::TurnComplete { input_tokens, output_tokens, .. } => {
                    agent_of(self.sub_agents, agent_label@, 0).tokens + input_tokens + output_tokens
                        <= u64::MAX
                },
                _ => true,
            },
            _ => true,
        }
    }
}

/// A call with that id folded where it was unfolded, and the other way round.
pub open spec fn toggle_block(b: BlockModel, block_id: Seq<char>) -> BlockModel {
    match b {
        BlockModel::Tool { id, name, input_summary, result, expanded } => if id == block_id {
            BlockModel::Tool { id, name, input_summary, result, expanded: !expanded }
        } else {
            b
        },
        _ => b,
    }
}

pub open spec fn toggle_blocks(blocks: Seq<BlockModel>, block_id: Seq<char>) -> Seq<BlockModel> {
    blocks.map_values(|b: BlockModel| toggle_block(b, block_id))
}

pub open spec fn toggle_turns(turns: Seq<TurnModel>, block_id: Seq<char>) -> Seq<TurnModel> {
    turns.map_values(
        |t: TurnModel| TurnModel { id: t.id, blocks: toggle_blocks(t.blocks, block_id) },
    )
}

/// A permission request in the queue.
pub open spec fn permission_request(
    prompt_id: Seq<char>,
    tool_name: Seq<char>,
    message: Seq<char>,
) -> AskView {
    AskView {
        prompt_id,
        tool_name,
        message,
        answer_with: AnswerWith::Choose,
        options: permission_options_spec(),
        selected_option: 0,
    }
}

/// The row of a sub-agent after an event of its own. A sub-agent that goes on after an end
/// is running again.
pub open spec fn agent_progressed(row: SubAgentModel, event: AgentEvent) -> SubAgentModel {
    match event {
        AgentEvent::TurnComplete { stop_reason, input_tokens, output_tokens } => SubAgentModel {
            tokens: (row.tokens + input_tokens + output_tokens) as u64,
            state: SubAgentState::Done,
            outcome: Some(stop_reason@),
            ..row
        },
        AgentEvent::Error { message, .. } => SubAgentModel {
            state: SubAgentState::Failed,
            outcome: Some(first_line_spec(message@)),
            ..row
        },
        _ => SubAgentModel { state: SubAgentState::Running, outcome: None, ..row },
    }
}

/// The row of a sub-agent after its end was announced. What the sub-agent said itself of
/// its end is kept.
pub open spec fn agent_completed(row: SubAgentModel, outcome: Seq<char>) -> SubAgentModel {
    SubAgentModel {
        state: if outcome == "failed"@ {
            SubAgentState::Failed
        } else {
            SubAgentState::Done
        },
        outcome: match row.outcome {
            Some(o) => Some(o),
            None => Some(outcome),
        },
        ..row
    }
}

/// The state after an event of the engine.
pub open spec fn event_applied(m: ReducerModel, event: AgentEvent, now: Now) -> ReducerModel {
    match event {
        AgentEvent::TextDelta { text, turn_id } => m.in_turn(
            turn_id@,
            text_added(blocks_of(m.turns, turn_id@), text@),
        ).doing("Streaming response…"@).refreshed(now),
        AgentEvent::ThinkingDelta { text, turn_id } => m.in_turn(
            turn_id@,
            thinking_added(blocks_of(m.turns, turn_id@), text@),
        ).doing("Thinking…"@).refreshed(now),
        AgentEvent::ToolUse { id, name, input, turn_id } => ReducerModel {
            tasks: if name@ == TODO_TOOL@ {
                match parse_todos_spec(json_text(input)) {
                    Some(t) => t,
                    None => m.tasks,
                }
            } else {
                m.tasks
            },
            ..m
        }.in_turn(
            turn_id@,
            blocks_of(m.turns, turn_id@).push(
                BlockModel::Tool {
                    id: id@,
                    name: name@,
                    input_summary: summary_spec(input),
                    result: None,
                    expanded: false,
                },
            ),
        ).doing("Running "@ + name@ + "…"@).refreshed(now),
        AgentEvent::ToolResult { id, content, is_error, turn_id, .. } => m.in_turn(
            turn_id@,
            result_added(
                blocks_of(m.turns, turn_id@),
                id@,
                OutcomeModel { text: content@, is_error: is_error == Some(true) },
            ),
        ),
        AgentEvent::PermissionPrompt { prompt_id, tool_name, message } => ReducerModel {
            pending: m.pending.push(permission_request(prompt_id@, tool_name@, message@)),
            ..m
        },
        AgentEvent::TurnComplete { stop_reason, input_tokens, output_tokens } => {
            let done = ReducerModel {
                usage: SessionUsageState {
                    token_in: (m.usage.token_in + input_tokens) as u64,
                    token_out: (m.usage.token_out + output_tokens) as u64,
                    turn_count: (m.usage.turn_count + 1) as u32,
                },
                active_turn_started: None,
                cancel_requested: false,
                status: None,
                ..m
            };
            match early_stop_spec(stop_reason@) {
                Some(note) => done.noted(note),
                None => done,
            }
        },
        AgentEvent::System { message } => m.noted(message@),
        AgentEvent::CompactAction {
            strategy,
            messages_before,
            messages_after,
            dropped_rounds,
            estimated_tokens_saved,
        } => m.noted(
            compact_note_spec(
                strategy@,
                messages_before,
                messages_after,
                dropped_rounds,
                estimated_tokens_saved,
            ),
        ),
        AgentEvent::SessionChanged { session_id } => m.noted("session changed: "@ + session_id@),
        AgentEvent::AgentSpawned { agent_id } => ReducerModel {
            sub_agents: with_agent(m.sub_agents, agent_id@, now.steady_ms),
            ..m
        },
        AgentEvent::AgentCompleted { agent_id, outcome } => ReducerModel {
            sub_agents: set_agent(
                m.sub_agents,
                agent_id@,
                now.steady_ms,
                agent_completed(agent_of(m.sub_agents, agent_id@, now.steady_ms), outcome@),
            ),
            ..m
        },
        AgentEvent::SubagentProgress { agent_label, event } => ReducerModel {
            sub_agents: set_agent(
                m.sub_agents,
                agent_label@,
                now.steady_ms,
                agent_progressed(agent_of(m.sub_agents, agent_label@, now.steady_ms), *event),
            ),
            ..m
        },
        AgentEvent::Error { message, turn_id } => ReducerModel {
            active_turn_started: None,
            status: None,
            ..m.in_turn(
                turn_id@,
                blocks_of(m.turns, turn_id@).push(BlockModel::Error(message@)),
            )
        },
        AgentEvent::SystemInit => m,
        AgentEvent::SessionPersisted => m,
        AgentEvent::SkillsChanged => m,
        AgentEvent::TeamProgress => m,
    }
}

impl Reducer {
    /// A session with the turns of an earlier one, or with none.
    pub fn new(model_name: String, cwd: String, turns: Vec<Turn>) -> (r: Reducer)
        ensures
            r@ == (ReducerModel {
                turns: turns_view(turns@),
                pending: seq![],
                sub_agents: seq![],
                tasks: seq![],
                usage: SessionUsageState { token_in: 0, token_out: 0, turn_count: 0 },
                status: None,
                active_turn_started: None,
                cancel_requested: false,
                activity: seq![],
                model_name: model_name@,
                cwd: cwd@,
            }),
    {
        let r = Reducer {
            turns,
            pending: Vec::new(),
            sub_agents: Vec::new(),
            tasks: Vec::new(),
            usage: SessionUsageState::default(),
            status: None,
            active_turn_started: None,
            cancel_requested: false,
            activity: String::new(),
            model_name,
            cwd,
        };
        r
    }

    fn refresh_running_status(&mut self, now: Now)
        ensures
            final(self)@ == old(self)@.refreshed(now),
    {
        match self.active_turn_started {
            None => {},
            Some(started) => {
                self.status = Some(
                    StatusContent::TurnRunning {
                        spinner: spinner_char(now.wall_ms),
                        activity: self.activity.clone(),
                        elapsed_secs: now.elapsed(started),
                        token_in: self.usage.token_in,
                        token_out: self.usage.token_out,
                    },
                );
            },
        }
    }

    /// Begins a turn with what the user submitted.
    pub fn begin_turn(&mut self, turn_id: String, text: String, now: Now)
        ensures
            final(self)@ == old(self)@.begun(turn_id@, text@, now),
    {
        let mut blocks: Vec<Block> = Vec::new();
        blocks.push(Block::UserPrompt(text));
        assert(blocks_view(blocks@) =~= seq![BlockModel::UserPrompt(text@)]);
        let turn = Turn { id: turn_id, blocks };
        self.turns.push(turn);
        self.active_turn_started = Some(now.steady_ms);
        self.cancel_requested = false;
        self.activity = "Working…".to_owned();
        self.refresh_running_status(now);
    }

    /// Acknowledges that the running turn is to stop.
    pub fn request_cancel(&mut self, now: Now)
        ensures
            final(self)@ == old(self)@.cancelling(now),
    {
        if self.active_turn_started.is_none() {
            return;
        }
        self.cancel_requested = true;
        self.activity = "Cancelling…".to_owned();
        self.refresh_running_status(now);
    }

    /// Lets the status line go on while no event comes in.
    pub fn tick(&mut self, now: Now)
        ensures
            final(self)@ == old(self)@.refreshed(now),
    {
        self.refresh_running_status(now);
    }

    /// Takes a request off the queue.
    pub fn resolve_prompt(&mut self, prompt_id: &str)
        ensures
            final(self)@ == old(self)@.resolved(prompt_id@),
    {
        remove_requests(&mut self.pending, prompt_id);
    }

    /// Takes a question of the model in, or off the queue.
    pub fn apply_question(&mut self, event: QuestionEvent)
        ensures
            final(self)@ == old(self)@.questioned(event),
    {
        match event {
            QuestionEvent::Ask(q) => {
                let request: AskRequest = pending_from_question(q);
                self.pending.push(request);
            },
            QuestionEvent::Withdraw(id) => self.resolve_prompt(id.as_str()),
        }
    }

    /// Takes another model, and says so in the transcript.
    pub fn set_model(&mut self, name: String)
        ensures
            final(self)@ == old(self)@.with_model(name@),
    {
        let text: String = "model switched to ".to_owned().concat(name.as_str()).concat(
            " (takes effect next turn)",
        );
        push_note(&mut self.turns, text);
        self.model_name = name;
    }

    /// Puts a note into the transcript.
    pub fn note(&mut self, text: String)
        ensures
            final(self)@ == old(self)@.noted(text@),
    {
        push_note(&mut self.turns, text);
    }

    /// Folds or unfolds a tool call.
    pub fn toggle_expand(&mut self, block_id: &str)
        ensures
            final(self)@ == old(self)@.toggled(block_id@),
    {
        let id: String = block_id.to_owned();
        let ghost all = self.turns@;
        let ghost goal = toggle_turns(turns_view(all), block_id@);
        let n: usize = self.turns.len();
        let mut i: usize = 0;
        while i < n
            invariant
                i <= n == all.len(),
                self.turns@.len() == n,
                id@ == block_id@,
                goal == toggle_turns(turns_view(all), block_id@),
                forall|j: int| 0 <= j < i ==> (#[trigger] self.turns@[j])@ == goal[j],
                forall|j: int| i <= j < n ==> #[trigger] self.turns@[j] == all[j],
                *self == (Reducer { turns: self.turns, ..*old(self) }),
            decreases n - i,
        {
            let ghost blocks = self.turns@[i as int].blocks@;
            toggle_in(&mut self.turns[i].blocks, &id);
            i += 1;
        }
    }

    /// Applies an event of the engine. The result says whether the list of commands has to
    /// be fetched again.
    pub fn apply_event(&mut self, event: AgentEvent, now: Now) -> (refresh_commands: bool)
        requires
            old(self)@.fits(event),
        ensures
            final(self)@ == event_applied(old(self)@, event, now),
            refresh_commands == (event is SkillsChanged),
            turns_are_lines(old(self)@.turns) && names_a_line(event) ==> turns_are_lines(
                final(self)@.turns,
            ),
    {
        let ghost m = self@;
        proof {
            if turns_are_lines(m.turns) && !(event is ToolUse) {
                law_events_keep_lines(m, event, now);
            }
        }
        match event {
            AgentEvent::TextDelta { text, turn_id } => {
                let k: usize = find_or_create_turn(&mut self.turns, &turn_id);
                let ghost mid = self.turns@;
                add_text(&mut self.turns[k].blocks, text);
                proof {
                    lemma_set_blocks(
                        m.turns,
                        mid,
                        self.turns@,
                        turn_id@,
                        text_added(blocks_of(m.turns, turn_id@), text@),
                    );
                }
                self.activity = "Streaming response…".to_owned();
                self.refresh_running_status(now);
            },
            AgentEvent::ThinkingDelta { text, turn_id } => {
                let k: usize = find_or_create_turn(&mut self.turns, &turn_id);
                add_thinking(&mut self.turns[k].blocks, text);
                self.activity = "Thinking…".to_owned();
                self.refresh_running_status(now);
            },
            AgentEvent::ToolUse { id, name, input, turn_id } => {
                let input_summary: String = summarize_input(&input);
                proof {
                    if turns_are_lines(m.turns) && names_a_line(event) {
                        law_events_keep_lines(m, event, now);
                    }
                }
                self.activity = "Running ".to_owned().concat(name.as_str()).concat("…");
                if text_eq(name.as_str(), TODO_TOOL) {
                    match parse_todos(&input) {
                        Some(tasks) => {
                            self.tasks = tasks;
                        },
                        None => {},
                    }
                }
                let k: usize = find_or_create_turn(&mut self.turns, &turn_id);
                let ghost mid = self.turns@;
                let block = Block::Tool { id, name, input_summary, result: None, expanded: false };
                proof {
                    lemma_push_block(mid[k as int].blocks@, block);
                }
                self.turns[k].blocks.push(block);
                self.refresh_running_status(now);
            },
            AgentEvent::ToolResult { id, name: _, content, is_error, turn_id } => {
                let k: usize = find_or_create_turn(&mut self.turns, &turn_id);
                let failed: bool = match is_error {
                    Some(b) => b,
                    None => false,
                };
                let outcome = ToolOutcome { text: content, is_error: failed };
                add_result(&mut self.turns[k].blocks, &id, outcome);
            },
            AgentEvent::PermissionPrompt { prompt_id, tool_name, message } => {
                let request = AskRequest {
                    prompt_id,
                    tool_name,
                    message,
                    answer_with: AnswerWith::Choose,
                    options: permission_options(),
                    selected_option: 0,
                };
                self.pending.push(request);
            },
            AgentEvent::TurnComplete { stop_reason, input_tokens, output_tokens } => {
                self.usage.token_in = self.usage.token_in + input_tokens as u64;
                self.usage.token_out = self.usage.token_out + output_tokens as u64;
                self.usage.turn_count = self.usage.turn_count + 1;
                self.active_turn_started = None;
                self.cancel_requested = false;
                self.status = None;
                match early_stop_note(stop_reason.as_str()) {
                    Some(note) => push_note(&mut self.turns, note),
                    None => {},
                }
            },
            AgentEvent::SystemInit => {},
            AgentEvent::System { message } => push_note(&mut self.turns, message),
            AgentEvent::CompactAction {
                strategy,
                messages_before,
                messages_after,
                dropped_rounds,
                estimated_tokens_saved,
            } => {
                let note: String = compact_note(
                    strategy.as_str(),
                    messages_before,
                    messages_after,
                    dropped_rounds,
                    estimated_tokens_saved,
                );
                push_note(&mut self.turns, note);
            },
            AgentEvent::SessionChanged { session_id } => push_note(
                &mut self.turns,
                "session changed: ".to_owned().concat(session_id.as_str()),
            ),
            AgentEvent::SessionPersisted => {},
            AgentEvent::SkillsChanged => {
                return true;
            },
            AgentEvent::AgentSpawned { agent_id } => {
                let _ = sub_agent(&mut self.sub_agents, &agent_id, now.steady_ms);
            },
            AgentEvent::AgentCompleted { agent_id, outcome } => {
                let k: usize = sub_agent(&mut self.sub_agents, &agent_id, now.steady_ms);
                self.sub_agents[k].state = if text_eq(outcome.as_str(), "failed") {
                    SubAgentState::Failed
                } else {
                    SubAgentState::Done
                };
                if self.sub_agents[k].outcome.is_none() {
                    self.sub_agents[k].outcome = Some(outcome);
                }
            },
            AgentEvent::SubagentProgress { agent_label, event: inner } => {
                let k: usize = sub_agent(&mut self.sub_agents, &agent_label, now.steady_ms);
                let inner: AgentEvent = *inner;
                match inner {
                    AgentEvent::TurnComplete { stop_reason, input_tokens, output_tokens } => {
                        self.sub_agents[k].tokens = self.sub_agents[k].tokens + input_tokens as u64
                            + output_tokens as u64;
                        self.sub_agents[k].state = SubAgentState::Done;
                        self.sub_agents[k].outcome = Some(stop_reason);
                    },
                    AgentEvent::Error { message, turn_id: _ } => {
                        self.sub_agents[k].state = SubAgentState::Failed;
                        self.sub_agents[k].outcome = Some(first_line(message.as_str()));
                    },
                    _ => {
                        self.sub_agents[k].state = SubAgentState::Running;
                        self.sub_agents[k].outcome = None;
                    },
                }
            },
            AgentEvent::TeamProgress => {},
            AgentEvent::Error { message, turn_id } => {
                let k: usize = find_or_create_turn(&mut self.turns, &turn_id);
                let ghost mid = self.turns@;
                let block = Block::Error(message);
                proof {
                    lemma_push_block(mid[k as int].blocks@, block);
                }
                self.turns[k].blocks.push(block);
                self.active_turn_started = None;
                self.status = None;
            },
        }
        assert(self@ =~= event_applied(m, event, now));
        false
    }

    /// Whether an event can be applied: the counters have room for it, and the cut of a
    /// summary does not fall inside a character.
    pub fn can_apply(&self, event: &AgentEvent) -> (r: bool)
        ensures
            r == self@.fits(*event),
    {
        match event {
            AgentEvent::ToolUse { input, .. } => can_summarize(input),
            AgentEvent::TurnComplete { input_tokens, output_tokens, .. } => {
                self.usage.token_in <= u64::MAX - *input_tokens as u64 && self.usage.token_out
                    <= u64::MAX - *output_tokens as u64 && self.usage.turn_count < u32::MAX
            },
            AgentEvent::SubagentProgress { agent_label, event } => {
                let inner: &AgentEvent = event;
                match inner {
                    AgentEvent::TurnComplete { input_tokens, output_tokens, .. } => {
                        let sum: u64 = *input_tokens as u64 + *output_tokens as u64;
                        self.agent_tokens(agent_label) <= u64::MAX - sum
                    },
                    _ => true,
                }
            },
            _ => true,
        }
    }

    fn agent_tokens(&self, id: &String) -> (r: u64)
        ensures
            r == agent_of(self@.sub_agents, id@, 0).tokens,
    {
        let ghost m = self@.sub_agents;
        let mut k: usize = 0;
        proof {
            assert(m.skip(0) =~= m);
        }
        while k < self.sub_agents.len()
            invariant
                k <= self.sub_agents@.len(),
                m == sub_agents_view(self.sub_agents@),
                agent_index(m, id@) == k + agent_index(m.skip(k as int), id@),
            decreases self.sub_agents@.len() - k,
        {
            proof {
                assert(m.skip(k as int).drop_first() =~= m.skip(k + 1));
            }
            if self.sub_agents[k].id == *id {
                return self.sub_agents[k].tokens;
            }
            k += 1;
        }
        0
    }

    /// Applies an event where that can be done; otherwise the state stays as it is and the
    /// result is `None`.
    pub fn try_apply_event(&mut self, event: AgentEvent, now: Now) -> (r: Option<bool>)
        ensures
            r is Some == old(self)@.fits(event),
            r matches Some(refresh_commands) ==> {
                &&& final(self)@ == event_applied(old(self)@, event, now)
                &&& refresh_commands == (event is SkillsChanged)
                &&& turns_are_lines(old(self)@.turns) && names_a_line(event) ==> turns_are_lines(
                    final(self)@.turns,
                )
            },
            r is None ==> final(self)@ == old(self)@,
    {
        if self.can_apply(&event) {
            Some(self.apply_event(event, now))
        } else {
            None
        }
    }
}

/// Folds or unfolds the calls of an id among blocks.
fn toggle_in(blocks: &mut Vec<Block>, id: &String)
    ensures
        blocks_view(final(blocks)@) == toggle_blocks(blocks_view(old(blocks)@), id@),
{
    let ghost all = blocks@;
    let ghost goal = toggle_blocks(blocks_view(all), id@);
    let n: usize = blocks.len();
    let mut i: usize = 0;
    while i < n
        invariant
            i <= n == all.len(),
            blocks@.len() == n,
            goal == toggle_blocks(blocks_view(all), id@),
            forall|j: int| 0 <= j < i ==> (#[trigger] blocks@[j])@ == goal[j],
            forall|j: int| i <= j < n ==> #[trigger] blocks@[j] == all[j],
        decreases n - i,
    {
        let b: Block = blocks.remove(i);
        let b: Block = match b {
            Block::Tool { id: block_id, name, input_summary, result, expanded } => {
                let flip: bool = block_id == *id;
                Block::Tool {
                    id: block_id,
                    name,
                    input_summary,
                    result,
                    expanded: if flip {
                        !expanded
                    } else {
                        expanded
                    },
                }
            },
            other => other,
        };
        blocks.insert(i, b);
        i += 1;
    }
}

} // verus!
