//! Everything that one frame of the terminal shows, as plain data.
//!
//! The regions of the screen, from top to bottom: the transcript, the operation status, the
//! composer, the footer and the sub-agent bar; the side question covers all of them but the
//! transcript while it is open.

use vstd::prelude::*;
use vstd::string::*;

verus! {

/// The text that an optional string holds.
pub open spec fn opt_text(o: Option<String>) -> Option<Seq<char>> {
    match o {
        Some(s) => Some(s@),
        None => None,
    }
}

/// Copies an optional string.
pub fn clone_opt(o: &Option<String>) -> (r: Option<String>)
    ensures
        r == *o,
{
    match o {
        Some(s) => Some(s.clone()),
        None => None,
    }
}

// ---- transcript ----------------------------------------------------------------------

/// The transcript: what was said and done so far.
#[derive(Debug, Clone)]
pub struct TranscriptState {
    pub header: HeaderState,
    pub body: TranscriptBodyState,
}

/// The line pinned above the transcript.
#[derive(Debug, Clone)]
pub struct HeaderState {
    pub text: Option<String>,
    pub source: HeaderSource,
}

#[derive(Debug, Clone, Copy, PartialEq, Eq, Structural)]
pub enum HeaderSource {
    /// Nothing is pinned.
    Nothing,
    UserPrompt,
    SubAgent,
}

#[derive(Debug, Clone)]
pub struct TranscriptBodyState {
    pub entries: Vec<TranscriptEntry>,
    pub scroll: ScrollState,
    /// The view sticks to the last lines; otherwise it starts at `scroll.offset`.
    pub auto_follow: bool,
    /// The foldable block that the fold key acts on.
    pub selected_block: Option<String>,
}

#[derive(Debug, Clone, Copy, PartialEq, Eq, Structural)]
pub struct ScrollState {
    pub offset: usize,
    pub total_lines: usize,
}

/// One line of the transcript on screen.
#[derive(Debug)]
pub struct TranscriptEntry {
    pub kind: LineKind,
    pub text: String,
    /// The foldable block that the line belongs to.
    pub block_id: Option<String>,
    /// The line belongs to the same piece of text as the line before it. Two prompts that
    /// stand next to each other are told apart by this, and not by their being neighbours.
    pub continues_previous: bool,
}

/// What a [`TranscriptEntry`] holds.
pub struct EntryView {
    pub kind: LineKind,
    pub text: Seq<char>,
    pub block_id: Option<Seq<char>>,
    pub continues_previous: bool,
}

impl View for TranscriptEntry {
    type V = EntryView;

    open spec fn view(&self) -> EntryView {
        EntryView {
            kind: self.kind,
            text: self.text@,
            block_id: opt_text(self.block_id),
            continues_previous: self.continues_previous,
        }
    }
}

impl Clone for TranscriptEntry {
    fn clone(&self) -> (r: Self)
        ensures
            r == *self,
    {
        TranscriptEntry {
            kind: self.kind,
            text: self.text.clone(),
            block_id: clone_opt(&self.block_id),
            continues_previous: self.continues_previous,
        }
    }
}

/// What the lines of a transcript hold.
pub open spec fn entries_view(s: Seq<TranscriptEntry>) -> Seq<EntryView> {
    s.map_values(|e: TranscriptEntry| e@)
}

#[derive(Debug, Clone, Copy, PartialEq, Eq, Structural)]
pub enum LineKind {
    /// The blank line between two pieces of text. It is an entry like any other, so that
    /// skipping entries and skipping lines stay the same thing.
    Spacer,
    Banner,
    UserPrompt,
    AssistantText,
    ToolHeading,
    ToolResultOk,
    ToolResultErr,
    Note,
    Warning,
    Error,
    Thinking,
    DiffOld,
    DiffNew,
    DiffContext,
}

// ---- operation status ----------------------------------------------------------------

#[derive(Debug, Clone)]
pub struct OperationStatusState {
    pub status_line: StatusLineState,
    pub task_list: TaskListState,
}

#[derive(Debug, Clone)]
pub struct StatusLineState {
    pub content: Option<StatusContent>,
}

#[derive(Debug)]
pub enum StatusContent {
    TurnRunning {
        spinner: char,
        activity: String,
        elapsed_secs: u64,
        token_in: u64,
        token_out: u64,
    },
    Compacting {
        stage: CompactStage,
        stage_index: u8,
        stage_total: u8,
        tokens_before: u64,
        tokens_after: Option<u64>,
        estimated_saved: Option<u64>,
    },
}

/// What a [`StatusContent`] holds.
pub enum StatusView {
    TurnRunning {
        spinner: char,
        activity: Seq<char>,
        elapsed_secs: u64,
        token_in: u64,
        token_out: u64,
    },
    Compacting {
        stage: CompactStage,
        stage_index: u8,
        stage_total: u8,
        tokens_before: u64,
        tokens_after: Option<u64>,
        estimated_saved: Option<u64>,
    },
}

impl View for StatusContent {
    type V = StatusView;

    open spec fn view(&self) -> StatusView {
        match *self {
            StatusContent::TurnRunning { spinner, activity, elapsed_secs, token_in, token_out } =>
                StatusView::TurnRunning {
                    spinner,
                    activity: activity@,
                    elapsed_secs,
                    token_in,
                    token_out,
                },
            StatusContent::Compacting {
                stage,
                stage_index,
                stage_total,
                tokens_before,
                tokens_after,
                estimated_saved,
            } => StatusView::Compacting {
                stage,
                stage_index,
                stage_total,
                tokens_before,
                tokens_after,
                estimated_saved,
            },
        }
    }
}

impl Clone for StatusContent {
    fn clone(&self) -> (r: Self)
        ensures
            r == *self,
    {
        match self {
            StatusContent::TurnRunning { spinner, activity, elapsed_secs, token_in, token_out } =>
                StatusContent::TurnRunning {
                    spinner: *spinner,
                    activity: activity.clone(),
                    elapsed_secs: *elapsed_secs,
                    token_in: *token_in,
                    token_out: *token_out,
                },
            StatusContent::Compacting {
                stage,
                stage_index,
                stage_total,
                tokens_before,
                tokens_after,
                estimated_saved,
            } => StatusContent::Compacting {
                stage: *stage,
                stage_index: *stage_index,
                stage_total: *stage_total,
                tokens_before: *tokens_before,
                tokens_after: *tokens_after,
                estimated_saved: *estimated_saved,
            },
        }
    }
}

#[derive(Debug, Clone, Copy, PartialEq, Eq, Structural)]
pub enum CompactStage {
    MicroCompact,
    Collapse,
    LlmSummarize,
}

impl CompactStage {
    pub open spec fn label_spec(self) -> Seq<char> {
        match self {
            CompactStage::MicroCompact => "micro-compact"@,
            CompactStage::Collapse => "collapse"@,
            CompactStage::LlmSummarize => "summarize"@,
        }
    }

    pub fn label(self) -> (r: &'static str)
        ensures
            r@ == self.label_spec(),
    {
        match self {
            CompactStage::MicroCompact => "micro-compact",
            CompactStage::Collapse => "collapse",
            CompactStage::LlmSummarize => "summarize",
        }
    }
}

#[derive(Debug, Clone)]
pub struct TaskListState {
    pub items: Vec<TaskItem>,
}

#[derive(Debug)]
pub struct TaskItem {
    pub status: ItemStatus,
    pub label: String,
}

/// What a [`TaskItem`] holds.
pub struct TaskView {
    pub status: ItemStatus,
    pub label: Seq<char>,
}

impl View for TaskItem {
    type V = TaskView;

    open spec fn view(&self) -> TaskView {
        TaskView { status: self.status, label: self.label@ }
    }
}

impl Clone for TaskItem {
    fn clone(&self) -> (r: Self)
        ensures
            r == *self,
    {
        TaskItem { status: self.status, label: self.label.clone() }
    }
}

/// What the items of a task list hold.
pub open spec fn tasks_view(s: Seq<TaskItem>) -> Seq<TaskView> {
    s.map_values(|t: TaskItem| t@)
}

#[derive(Debug, Clone, Copy, PartialEq, Eq, Structural)]
pub enum ItemStatus {
    Pending,
    Running,
    Done,
    Failed,
}

impl ItemStatus {
    pub open spec fn icon_spec(self) -> Seq<char> {
        match self {
            ItemStatus::Running => "●"@,
            ItemStatus::Pending => "○"@,
            ItemStatus::Done => "✓"@,
            ItemStatus::Failed => "✗"@,
        }
    }

    pub fn icon(self) -> (r: &'static str)
        ensures
            r@ == self.icon_spec(),
    {
        match self {
            ItemStatus::Running => "●",
            ItemStatus::Pending => "○",
            ItemStatus::Done => "✓",
            ItemStatus::Failed => "✗",
        }
    }
}

// ---- composer ------------------------------------------------------------------------

#[derive(Debug, Clone)]
pub struct ComposerState {
    pub app_info: AppInfoLineState,
    pub top_rule: TopRuleState,
    pub content: ContentState,
    pub bottom_rule: BottomRuleState,
}

#[derive(Debug, Clone)]
pub struct AppInfoLineState {
    pub text: Option<String>,
}

#[derive(Debug, Clone)]
pub struct TopRuleState {
    pub color: SeparatorColor,
    pub right_label: Option<LabelSource>,
}

#[derive(Debug, Clone, Copy, PartialEq, Eq, Structural)]
pub enum SeparatorColor {
    DarkGray,
    Cyan,
    Yellow,
    Red,
}

#[derive(Debug, PartialEq, Eq)]
pub enum LabelSource {
    SubAgent { name: String },
    Skill { name: String },
    Task { name: String },
    Tool { name: String },
}

impl LabelSource {
    /// The label in square brackets, with the kind of its source in front of the name. A
    /// tool needs no kind.
    pub open spec fn text_spec(self) -> Seq<char> {
        match self {
            LabelSource::SubAgent { name } => "[agent: "@ + name@ + "]"@,
            LabelSource::Skill { name } => "[skill: "@ + name@ + "]"@,
            LabelSource::Task { name } => "[task: "@ + name@ + "]"@,
            LabelSource::Tool { name } => "["@ + name@ + "]"@,
        }
    }

    pub fn text(&self) -> (r: String)
        ensures
            r@ == self.text_spec(),
    {
        match self {
            LabelSource::SubAgent { name } => "[agent: ".to_owned().concat(name.as_str()).concat(
                "]",
            ),
            LabelSource::Skill { name } => "[skill: ".to_owned().concat(name.as_str()).concat("]"),
            LabelSource::Task { name } => "[task: ".to_owned().concat(name.as_str()).concat("]"),
            LabelSource::Tool { name } => "[".to_owned().concat(name.as_str()).concat("]"),
        }
    }
}

impl Clone for LabelSource {
    fn clone(&self) -> (r: Self)
        ensures
            r == *self,
    {
        match self {
            LabelSource::SubAgent { name } => LabelSource::SubAgent { name: name.clone() },
            LabelSource::Skill { name } => LabelSource::Skill { name: name.clone() },
            LabelSource::Task { name } => LabelSource::Task { name: name.clone() },
            LabelSource::Tool { name } => LabelSource::Tool { name: name.clone() },
        }
    }
}

#[derive(Debug, Clone, Copy)]
pub struct BottomRuleState {
    pub color: SeparatorColor,
}

/// The editor, and what may float above it.
#[derive(Debug, Clone)]
pub struct ContentState {
    pub editor: EditorState,
    pub picker: Option<PickerState>,
    pub ask: Option<AskState>,
}

#[derive(Debug, Clone)]
pub struct EditorState {
    pub mode: InputMode,
    pub draft: String,
    /// A byte offset in `draft`.
    pub cursor: usize,
    pub paste_placeholder: Option<PasteInfo>,
    /// A dialog has the keyboard; the draft cannot be edited.
    pub locked: bool,
}

#[derive(Debug, Clone, Copy, PartialEq, Eq, Structural)]
pub enum InputMode {
    Normal,
    VimNormal,
    BashEscape,
}

#[derive(Debug, Clone, Copy, PartialEq, Eq, Structural)]
pub struct PasteInfo {
    pub lines: usize,
    pub bytes: usize,
}

/// A list to pick one entry of, above the editor.
#[derive(Debug, Clone)]
pub struct PickerState {
    pub kind: PickerKind,
    pub query: String,
    pub candidates: Vec<PickerCandidate>,
    pub selected: usize,
}

#[derive(Debug, Clone, Copy, PartialEq, Eq, Structural)]
pub enum PickerKind {
    SlashCommand,
    FileMention,
    Session,
}

#[derive(Debug)]
pub struct PickerCandidate {
    pub name: String,
    pub description: String,
}

/// What a [`PickerCandidate`] holds.
pub struct CandidateView {
    pub name: Seq<char>,
    pub description: Seq<char>,
}

impl View for PickerCandidate {
    type V = CandidateView;

    open spec fn view(&self) -> CandidateView {
        CandidateView { name: self.name@, description: self.description@ }
    }
}

impl Clone for PickerCandidate {
    fn clone(&self) -> (r: Self)
        ensures
            r == *self,
    {
        PickerCandidate { name: self.name.clone(), description: self.description.clone() }
    }
}

/// What the candidates of a list hold.
pub open spec fn candidates_view(s: Seq<PickerCandidate>) -> Seq<CandidateView> {
    s.map_values(|c: PickerCandidate| c@)
}

/// The requests that wait for an answer.
#[derive(Debug, Clone)]
pub struct AskState {
    pub pending: Vec<AskRequest>,
    pub active_idx: usize,
    pub view_mode: AskViewMode,
}

impl AskState {
    /// The request that is being looked at, if the index points at one.
    pub open spec fn active_spec(self) -> Option<AskRequest> {
        if self.active_idx < self.pending@.len() {
            Some(self.pending@[self.active_idx as int])
        } else {
            None
        }
    }

    pub fn active(&self) -> (r: Option<&AskRequest>)
        ensures
            r is Some == self.active_spec() is Some,
            r matches Some(a) ==> Some(*a) == self.active_spec(),
    {
        if self.active_idx < self.pending.len() {
            Some(&self.pending[self.active_idx])
        } else {
            None
        }
    }

    /// The one criterion of whether the keyboard belongs to the dialog: the request being
    /// looked at is answered by choosing.
    pub open spec fn locks_composer_spec(self) -> bool {
        self.active_spec() matches Some(a) && a.answer_with == AnswerWith::Choose
    }

    pub fn locks_composer(&self) -> (r: bool)
        ensures
            r == self.locks_composer_spec(),
    {
        match self.active() {
            Some(a) => a.answer_with == AnswerWith::Choose,
            None => false,
        }
    }
}

#[derive(Debug)]
pub struct AskRequest {
    pub prompt_id: String,
    pub tool_name: String,
    pub message: String,
    pub answer_with: AnswerWith,
    pub options: Vec<AskOption>,
    pub selected_option: usize,
}

/// What an [`AskRequest`] holds.
pub struct AskView {
    pub prompt_id: Seq<char>,
    pub tool_name: Seq<char>,
    pub message: Seq<char>,
    pub answer_with: AnswerWith,
    pub options: Seq<OptionView>,
    pub selected_option: usize,
}

impl View for AskRequest {
    type V = AskView;

    open spec fn view(&self) -> AskView {
        AskView {
            prompt_id: self.prompt_id@,
            tool_name: self.tool_name@,
            message: self.message@,
            answer_with: self.answer_with,
            options: options_view(self.options@),
            selected_option: self.selected_option,
        }
    }
}

impl Clone for AskRequest {
    fn clone(&self) -> (r: Self)
        ensures
            r@ == self@,
    {
        let options: Vec<AskOption> = clone_options(&self.options);
        AskRequest {
            prompt_id: self.prompt_id.clone(),
            tool_name: self.tool_name.clone(),
            message: self.message.clone(),
            answer_with: self.answer_with,
            options,
            selected_option: self.selected_option,
        }
    }
}

/// What the requests of a queue hold.
pub open spec fn asks_view(s: Seq<AskRequest>) -> Seq<AskView> {
    s.map_values(|a: AskRequest| a@)
}

/// How a request is answered: by choosing an option, or by typing a line.
#[derive(Debug, Clone, Copy, PartialEq, Eq, Structural)]
pub enum AnswerWith {
    Choose,
    Type,
}

#[derive(Debug, PartialEq, Eq)]
pub enum AskOption {
    PermitOnce,
    PermitSession,
    PermitProject,
    Deny,
    /// An option of a question that the model asked; `key` goes back to the model.
    Answer { key: String, label: String },
}

/// What an [`AskOption`] holds.
pub enum OptionView {
    PermitOnce,
    PermitSession,
    PermitProject,
    Deny,
    Answer { key: Seq<char>, label: Seq<char> },
}

impl View for AskOption {
    type V = OptionView;

    open spec fn view(&self) -> OptionView {
        match *self {
            AskOption::PermitOnce => OptionView::PermitOnce,
            AskOption::PermitSession => OptionView::PermitSession,
            AskOption::PermitProject => OptionView::PermitProject,
            AskOption::Deny => OptionView::Deny,
            AskOption::Answer { key, label } => OptionView::Answer { key: key@, label: label@ },
        }
    }
}

/// What the options of a request hold.
pub open spec fn options_view(s: Seq<AskOption>) -> Seq<OptionView> {
    s.map_values(|o: AskOption| o@)
}

impl Clone for AskOption {
    fn clone(&self) -> (r: Self)
        ensures
            r == *self,
    {
        match self {
            AskOption::PermitOnce => AskOption::PermitOnce,
            AskOption::PermitSession => AskOption::PermitSession,
            AskOption::PermitProject => AskOption::PermitProject,
            AskOption::Deny => AskOption::Deny,
            AskOption::Answer { key, label } => AskOption::Answer {
                key: key.clone(),
                label: label.clone(),
            },
        }
    }
}

/// Copies a list of options.
pub fn clone_options(v: &Vec<AskOption>) -> (r: Vec<AskOption>)
    ensures
        r@ == v@,
{
    let mut r: Vec<AskOption> = Vec::new();
    let mut i: usize = 0;
    while i < v.len()
        invariant
            i <= v@.len(),
            r@ == v@.take(i as int),
        decreases v@.len() - i,
    {
        r.push(v[i].clone());
        i += 1;
    }
    r
}

impl AskOption {
    pub open spec fn label_spec(self) -> Seq<char> {
        match self {
            AskOption::PermitOnce => "Yes"@,
            AskOption::PermitSession => "Yes, allow for this session"@,
            AskOption::PermitProject => "Yes, allow for this project"@,
            AskOption::Deny => "No"@,
            AskOption::Answer { key, label } => label@,
        }
    }

    pub fn label(&self) -> (r: &str)
        ensures
            r@ == self.label_spec(),
    {
        match self {
            AskOption::PermitOnce => "Yes",
            AskOption::PermitSession => "Yes, allow for this session",
            AskOption::PermitProject => "Yes, allow for this project",
            AskOption::Deny => "No",
            AskOption::Answer { key, label } => label.as_str(),
        }
    }

    /// Whether two options are the same.
    pub fn same(&self, other: &AskOption) -> (r: bool)
        ensures
            r == (self@ == other@),
    {
        match (self, other) {
            (AskOption::PermitOnce, AskOption::PermitOnce) => true,
            (AskOption::PermitSession, AskOption::PermitSession) => true,
            (AskOption::PermitProject, AskOption::PermitProject) => true,
            (AskOption::Deny, AskOption::Deny) => true,
            (
                AskOption::Answer { key: k1, label: l1 },
                AskOption::Answer { key: k2, label: l2 },
            ) => *k1 == *k2 && *l1 == *l2,
            _ => false,
        }
    }
}

#[derive(Debug, Clone, Copy, PartialEq, Eq, Structural)]
pub enum AskViewMode {
    TabView,
    ListView,
}

// ---- sub-agent bar -------------------------------------------------------------------

#[derive(Debug, Clone)]
pub struct SubAgentBarState {
    pub agents: Vec<SubAgentStatus>,
}

#[derive(Debug)]
pub struct SubAgentStatus {
    pub name: String,
    pub state: SubAgentState,
    pub token_usage: u64,
    pub elapsed_or_status: String,
}

/// What a [`SubAgentStatus`] holds.
pub struct SubAgentView {
    pub name: Seq<char>,
    pub state: SubAgentState,
    pub token_usage: u64,
    pub elapsed_or_status: Seq<char>,
}

impl View for SubAgentStatus {
    type V = SubAgentView;

    open spec fn view(&self) -> SubAgentView {
        SubAgentView {
            name: self.name@,
            state: self.state,
            token_usage: self.token_usage,
            elapsed_or_status: self.elapsed_or_status@,
        }
    }
}

impl Clone for SubAgentStatus {
    fn clone(&self) -> (r: Self)
        ensures
            r == *self,
    {
        SubAgentStatus {
            name: self.name.clone(),
            state: self.state,
            token_usage: self.token_usage,
            elapsed_or_status: self.elapsed_or_status.clone(),
        }
    }
}

/// What the rows of the sub-agent bar hold.
pub open spec fn agents_view(s: Seq<SubAgentStatus>) -> Seq<SubAgentView> {
    s.map_values(|a: SubAgentStatus| a@)
}

#[derive(Debug, Clone, Copy, PartialEq, Eq, Structural)]
pub enum SubAgentState {
    Running,
    Done,
    Failed,
}

// ---- footer --------------------------------------------------------------------------

#[derive(Debug, Clone)]
pub struct FooterHintsState {
    pub model: String,
    pub cwd: String,
    pub mode: AppMode,
    pub right_hint: String,
    pub usage: SessionUsageState,
}

#[derive(Debug, Clone, Copy, PartialEq, Eq, Structural)]
pub struct SessionUsageState {
    pub token_in: u64,
    pub token_out: u64,
    pub turn_count: u32,
}

impl Default for SessionUsageState {
    fn default() -> (r: Self)
        ensures
            r == (SessionUsageState { token_in: 0, token_out: 0, turn_count: 0 }),
    {
        SessionUsageState { token_in: 0, token_out: 0, turn_count: 0 }
    }
}

#[derive(Debug, Clone, Copy, PartialEq, Eq, Structural)]
pub enum AppMode {
    Normal,
    Plan,
    Auto,
}

impl AppMode {
    pub open spec fn label_spec(self) -> Seq<char> {
        match self {
            AppMode::Normal => "Normal"@,
            AppMode::Plan => "Plan"@,
            AppMode::Auto => "Auto"@,
        }
    }

    pub fn label(self) -> (r: &'static str)
        ensures
            r@ == self.label_spec(),
    {
        match self {
            AppMode::Normal => "Normal",
            AppMode::Plan => "Plan",
            AppMode::Auto => "Auto",
        }
    }
}

// ---- side question -------------------------------------------------------------------

/// The side question that is open, with the earlier ones of this run.
#[derive(Debug, Clone)]
pub struct BtwState {
    pub question: String,
    pub answer: String,
    /// The answer is still coming in.
    pub streaming: bool,
    /// How many lines of the answer are scrolled past.
    pub scroll: usize,
    /// The earlier questions, latest first, five at most.
    pub earlier: Vec<String>,
    /// How many more there are beyond those.
    pub older: usize,
    /// Which exchange is being looked at: 0 is the current one, larger is earlier.
    pub viewing: usize,
}

// ---- the whole frame -----------------------------------------------------------------

#[derive(Debug, Clone)]
pub struct FrameState {
    pub transcript: TranscriptState,
    pub operation_status: OperationStatusState,
    pub composer: ComposerState,
    pub sub_agent_bar: SubAgentBarState,
    pub footer_hints: FooterHintsState,
    pub btw: Option<BtwState>,
}

} // verus!
