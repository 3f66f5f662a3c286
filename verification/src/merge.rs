//! The frame that is drawn: the engine's snapshot with the local state laid over it.

use crate::frame_state::{
    opt_text, AskRequest, AskState, FrameState, HeaderSource, LineKind, TranscriptEntry,
};
use crate::local_ui::{block_line, find_block, page, LocalUi, UiModel};
use crate::picker::{
    clamped, command_picker_spec, compute_command_picker, picker_view, session_picker_spec,
    session_picker_state,
};
use crate::text::texts;
use vstd::prelude::*;
use vstd::string::*;

verus! {

pub open spec fn is_prompt(e: TranscriptEntry) -> bool {
    e.kind == LineKind::UserPrompt
}

/// How many lines there are up to and with the last line of a prompt.
pub open spec fn prompt_end(entries: Seq<TranscriptEntry>) -> nat
    decreases entries.len(),
{
    if entries.len() == 0 || is_prompt(entries.last()) {
        entries.len()
    } else {
        prompt_end(entries.drop_last())
    }
}

/// The first line of the prompt that line `i` belongs to.
pub open spec fn prompt_start(entries: Seq<TranscriptEntry>, i: int) -> int
    decreases i,
{
    if i > 0 && entries[i].continues_previous && is_prompt(entries[i - 1]) {
        prompt_start(entries, i - 1)
    } else {
        i
    }
}

/// The first line of the last prompt is on the screen, or there is no prompt.
pub open spec fn prompt_is_visible_spec(entries: Seq<TranscriptEntry>, ui: UiModel) -> bool {
    let end = prompt_end(entries) as int;
    let first = prompt_start(entries, end - 1);
    let page = page(ui.viewport_lines);
    end == 0 || match ui.scroll_offset {
        Some(offset) => offset <= first < offset + page,
        None => first + page >= entries.len(),
    }
}

pub fn prompt_is_visible(frame: &FrameState, local: &LocalUi) -> (r: bool)
    ensures
        r == prompt_is_visible_spec(frame.transcript.body.entries@, local@),
{
    let entries = &frame.transcript.body.entries;
    let n: usize = entries.len();
    let mut end: usize = n;
    proof {
        assert(entries@.take(n as int) =~= entries@);
    }
    while end > 0 && entries[end - 1].kind != LineKind::UserPrompt
        invariant
            end <= n == entries@.len(),
            prompt_end(entries@) == prompt_end(entries@.take(end as int)),
        decreases end,
    {
        assert(entries@.take(end as int).drop_last() =~= entries@.take(end - 1));
        end -= 1;
    }
    if end == 0 {
        return true;
    }
    let mut first: usize = end - 1;
    while first > 0 && entries[first].continues_previous && entries[first - 1].kind
        == LineKind::UserPrompt
        invariant
            first < end <= n == entries@.len(),
            prompt_start(entries@, end - 1) == prompt_start(entries@, first as int),
        decreases first,
    {
        first -= 1;
    }
    let page: usize = local.page();
    match local.scroll_offset {
        Some(offset) => first >= offset && first - offset < page,
        None => page >= n - first,
    }
}

/// What was submitted, as the transcript tells it: the lines of one prompt are joined.
pub open spec fn prompts_spec(entries: Seq<TranscriptEntry>) -> Seq<Seq<char>>
    decreases entries.len(),
{
    if entries.len() == 0 {
        seq![]
    } else {
        let before = prompts_spec(entries.drop_last());
        let e = entries.last();
        if !is_prompt(e) {
            before
        } else if e.continues_previous && before.len() > 0 {
            before.drop_last().push(before.last().push('\n') + e.text@)
        } else {
            before.push(e.text@)
        }
    }
}

pub fn user_prompts(frame: &FrameState) -> (r: Vec<String>)
    ensures
        texts(r@) == prompts_spec(frame.transcript.body.entries@),
{
    let entries = &frame.transcript.body.entries;
    let mut out: Vec<String> = Vec::new();
    let mut i: usize = 0;
    while i < entries.len()
        invariant
            i <= entries@.len(),
            texts(out@) == prompts_spec(entries@.take(i as int)),
        decreases entries@.len() - i,
    {
        let e: &TranscriptEntry = &entries[i];
        proof {
            assert(entries@.take(i + 1).drop_last() =~= entries@.take(i as int));
        }
        if e.kind == LineKind::UserPrompt {
            if e.continues_previous && out.len() > 0 {
                let mut last: String = out.pop().unwrap();
                last.push('\n');
                last.append(e.text.as_str());
                out.push(last);
            } else {
                out.push(e.text.clone());
            }
        }
        i += 1;
    }
    assert(entries@.take(i as int) =~= entries@);
    out
}

/// A request with another option selected.
pub open spec fn with_selected(req: AskRequest, selected_option: usize) -> AskRequest {
    AskRequest { selected_option, ..req }
}

/// The dialog as it is drawn: the local cursors laid over the queue, inside its bounds.
pub open spec fn merged_ask(ask: AskState, ui: UiModel, r: AskState) -> bool {
    let active = clamped(ui.ask_active as int, ask.pending@.len() as int);
    &&& r.active_idx == active
    &&& r.view_mode == ask.view_mode
    &&& r.pending@ == if active < ask.pending@.len() {
        let req = ask.pending@[active];
        let selected: usize = if ui.ask_selected < req.options@.len() {
            ui.ask_selected
        } else {
            0
        };
        ask.pending@.update(active, with_selected(req, selected))
    } else {
        ask.pending@
    }
}

/// `r` is the frame with the local state laid over it.
pub open spec fn is_merged(frame: FrameState, local: LocalUi, r: FrameState) -> bool {
    let ui = local@;
    let body = frame.transcript.body;
    let visible = prompt_is_visible_spec(body.entries@, ui);
    &&& r.transcript.body.entries == body.entries
    &&& r.transcript.body.scroll.total_lines == body.scroll.total_lines
    &&& match ui.scroll_offset {
        Some(offset) => {
            &&& !r.transcript.body.auto_follow
            &&& r.transcript.body.scroll.offset == clamped(offset as int, body.entries@.len() as int)
        },
        None => {
            &&& r.transcript.body.auto_follow == body.auto_follow
            &&& r.transcript.body.scroll.offset == body.scroll.offset
        },
    }
    &&& opt_text(r.transcript.body.selected_block) == match ui.selected_block {
        Some(id) => if block_line(body.entries@, id) < body.entries@.len() {
            Some(id)
        } else {
            None
        },
        None => None,
    }
    &&& r.transcript.header.text == if visible {
        None
    } else {
        frame.transcript.header.text
    }
    &&& r.transcript.header.source == if visible {
        HeaderSource::Nothing
    } else {
        frame.transcript.header.source
    }
    &&& r.composer.content.editor.draft@ == ui.draft
    &&& r.composer.content.editor.cursor == local.cursor
    &&& r.composer.content.editor.mode == frame.composer.content.editor.mode
    &&& r.composer.content.editor.paste_placeholder
        == frame.composer.content.editor.paste_placeholder
    &&& match frame.composer.content.ask {
        Some(ask) => {
            &&& r.composer.content.ask is Some
            &&& merged_ask(ask, ui, r.composer.content.ask->0)
            &&& r.composer.content.editor.locked
                == r.composer.content.ask->0.locks_composer_spec()
            &&& r.composer.content.picker == frame.composer.content.picker
        },
        None => {
            &&& r.composer.content.ask is None
            &&& r.composer.content.editor.locked == frame.composer.content.editor.locked
            &&& picker_view(r.composer.content.picker) == match session_picker_spec(ui) {
                Some(p) => Some(p),
                None => command_picker_spec(ui),
            }
        },
    }
    &&& r.composer.app_info == frame.composer.app_info
    &&& r.composer.top_rule == frame.composer.top_rule
    &&& r.composer.bottom_rule == frame.composer.bottom_rule
    &&& r.operation_status == frame.operation_status
    &&& r.sub_agent_bar == frame.sub_agent_bar
    &&& r.footer_hints == frame.footer_hints
    &&& r.btw == frame.btw
}

/// Lays the local state over a snapshot of the engine.
pub fn merge(frame: FrameState, local: &LocalUi) -> (r: FrameState)
    ensures
        is_merged(frame, *local, r),
{
    let mut frame = frame;
    let total: usize = frame.transcript.body.entries.len();
    frame.composer.content.editor.draft = local.draft.clone();
    frame.composer.content.editor.cursor = local.cursor;
    match local.scroll_offset {
        Some(offset) => {
            frame.transcript.body.auto_follow = false;
            frame.transcript.body.scroll.offset = if offset < total {
                offset
            } else if total > 0 {
                total - 1
            } else {
                0
            };
        },
        None => {},
    }
    if prompt_is_visible(&frame, local) {
        frame.transcript.header.text = None;
        frame.transcript.header.source = HeaderSource::Nothing;
    }
    let selected: Option<String> = match &local.selected_block {
        Some(id) => if find_block(&frame.transcript.body.entries, id) < total {
            Some(id.clone())
        } else {
            None
        },
        None => None,
    };
    frame.transcript.body.selected_block = selected;
    match frame.composer.content.ask {
        Some(ask) => {
            let mut ask: AskState = ask;
            let n: usize = ask.pending.len();
            ask.active_idx = if local.ask_active < n {
                local.ask_active
            } else if n > 0 {
                n - 1
            } else {
                0
            };
            let ghost pending = ask.pending@;
            let ghost active = ask.active_idx as int;
            if ask.active_idx < n {
                let active_idx: usize = ask.active_idx;
                let mut req: AskRequest = ask.pending.remove(active_idx);
                req.selected_option = if local.ask_selected < req.options.len() {
                    local.ask_selected
                } else {
                    0
                };
                ask.pending.insert(active_idx, req);
                assert(ask.pending@ =~= pending.update(active, req));
            }
            frame.composer.content.editor.locked = ask.locks_composer();
            frame.composer.content.ask = Some(ask);
        },
        None => {
            frame.composer.content.ask = None;
            frame.composer.content.picker = match session_picker_state(local) {
                Some(p) => Some(p),
                None => compute_command_picker(local),
            };
        },
    }
    frame
}

// ---- the spinner ---------------------------------------------------------------------

/// The frames of the spinner in the sub-agent bar.
pub open spec fn spinner_spec(k: int) -> char {
    if k == 0 {
        '|'
    } else if k == 1 {
        '/'
    } else if k == 2 {
        '-'
    } else {
        '\\'
    }
}

/// The spinner at a time in milliseconds: four frames of 120 ms.
pub fn spinner_at(now_ms: u128) -> (c: char)
    ensures
        c == spinner_spec((now_ms as int / 120) % 4),
{
    let k: u128 = (now_ms / 120) % 4;
    if k == 0 {
        '|'
    } else if k == 1 {
        '/'
    } else if k == 2 {
        '-'
    } else {
        '\\'
    }
}

} // verus!
