//! What holds of the local state across several operations.

use crate::dispatch::{active_choice_spec, ask_reaction, key_reaction, responded, submit_reaction};
use crate::frame_state::{opt_text, FrameState, TranscriptEntry};
use crate::keybindings::resolver::{KeyEvent, OutcomeView};
use crate::local_ui::{
    after_last, blocks_spec, leading, lemma_after_last_bound, lemma_after_last_white_bound,
    lemma_leading_bound, lemma_trim_end_prefix, LocalUi, UiModel,
};
use crate::merge::is_merged;
use crate::picker::{command_picker_spec, step_spec};
use crate::text::{lemma_span, trim_end_spec};
use vstd::prelude::*;

verus! {

/// Backspace takes back a character that was just typed.
pub proof fn law_backspace_undoes_insert(m: UiModel, c: char)
    requires
        m.wf(),
    ensures
        m.insert(c).delete_backward() == m.noted(),
{
    let k = m.cursor;
    let d = m.draft.insert(k, c);
    assert(d.take(k) + d.skip(k + 1) =~= m.draft);
    assert(m.insert(c).delete_backward() =~= m.noted());
}

/// Delete and a move to the left take back a character too.
pub proof fn law_delete_undoes_insert(m: UiModel, c: char)
    requires
        m.wf(),
    ensures
        m.insert(c).move_char(-1).delete_forward() == m.noted(),
{
    let k = m.cursor;
    let d = m.draft.insert(k, c);
    assert(d.take(k) + d.skip(k + 1) =~= m.draft);
    assert(m.insert(c).move_char(-1).delete_forward() =~= m.noted());
}

/// A move to the right and one to the left lead back.
pub proof fn law_left_undoes_right(m: UiModel)
    requires
        m.wf(),
        m.cursor < m.draft.len(),
    ensures
        m.move_char(1).move_char(-1) == m,
{
}

/// The places that the moves lead to lie inside the draft, and on the right side of the
/// cursor.
pub proof fn law_moves_stay_inside(m: UiModel)
    requires
        m.wf(),
    ensures
        0 <= m.word_left() <= m.cursor <= m.word_right() <= m.draft.len(),
        0 <= m.line_start() <= m.cursor <= m.line_end() <= m.draft.len(),
{
    let head = m.draft.take(m.cursor);
    lemma_trim_end_prefix(head);
    lemma_after_last_white_bound(trim_end_spec(head));
    lemma_leading_bound(m.draft.skip(m.cursor), true);
    let a = m.cursor + leading(m.draft.skip(m.cursor), true);
    lemma_leading_bound(m.draft.skip(a), false);
    lemma_after_last_bound(head, '\n');
    lemma_span(m.draft.skip(m.cursor), '\n');
}

/// The line of the cursor holds no line feed.
pub proof fn law_line_has_no_line_feed(m: UiModel, i: int)
    requires
        m.wf(),
        m.line_start() <= i < m.line_end(),
    ensures
        m.draft[i] != '\n',
{
    law_moves_stay_inside(m);
    let tail = m.draft.skip(m.cursor);
    lemma_span(tail, '\n');
    if i >= m.cursor {
        assert(tail[i - m.cursor] == m.draft[i]);
    } else {
        lemma_no_feed_behind(m.draft.take(m.cursor), i);
    }
}

proof fn lemma_no_feed_behind(s: Seq<char>, i: int)
    requires
        after_last(s, '\n') <= i < s.len(),
    ensures
        s[i] != '\n',
    decreases s.len(),
{
    if s.len() > 0 && s.last() != '\n' && i < s.len() - 1 {
        lemma_no_feed_behind(s.drop_last(), i);
    }
}

/// What is killed is the rest of the line: the text before the cursor stays, and so does
/// what stands behind the line's end.
pub proof fn law_kill_keeps_the_rest(m: UiModel)
    requires
        m.wf(),
        m.line_end() > m.cursor,
    ensures
        m.kill_to_line_end().draft == m.draft.take(m.cursor) + m.draft.skip(m.line_end()),
        m.kill_to_line_end().cursor == m.cursor,
        m.kill_to_line_end().line_end() == m.cursor,
{
    law_moves_stay_inside(m);
    let tail = m.draft.skip(m.cursor);
    lemma_span(tail, '\n');
    let k = m.kill_to_line_end();
    let rest = k.draft.skip(k.cursor);
    assert(rest =~= m.draft.skip(m.line_end()));
    lemma_span(rest, '\n');
}

// ---- history -------------------------------------------------------------------------

/// `n` steps back in the history.
pub open spec fn back(m: UiModel, n: nat) -> UiModel
    decreases n,
{
    if n == 0 {
        m
    } else {
        back(m, (n - 1) as nat).recall(-1)
    }
}

/// `n` steps forth in the history.
pub open spec fn forth(m: UiModel, n: nat) -> UiModel
    decreases n,
{
    if n == 0 {
        m
    } else {
        forth(m.recall(1), (n - 1) as nat)
    }
}

proof fn lemma_back(m: UiModel, n: nat)
    requires
        m.wf(),
        m.history.len() > 0,
        m.history_pos is None,
        0 < n <= m.history.len(),
        m.history.len() <= usize::MAX,
    ensures
        back(m, n) == (UiModel { history_stash: m.draft, ..m }).showing(m.history.len() - n),
    decreases n,
{
    if n > 1 {
        lemma_back(m, (n - 1) as nat);
    } else {
        assert(back(m, 0) == m);
    }
}

proof fn lemma_forth(m: UiModel, i: int)
    requires
        0 <= i < m.history.len(),
        m.history.len() <= usize::MAX,
    ensures
        forth(m.showing(i), (m.history.len() - i) as nat) == (UiModel {
            draft: m.history_stash,
            cursor: m.history_stash.len() as int,
            history_stash: seq![],
            history_pos: None,
            ..m.noted()
        }),
    decreases m.history.len() - i,
{
    if i + 1 < m.history.len() {
        assert(m.showing(i).recall(1) == m.showing(i + 1));
        lemma_forth(m, i + 1);
    } else {
        let n = (m.history.len() - i) as nat;
        assert(n == 1);
        assert(forth(m.showing(i), 1) == forth(m.showing(i).recall(1), 0));
    }
}

/// A trip into the history and back leaves the draft as it was: as many steps forth as
/// there were back.
pub proof fn law_history_trip_restores_the_draft(m: UiModel, n: nat)
    requires
        m.wf(),
        m.history_pos is None,
        0 < n <= m.history.len(),
        m.history.len() <= usize::MAX,
    ensures
        forth(back(m, n), n).draft == m.draft,
        forth(back(m, n), n).history == m.history,
        forth(back(m, n), n).history_pos is None,
{
    lemma_back(m, n);
    lemma_forth(UiModel { history_stash: m.draft, ..m }, m.history.len() - n);
}

/// The oldest entry is where going back ends.
pub proof fn law_back_stops_at_the_oldest(m: UiModel)
    requires
        m.history.len() > 0,
        m.history_pos == Some(0usize),
    ensures
        m.recall(-1) == m.showing(0),
{
}

/// A text that was submitted twice in a row is remembered once.
pub proof fn law_repeats_are_remembered_once(m: UiModel, text: Seq<char>)
    ensures
        m.remember(text).remember(text) == m.remember(text),
        m.remember(text).history.last() == text,
{
}

// ---- scrolling and selecting ---------------------------------------------------------

/// A page down undoes a page up from the end: the view follows again.
pub proof fn law_page_down_undoes_page_up(m: UiModel, total: int)
    requires
        m.scroll_offset is None,
        0 <= total <= usize::MAX,
    ensures
        m.scroll_up(total).scroll_down(total) == m,
{
}

/// Scrolling down always makes way towards the end.
pub proof fn law_page_down_advances(m: UiModel, total: int)
    requires
        m.scroll_offset is Some,
        0 <= total <= usize::MAX,
    ensures
        m.scroll_down(total).scroll_offset matches Some(n) ==> n > m.scroll_offset->0 && n < total,
{
}

/// A block is listed once, however its lines are spread over the transcript.
pub proof fn law_blocks_are_listed_once(entries: Seq<TranscriptEntry>)
    ensures
        blocks_spec(entries).no_duplicates(),
    decreases entries.len(),
{
    if entries.len() > 0 {
        law_blocks_are_listed_once(entries.drop_last());
    }
}

/// Every block of the transcript is listed, and nothing else is.
pub proof fn law_blocks_are_all_listed(entries: Seq<TranscriptEntry>, id: Seq<char>)
    ensures
        blocks_spec(entries).contains(id) <==> (exists|i: int|
            0 <= i < entries.len() && opt_text((#[trigger] entries[i]).block_id) == Some(id)),
    decreases entries.len(),
{
    if entries.len() > 0 {
        let init = entries.drop_last();
        let before = blocks_spec(init);
        let after = blocks_spec(entries);
        let last = opt_text(entries.last().block_id);
        law_blocks_are_all_listed(init, id);
        if before.contains(id) {
            let k = choose|k: int| 0 <= k < before.len() && before[k] == id;
            assert(after[k] == id);
            let i = choose|i: int|
                0 <= i < init.len() && opt_text((#[trigger] init[i]).block_id) == Some(id);
            assert(entries[i] == init[i]);
        } else if last == Some(id) {
            assert(after[after.len() - 1] == id);
            assert(entries[entries.len() - 1] == entries.last());
        } else {
            if after.contains(id) {
                let k = choose|k: int| 0 <= k < after.len() && after[k] == id;
                assert(before[k] == id);
            }
            if exists|i: int|
                0 <= i < entries.len() && opt_text((#[trigger] entries[i]).block_id) == Some(id) {
                let i = choose|i: int|
                    0 <= i < entries.len() && opt_text((#[trigger] entries[i]).block_id) == Some(
                        id,
                    );
                assert(init[i] == entries[i]);
            }
        }
    }
}

/// A move of the selection ends on a block of the transcript, or on none.
pub proof fn law_selection_is_a_block(m: UiModel, entries: Seq<TranscriptEntry>, delta: int)
    requires
        blocks_spec(entries).len() > 0,
        m.selected_block matches Some(id) ==> blocks_spec(entries).contains(id),
    ensures
        m.select_block(entries, delta).selected_block matches Some(id) ==> blocks_spec(
            entries,
        ).contains(id),
{
    let blocks = blocks_spec(entries);
    assert(blocks.contains(blocks.last()));
    assert(blocks.contains(blocks[0]));
    match m.selected_index(blocks) {
        Some(i) => {
        },
        None => {},
    }
}

/// A step lands inside the ring, and a step the other way leads back.
pub proof fn law_step_is_a_ring(current: int, delta: int, len: int)
    requires
        0 <= current < len,
    ensures
        0 <= step_spec(current, delta, len) < len,
        step_spec(step_spec(current, delta, len), -delta, len) == current,
{
    let a = current + delta;
    vstd::arithmetic::div_mod::lemma_mod_bound(a, len);
    vstd::arithmetic::div_mod::lemma_add_mod_noop(a, -delta, len);
    vstd::arithmetic::div_mod::lemma_add_mod_noop(a % len, -delta, len);
    vstd::arithmetic::div_mod::lemma_mod_twice(a, len);
    vstd::arithmetic::div_mod::lemma_small_mod(current as nat, len as nat);
}

// ---- the dialog ----------------------------------------------------------------------

/// Bringing the state in line with a frame a second time changes nothing.
pub proof fn law_reconcile_is_idempotent(m: UiModel, frame: FrameState)
    ensures
        m.reconcile(frame).reconcile(frame) == m.reconcile(frame),
{
}

/// The option that is highlighted is the one that Enter answers.
pub proof fn law_enter_answers_what_is_highlighted(
    local: LocalUi,
    m: UiModel,
    frame: FrameState,
    r: FrameState,
)
    requires
        local@ == m.reconcile(frame),
        is_merged(frame, local, r),
        active_choice_spec(r) is Some,
        active_choice_spec(r)->0.options@.len() > 0,
    ensures
        ({
            let req = active_choice_spec(r)->0;
            let pending = r.composer.content.ask->0.pending@.len() as int;
            &&& req.selected_option < req.options@.len()
            &&& ask_reaction(local@, "ask.confirm"@, req, pending) == responded(
                local@,
                req,
                req.options@[req.selected_option as int]@,
            )
        }),
{
    reveal_strlit("ask.confirm");
    reveal_strlit("ask.next-request");
    reveal_strlit("editor.history.prev");
    reveal_strlit("ask.prev");
    reveal_strlit("editor.history.next");
    reveal_strlit("ask.next");
    assert("ask.confirm"@.len() == 11 && "ask.next-request"@.len() == 16 && "ask.prev"@.len() == 8
        && "ask.next"@.len() == 8 && "editor.history.prev"@.len() == 19
        && "editor.history.next"@.len() == 19);
}

/// The editor is locked exactly where the keyboard goes to the dialog: no key changes the
/// draft then, and none submits it.
pub proof fn law_locked_editor_keeps_its_draft(
    local: LocalUi,
    frame: FrameState,
    r: FrameState,
    key: KeyEvent,
    outcome: OutcomeView,
)
    requires
        is_merged(frame, local, r),
        frame.composer.content.ask is Some,
        r.btw is None,
        r.composer.content.editor.locked,
    ensures
        active_choice_spec(r) is Some,
        key_reaction(local@, key, outcome, r).ui.draft == local@.draft,
        key_reaction(local@, key, outcome, r).ui.cursor == local@.cursor,
        !(key_reaction(local@, key, outcome, r).step.command matches Some(c) && c is Submit),
{
}

/// While the side question is open no key reaches what it covers: the local state stays as
/// it is.
pub proof fn law_side_question_has_the_keyboard(
    ui: UiModel,
    key: KeyEvent,
    outcome: OutcomeView,
    snapshot: FrameState,
)
    requires
        snapshot.btw is Some,
    ensures
        key_reaction(ui, key, outcome, snapshot).ui == ui,
{
}

/// The session list and the command list are never open together.
pub proof fn law_one_list_at_a_time(m: UiModel)
    requires
        m.session_picker is Some,
    ensures
        command_picker_spec(m) is None,
{
}

/// A submitted draft is gone from the editor and stands at the end of the history; nothing
/// is submitted of an empty one.
pub proof fn law_submit_empties_the_editor(m: UiModel, snapshot: FrameState)
    requires
        m.draft.len() > 0,
    ensures
        submit_reaction(m, snapshot).ui.draft == Seq::<char>::empty(),
        submit_reaction(m, snapshot).ui.history.last() == m.draft,
        submit_reaction(m, snapshot).ui.scroll_offset is None,
{
}

} // verus!
