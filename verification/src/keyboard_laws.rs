//! What keys and actions come to: who gets them, what they send, and what they change.

use crate::dispatch::{
    action_reaction, active_choice_spec, ask_reaction, btw_reaction, key_reaction, latest_block,
    leads_to, local_command_spec, picker_reaction, quiet, sends, submit_reaction, typed,
    typed_question_spec, FlowView, LocalCommandView,
};
use crate::frame_state::{
    opt_text, AnswerWith, AskRequest, CandidateView, FrameState, HeaderSource, OptionView,
    TranscriptEntry,
};
use crate::handle::{BtwKey, CommandView};
use crate::keybindings::{bindings_view, Keybinding};
use crate::keybindings::defaults::default_table;
use crate::keybindings::key_laws::law_press_looks_up_the_chord;
use crate::keybindings::parser::{KeyCode, Shortcut, MOD_ALT, MOD_CTRL, MOD_SHIFT};
use crate::keybindings::resolver::{press, KeyEvent, KeyPress, OutcomeView};
use crate::local_ui::{block_line, leading, LocalUi, UiModel};
use crate::merge::{is_merged, is_prompt, prompt_end, prompt_start, prompts_spec};
use crate::picker::{
    accepted, bare_name, command_picker_spec, local_candidates_spec, matching, moved_selection,
    name_matches, session_picker_spec, step_spec,
};
use crate::text::{is_white, trim_spec};
use vstd::prelude::*;

verus! {

// ---- the names of the actions --------------------------------------------------------

/// A number that tells the names of the actions apart.
spec fn tag(s: Seq<char>) -> int {
    s.len() * 1000000 + (s[s.len() - 1] as int) * 1000 + s[s.len() - 3] as int
}

proof fn lemma_names()
    ensures
        tag("ask.confirm"@) == 11109105,
        tag("ask.next"@) == 8116101,
        tag("ask.next-request"@) == 16116101,
        tag("ask.no-shortcut"@) == 15116099,
        tag("ask.prev"@) == 8118114,
        tag("ask.yes-shortcut"@) == 16116099,
        tag("btw.clear"@) == 9114101,
        tag("editor.clear"@) == 12114101,
        tag("editor.cursor.left"@) == 18116101,
        tag("editor.cursor.line-end"@) == 22100101,
        tag("editor.cursor.line-start"@) == 24116097,
        tag("editor.cursor.right"@) == 19116103,
        tag("editor.cursor.word-left"@) == 23116101,
        tag("editor.cursor.word-right"@) == 24116103,
        tag("editor.delete-forward"@) == 21100097,
        tag("editor.delete-word"@) == 18100111,
        tag("editor.history.next"@) == 19116101,
        tag("editor.history.prev"@) == 19118114,
        tag("editor.kill-to-eol"@) == 18108101,
        tag("editor.newline"@) == 14101105,
        tag("editor.redraw"@) == 13119114,
        tag("editor.submit"@) == 13116109,
        tag("repl.cancel"@) == 11108099,
        tag("repl.dismiss"@) == 12115105,
        tag("repl.exit"@) == 9116120,
        tag("repl.scroll-down"@) == 16110111,
        tag("repl.scroll-up"@) == 14112045,
        tag("transcript.select-next"@) == 22116101,
        tag("transcript.select-prev"@) == 22118114,
        tag("transcript.toggle-expand"@) == 24100097,
{
    reveal_strlit("ask.confirm");
    assert("ask.confirm"@.len() == 11 && "ask.confirm"@[10] == 'm' && "ask.confirm"@[8] == 'i');
    reveal_strlit("ask.next");
    assert("ask.next"@.len() == 8 && "ask.next"@[7] == 't' && "ask.next"@[5] == 'e');
    reveal_strlit("ask.next-request");
    assert("ask.next-request"@.len() == 16);
    assert("ask.next-request"@[15] == 't');
    assert("ask.next-request"@[13] == 'e');
    reveal_strlit("ask.no-shortcut");
    assert("ask.no-shortcut"@.len() == 15);
    assert("ask.no-shortcut"@[14] == 't');
    assert("ask.no-shortcut"@[12] == 'c');
    reveal_strlit("ask.prev");
    assert("ask.prev"@.len() == 8 && "ask.prev"@[7] == 'v' && "ask.prev"@[5] == 'r');
    reveal_strlit("ask.yes-shortcut");
    assert("ask.yes-shortcut"@.len() == 16);
    assert("ask.yes-shortcut"@[15] == 't');
    assert("ask.yes-shortcut"@[13] == 'c');
    reveal_strlit("btw.clear");
    assert("btw.clear"@.len() == 9 && "btw.clear"@[8] == 'r' && "btw.clear"@[6] == 'e');
    reveal_strlit("editor.clear");
    assert("editor.clear"@.len() == 12 && "editor.clear"@[11] == 'r' && "editor.clear"@[9] == 'e');
    reveal_strlit("editor.cursor.left");
    assert("editor.cursor.left"@.len() == 18);
    assert("editor.cursor.left"@[17] == 't');
    assert("editor.cursor.left"@[15] == 'e');
    reveal_strlit("editor.cursor.line-end");
    assert("editor.cursor.line-end"@.len() == 22);
    assert("editor.cursor.line-end"@[21] == 'd');
    assert("editor.cursor.line-end"@[19] == 'e');
    reveal_strlit("editor.cursor.line-start");
    assert("editor.cursor.line-start"@.len() == 24);
    assert("editor.cursor.line-start"@[23] == 't');
    assert("editor.cursor.line-start"@[21] == 'a');
    reveal_strlit("editor.cursor.right");
    assert("editor.cursor.right"@.len() == 19);
    assert("editor.cursor.right"@[18] == 't');
    assert("editor.cursor.right"@[16] == 'g');
    reveal_strlit("editor.cursor.word-left");
    assert("editor.cursor.word-left"@.len() == 23);
    assert("editor.cursor.word-left"@[22] == 't');
    assert("editor.cursor.word-left"@[20] == 'e');
    reveal_strlit("editor.cursor.word-right");
    assert("editor.cursor.word-right"@.len() == 24);
    assert("editor.cursor.word-right"@[23] == 't');
    assert("editor.cursor.word-right"@[21] == 'g');
    reveal_strlit("editor.delete-forward");
    assert("editor.delete-forward"@.len() == 21);
    assert("editor.delete-forward"@[20] == 'd');
    assert("editor.delete-forward"@[18] == 'a');
    reveal_strlit("editor.delete-word");
    assert("editor.delete-word"@.len() == 18);
    assert("editor.delete-word"@[17] == 'd');
    assert("editor.delete-word"@[15] == 'o');
    reveal_strlit("editor.history.next");
    assert("editor.history.next"@.len() == 19);
    assert("editor.history.next"@[18] == 't');
    assert("editor.history.next"@[16] == 'e');
    reveal_strlit("editor.history.prev");
    assert("editor.history.prev"@.len() == 19);
    assert("editor.history.prev"@[18] == 'v');
    assert("editor.history.prev"@[16] == 'r');
    reveal_strlit("editor.kill-to-eol");
    assert("editor.kill-to-eol"@.len() == 18);
    assert("editor.kill-to-eol"@[17] == 'l');
    assert("editor.kill-to-eol"@[15] == 'e');
    reveal_strlit("editor.newline");
    assert("editor.newline"@.len() == 14);
    assert("editor.newline"@[13] == 'e');
    assert("editor.newline"@[11] == 'i');
    reveal_strlit("editor.redraw");
    assert("editor.redraw"@.len() == 13);
    assert("editor.redraw"@[12] == 'w');
    assert("editor.redraw"@[10] == 'r');
    reveal_strlit("editor.submit");
    assert("editor.submit"@.len() == 13);
    assert("editor.submit"@[12] == 't');
    assert("editor.submit"@[10] == 'm');
    reveal_strlit("repl.cancel");
    assert("repl.cancel"@.len() == 11 && "repl.cancel"@[10] == 'l' && "repl.cancel"@[8] == 'c');
    reveal_strlit("repl.dismiss");
    assert("repl.dismiss"@.len() == 12 && "repl.dismiss"@[11] == 's' && "repl.dismiss"@[9] == 'i');
    reveal_strlit("repl.exit");
    assert("repl.exit"@.len() == 9 && "repl.exit"@[8] == 't' && "repl.exit"@[6] == 'x');
    reveal_strlit("repl.scroll-down");
    assert("repl.scroll-down"@.len() == 16);
    assert("repl.scroll-down"@[15] == 'n');
    assert("repl.scroll-down"@[13] == 'o');
    reveal_strlit("repl.scroll-up");
    assert("repl.scroll-up"@.len() == 14);
    assert("repl.scroll-up"@[13] == 'p');
    assert("repl.scroll-up"@[11] == '-');
    reveal_strlit("transcript.select-next");
    assert("transcript.select-next"@.len() == 22);
    assert("transcript.select-next"@[21] == 't');
    assert("transcript.select-next"@[19] == 'e');
    reveal_strlit("transcript.select-prev");
    assert("transcript.select-prev"@.len() == 22);
    assert("transcript.select-prev"@[21] == 'v');
    assert("transcript.select-prev"@[19] == 'r');
    reveal_strlit("transcript.toggle-expand");
    assert("transcript.toggle-expand"@.len() == 24);
    assert("transcript.toggle-expand"@[23] == 'd');
    assert("transcript.toggle-expand"@[21] == 'a');
}

/// A key alone leads to an action.
pub open spec fn leads_to_action(
    table: Seq<Keybinding>,
    modifiers: u8,
    key: KeyCode,
    action: Seq<char>,
) -> bool {
    press(table, seq![], Shortcut { modifiers, key }) == (
        OutcomeView::Action(action),
        Seq::<Shortcut>::empty(),
    )
}

proof fn lemma_default_key(table: Seq<Keybinding>, i: int)
    requires
        bindings_view(table) == default_table(),
        0 <= i < 29,
        i != 23 && i != 24 && i != 25,
    ensures
        press(table, seq![], default_table()[i].chord[0]) == (
            OutcomeView::Action(default_table()[i].action),
            Seq::<Shortcut>::empty(),
        ),
{
    let d = default_table();
    assert(table.len() == d.len());
    let s = d[i].chord[0];
    let c = Seq::<Shortcut>::empty().push(s);
    assert(bindings_view(table)[i] == table[i]@);
    assert(d[i].chord =~= c);
    assert forall|j: int| 0 <= j < i implies (#[trigger] table[j]).chord@ != c by {
        assert(bindings_view(table)[j] == table[j]@);
        assert(d[j].chord[0] != s);
        assert(c[0] == s);
    }
    law_press_looks_up_the_chord(table, seq![], s, i);
}

/// What each key does with the default bindings.
pub proof fn law_default_keys(table: Seq<Keybinding>)
    requires
        bindings_view(table) == default_table(),
    ensures
        leads_to_action(table, 0, KeyCode::Enter, "editor.submit"@),
        leads_to_action(table, MOD_SHIFT, KeyCode::Enter, "editor.newline"@),
        leads_to_action(table, 0, KeyCode::Up, "editor.history.prev"@),
        leads_to_action(table, 0, KeyCode::Down, "editor.history.next"@),
        leads_to_action(table, MOD_CTRL, KeyCode::Char('u'), "editor.clear"@),
        leads_to_action(table, MOD_CTRL, KeyCode::Char('w'), "editor.delete-word"@),
        leads_to_action(table, MOD_CTRL, KeyCode::Char('k'), "editor.kill-to-eol"@),
        leads_to_action(table, MOD_CTRL, KeyCode::Char('l'), "editor.redraw"@),
        leads_to_action(table, 0, KeyCode::Left, "editor.cursor.left"@),
        leads_to_action(table, 0, KeyCode::Right, "editor.cursor.right"@),
        leads_to_action(table, MOD_ALT, KeyCode::Left, "editor.cursor.word-left"@),
        leads_to_action(table, MOD_ALT, KeyCode::Right, "editor.cursor.word-right"@),
        leads_to_action(table, 0, KeyCode::Home, "editor.cursor.line-start"@),
        leads_to_action(table, 0, KeyCode::End, "editor.cursor.line-end"@),
        leads_to_action(table, 0, KeyCode::Delete, "editor.delete-forward"@),
        leads_to_action(table, MOD_CTRL, KeyCode::Char('c'), "repl.cancel"@),
        leads_to_action(table, MOD_CTRL, KeyCode::Char('d'), "repl.exit"@),
        leads_to_action(table, 0, KeyCode::PageUp, "repl.scroll-up"@),
        leads_to_action(table, 0, KeyCode::PageDown, "repl.scroll-down"@),
        leads_to_action(table, 0, KeyCode::Esc, "repl.dismiss"@),
        leads_to_action(table, MOD_ALT, KeyCode::Up, "transcript.select-prev"@),
        leads_to_action(table, MOD_ALT, KeyCode::Down, "transcript.select-next"@),
        leads_to_action(table, 0, KeyCode::Function(5), "transcript.toggle-expand"@),
        leads_to_action(table, 0, KeyCode::Tab, "ask.next-request"@),
        leads_to_action(table, 0, KeyCode::Char('y'), "ask.yes-shortcut"@),
        leads_to_action(table, 0, KeyCode::Char('n'), "ask.no-shortcut"@),
{
    lemma_default_key(table, 0);
    lemma_default_key(table, 1);
    lemma_default_key(table, 2);
    lemma_default_key(table, 3);
    lemma_default_key(table, 4);
    lemma_default_key(table, 5);
    lemma_default_key(table, 6);
    lemma_default_key(table, 7);
    lemma_default_key(table, 8);
    lemma_default_key(table, 9);
    lemma_default_key(table, 10);
    lemma_default_key(table, 11);
    lemma_default_key(table, 12);
    lemma_default_key(table, 13);
    lemma_default_key(table, 14);
    lemma_default_key(table, 15);
    lemma_default_key(table, 16);
    lemma_default_key(table, 17);
    lemma_default_key(table, 18);
    lemma_default_key(table, 19);
    lemma_default_key(table, 20);
    lemma_default_key(table, 21);
    lemma_default_key(table, 22);
    lemma_default_key(table, 26);
    lemma_default_key(table, 27);
    lemma_default_key(table, 28);
}

// ---- the ring ------------------------------------------------------------------------

/// A step leads to the neighbour, and from the last place to the first and back.
pub proof fn law_step_leads_to_the_neighbour(current: int, len: int)
    requires
        0 <= current < len,
    ensures
        step_spec(current, 1, len) == if current + 1 < len {
            current + 1
        } else {
            0
        },
        step_spec(current, -1, len) == if current > 0 {
            current - 1
        } else {
            len - 1
        },
{
    vstd::arithmetic::div_mod::lemma_small_mod(current as nat, len as nat);
    if current + 1 < len {
        vstd::arithmetic::div_mod::lemma_small_mod((current + 1) as nat, len as nat);
    } else {
        vstd::arithmetic::div_mod::lemma_mod_self_0(len);
    }
    if current > 0 {
        vstd::arithmetic::div_mod::lemma_small_mod((current - 1) as nat, len as nat);
    } else {
        vstd::arithmetic::div_mod::lemma_mod_add_multiples_vanish(-1, len);
        vstd::arithmetic::div_mod::lemma_small_mod((len - 1) as nat, len as nat);
    }
}

/// Where there is nothing to step through a step leads nowhere; and a place behind the last one
/// counts on from the first.
pub proof fn law_step_behind_the_last(current: int, delta: int, len: int)
    requires
        0 <= current < len,
    ensures
        step_spec(current, delta, 0) == current,
        step_spec(current + len, delta, len) == step_spec(current, delta, len),
{
    vstd::arithmetic::div_mod::lemma_mod_add_multiples_vanish(current + delta, len);
    assert(current + len + delta == len + (current + delta));
}

// ---- the editor ----------------------------------------------------------------------

/// What the actions of the editor change. None of them sends anything.
pub proof fn law_editor_actions(ui: UiModel, snapshot: FrameState)
    ensures
        action_reaction(ui, "editor.newline"@, snapshot) == quiet(ui.insert('\n')),
        action_reaction(ui, "editor.clear"@, snapshot) == quiet(
            UiModel {
                draft: seq![],
                cursor: 0,
                picker_selected: 0,
                picker_dismissed: false,
                ..ui
            },
        ),
        action_reaction(ui, "editor.delete-word"@, snapshot) == quiet(ui.delete_word_before()),
        action_reaction(ui, "editor.kill-to-eol"@, snapshot) == quiet(ui.kill_to_line_end()),
        action_reaction(ui, "editor.delete-forward"@, snapshot) == quiet(ui.delete_forward()),
        action_reaction(ui, "editor.cursor.left"@, snapshot) == quiet(ui.move_char(-1)),
        action_reaction(ui, "editor.cursor.right"@, snapshot) == quiet(ui.move_char(1)),
        action_reaction(ui, "editor.cursor.word-left"@, snapshot) == quiet(ui.move_word(-1)),
        action_reaction(ui, "editor.cursor.word-right"@, snapshot) == quiet(ui.move_word(1)),
        action_reaction(ui, "editor.cursor.line-start"@, snapshot) == quiet(
            UiModel { cursor: ui.line_start(), ..ui },
        ),
        action_reaction(ui, "editor.cursor.line-end"@, snapshot) == quiet(
            UiModel { cursor: ui.line_end(), ..ui },
        ),
        action_reaction(ui, "editor.redraw"@, snapshot) == quiet(
            UiModel { redraw_requested: true, ..ui },
        ),
{
    lemma_names();
}

/// Up and Down move through the list of commands while it is open, and through the draft and
/// its history otherwise.
pub proof fn law_up_and_down(ui: UiModel, snapshot: FrameState)
    ensures
        command_picker_spec(ui) is Some ==> action_reaction(ui, "editor.history.prev"@, snapshot)
            == quiet(moved_selection(ui, -1)) && action_reaction(
            ui,
            "editor.history.next"@,
            snapshot,
        ) == quiet(moved_selection(ui, 1)),
        command_picker_spec(ui) is None ==> action_reaction(ui, "editor.history.prev"@, snapshot)
            == quiet(ui.up()) && action_reaction(ui, "editor.history.next"@, snapshot) == quiet(
            ui.down(),
        ),
{
    lemma_names();
}

/// What the actions of the transcript and of the program do.
pub proof fn law_program_actions(ui: UiModel, snapshot: FrameState)
    ensures
        ({
            let entries = snapshot.transcript.body.entries@;
            &&& action_reaction(ui, "repl.scroll-up"@, snapshot) == quiet(
                ui.scroll_up(entries.len() as int),
            )
            &&& action_reaction(ui, "repl.scroll-down"@, snapshot) == quiet(
                ui.scroll_down(entries.len() as int),
            )
            &&& action_reaction(ui, "transcript.select-prev"@, snapshot) == quiet(
                ui.select_block(entries, -1),
            )
            &&& action_reaction(ui, "transcript.select-next"@, snapshot) == quiet(
                ui.select_block(entries, 1),
            )
            &&& action_reaction(ui, "repl.cancel"@, snapshot) == sends(ui, CommandView::CancelTurn)
            &&& ui.draft.len() == 0 ==> action_reaction(ui, "repl.exit"@, snapshot) == leads_to(
                ui,
                FlowView::Quit,
            )
            &&& ui.draft.len() > 0 ==> action_reaction(ui, "repl.exit"@, snapshot) == quiet(ui)
            &&& command_picker_spec(ui) is Some ==> action_reaction(ui, "repl.dismiss"@, snapshot)
                == quiet(UiModel { picker_dismissed: true, ..ui })
            &&& command_picker_spec(ui) is None ==> action_reaction(ui, "repl.dismiss"@, snapshot)
                == quiet(UiModel { selected_block: None, ..ui })
        }),
{
    lemma_names();
}

/// The block that folding acts on is the selected one; without a selection it is the one whose
/// line is the last in the transcript.
pub proof fn law_folding_acts_on_the_selection(ui: UiModel, snapshot: FrameState, k: int)
    ensures
        ({
            let entries = snapshot.transcript.body.entries@;
            let r = action_reaction(ui, "transcript.toggle-expand"@, snapshot);
            &&& ui.selected_block matches Some(id) ==> r == sends(
                ui,
                CommandView::ToggleExpand { block_id: id },
            )
            &&& ui.selected_block is None && is_last_block_line(entries, k) ==> r == sends(
                ui,
                CommandView::ToggleExpand { block_id: opt_text(entries[k].block_id)->0 },
            )
            &&& ui.selected_block is None && no_block_line(entries) ==> r == quiet(ui)
        }),
{
    lemma_names();
    lemma_latest_block(snapshot.transcript.body.entries@, k);
}

/// Line `k` is the last one that belongs to a block.
pub open spec fn is_last_block_line(entries: Seq<TranscriptEntry>, k: int) -> bool {
    &&& 0 <= k < entries.len()
    &&& entries[k].block_id is Some
    &&& forall|j: int| k < j < entries.len() ==> (#[trigger] entries[j]).block_id is None
}

pub open spec fn no_block_line(entries: Seq<TranscriptEntry>) -> bool {
    forall|j: int| 0 <= j < entries.len() ==> (#[trigger] entries[j]).block_id is None
}

proof fn lemma_latest_block(entries: Seq<TranscriptEntry>, k: int)
    ensures
        is_last_block_line(entries, k) ==> latest_block(entries) == opt_text(entries[k].block_id),
        no_block_line(entries) ==> latest_block(entries) is None,
    decreases entries.len(),
{
    if entries.len() > 0 {
        let init = entries.drop_last();
        let n = entries.len() - 1;
        lemma_latest_block(init, k);
        if is_last_block_line(entries, k) && k < n {
            assert(entries[n].block_id is None);
            assert(init[k] == entries[k]);
            assert forall|j: int| k < j < init.len() implies (#[trigger] init[j]).block_id
                is None by {
                assert(init[j] == entries[j]);
            }
        }
        if no_block_line(entries) {
            assert(entries[n].block_id is None);
            assert forall|j: int| 0 <= j < init.len() implies (#[trigger] init[j]).block_id
                is None by {
                assert(init[j] == entries[j]);
            }
        }
    }
}

/// A character that is typed goes into the draft, unless Ctrl is held; Backspace takes one
/// out; no other key does anything.
pub proof fn law_typed_keys(ui: UiModel, key: KeyEvent)
    ensures
        key.code matches KeyPress::Char(c) ==> typed(ui, key) == if key.control {
            ui
        } else {
            ui.insert(c)
        },
        key.code is Backspace ==> typed(ui, key) == ui.delete_backward(),
        !(key.code is Char || key.code is Backspace) ==> typed(ui, key) == ui,
{
}

// ---- submitting ----------------------------------------------------------------------

/// Enter completes a command that is not typed in full yet, and submits the draft otherwise.
pub proof fn law_enter_completes_or_submits(ui: UiModel, snapshot: FrameState)
    ensures
        ({
            let r = action_reaction(ui, "editor.submit"@, snapshot);
            match command_picker_spec(ui) {
                Some(p) => if ui.draft == p.candidates[p.selected].name {
                    r == submit_reaction(ui, snapshot)
                } else {
                    r == quiet(accepted(ui))
                },
                None => r == submit_reaction(ui, snapshot),
            }
        }),
{
    lemma_names();
}

/// The state after a draft was submitted.
pub open spec fn is_sent_off(ui: UiModel, r: UiModel) -> bool {
    &&& r.draft.len() == 0
    &&& r.history.len() > 0
    &&& r.history.last() == ui.draft
    &&& ui.history.is_prefix_of(r.history)
    &&& r.history.len() <= ui.history.len() + 1
    &&& r.history_stash.len() == 0
    &&& r == (UiModel {
        draft: r.draft,
        cursor: 0,
        scroll_offset: None,
        selected_block: None,
        history: r.history,
        history_pos: None,
        history_stash: r.history_stash,
        picker_selected: 0,
        picker_dismissed: false,
        ask_selected: r.ask_selected,
        ask_active: r.ask_active,
        ..ui
    })
}

/// A line that a question waits for is its answer, in full and whatever it looks like.
pub proof fn law_line_answers_the_question(ui: UiModel, snapshot: FrameState)
    requires
        ui.draft.len() > 0,
        typed_question_spec(snapshot) is Some,
    ensures
        ({
            let r = submit_reaction(ui, snapshot);
            &&& r.step.flow is Continue
            &&& r.step.command == Some(
                CommandView::AnswerQuestion {
                    prompt_id: typed_question_spec(snapshot)->0.prompt_id@,
                    text: ui.draft,
                },
            )
            &&& is_sent_off(ui, r.ui)
            &&& r.ui.ask_selected == 0 && r.ui.ask_active == 0
        }),
{
}

/// A line that is no command of the terminal goes to the engine, in full; one that is does
/// what it says. Nothing is submitted of an empty draft.
pub proof fn law_line_goes_to_the_engine(ui: UiModel, snapshot: FrameState)
    requires
        typed_question_spec(snapshot) is None,
    ensures
        ({
            let r = submit_reaction(ui, snapshot);
            &&& ui.draft.len() == 0 ==> r == quiet(ui)
            &&& ui.draft.len() > 0 ==> is_sent_off(ui, r.ui) && r.ui.ask_selected == ui.ask_selected
                && r.ui.ask_active == ui.ask_active
            &&& ui.draft.len() > 0 ==> match local_command_spec(ui.draft) {
                None => r.step.flow is Continue && r.step.command == Some(
                    CommandView::Submit { text: ui.draft },
                ),
                Some(LocalCommandView::Quit) => r.step.flow is Quit && r.step.command is None,
                Some(LocalCommandView::Resume(q)) => r.step.flow == FlowView::ListSessions(q)
                    && r.step.command is None,
                Some(LocalCommandView::Doctor) => r.step.flow is Continue && r.step.command
                    == Some(CommandView::Doctor),
                Some(LocalCommandView::Btw(q)) => r.step.flow is Continue && r.step.command == Some(
                    CommandView::Btw { question: q },
                ),
                Some(LocalCommandView::Model(Some(name))) => r.step.flow is Continue
                    && r.step.command == Some(CommandView::SetModel { name }),
                Some(LocalCommandView::Model(None)) => r.step.flow is Continue
                    && r.step.command == Some(
                    CommandView::Note {
                        text: "current model: "@ + snapshot.footer_hints.model@
                            + " · usage: /model <name>"@,
                    },
                ),
            }
        }),
{
}

/// A word without white space.
pub open spec fn is_word(s: Seq<char>) -> bool {
    forall|i: int| 0 <= i < s.len() ==> !is_white(#[trigger] s[i])
}

proof fn lemma_leading_word(head: Seq<char>, rest: Seq<char>)
    requires
        is_word(head),
        rest.len() > 0 ==> is_white(rest[0]),
    ensures
        leading(head + rest, false) == head.len(),
    decreases head.len(),
{
    let s = head + rest;
    if head.len() > 0 {
        assert(!is_white(head[0]));
        assert(s[0] == head[0]);
        assert(s.drop_first() =~= head.drop_first() + rest);
        assert forall|i: int| 0 <= i < head.drop_first().len() implies !is_white(
            #[trigger] head.drop_first()[i],
        ) by {
            assert(!is_white(head[i + 1]));
        }
        lemma_leading_word(head.drop_first(), rest);
    } else if rest.len() > 0 {
        assert(s[0] == rest[0]);
    }
}

/// A command of the terminal is the first word of the line, and its argument is the rest of the
/// line, trimmed. Any other first word is no command.
pub proof fn law_commands_of_the_terminal(head: Seq<char>, white: char, rest: Seq<char>)
    requires
        is_word(head),
        is_white(white),
    ensures
        ({
            let line = local_command_spec(head + (seq![white] + rest));
            let arg = trim_spec(rest);
            &&& head == "/quit"@ || head == "/exit"@ ==> line == Some(LocalCommandView::Quit)
            &&& head == "/doctor"@ ==> line == Some(LocalCommandView::Doctor)
            &&& head == "/resume"@ ==> line == Some(LocalCommandView::Resume(arg))
            &&& head == "/btw"@ ==> line == Some(LocalCommandView::Btw(arg))
            &&& head == "/model"@ ==> line == Some(
                LocalCommandView::Model(
                    if arg.len() == 0 {
                        None
                    } else {
                        Some(arg)
                    },
                ),
            )
            &&& head != "/quit"@ && head != "/exit"@ && head != "/doctor"@ && head != "/resume"@
                && head != "/btw"@ && head != "/model"@ ==> line is None
        }),
        local_command_spec(head) == local_command_spec(head + (seq![white] + Seq::<char>::empty())),
{
    let s = head + (seq![white] + rest);
    lemma_leading_word(head, seq![white] + rest);
    assert(s.take(head.len() as int) =~= head);
    assert(s.skip(head.len() as int + 1) =~= rest);
    let e = head + (seq![white] + Seq::<char>::empty());
    lemma_leading_word(head, seq![white] + Seq::<char>::empty());
    lemma_leading_word(head, seq![]);
    assert(head + Seq::<char>::empty() =~= head);
    assert(head.take(head.len() as int) =~= head);
    assert(e.take(head.len() as int) =~= head);
    assert(e.skip(head.len() as int + 1) =~= seq![]);
    lemma_commands_differ();
}

proof fn lemma_commands_differ()
    ensures
        "/quit"@.len() == 5 && "/quit"@[1] == 'q',
        "/exit"@.len() == 5 && "/exit"@[1] == 'e',
        "/doctor"@.len() == 7 && "/doctor"@[1] == 'd',
        "/resume"@.len() == 7 && "/resume"@[1] == 'r',
        "/btw"@.len() == 4,
        "/model"@.len() == 6,
{
    reveal_strlit("/quit");
    reveal_strlit("/exit");
    reveal_strlit("/doctor");
    reveal_strlit("/resume");
    reveal_strlit("/btw");
    reveal_strlit("/model");
}

// ---- the dialog ----------------------------------------------------------------------

/// An answer goes to the request that is looked at, and is one of its options. Nothing else
/// is sent from the dialog but the wish to cancel; and the draft stays as it is.
pub proof fn law_answers_are_options_of_the_request(
    ui: UiModel,
    action: Seq<char>,
    req: AskRequest,
    pending: int,
)
    ensures
        ({
            let r = ask_reaction(ui, action, req, pending);
            &&& r.step.flow is Continue
            &&& r.step.command matches Some(c) ==> (c is CancelTurn || c is Respond)
            &&& r.step.command matches Some(CommandView::Respond { prompt_id, decision }) ==> {
                &&& prompt_id == req.prompt_id@
                &&& exists|i: int|
                    0 <= i < req.options@.len() && (#[trigger] req.options@[i])@ == decision
                &&& r.ui == (UiModel { ask_selected: 0, ask_active: 0, ..ui })
            }
            &&& r.ui.draft == ui.draft
            &&& r.ui.cursor == ui.cursor
        }),
{
    let r = ask_reaction(ui, action, req, pending);
    let views = crate::frame_state::options_view(req.options@);
    match r.step.command {
        Some(CommandView::Respond { prompt_id, decision }) => {
            if views.contains(decision) {
                let i = choose|i: int| 0 <= i < views.len() && views[i] == decision;
                assert(req.options@[i]@ == decision);
            } else {
                assert(req.options@[ui.ask_selected as int]@ == decision);
            }
        },
        _ => {},
    }
}

/// A request offers an option.
pub open spec fn offers(req: AskRequest, option: OptionView) -> bool {
    exists|i: int| 0 <= i < req.options@.len() && (#[trigger] req.options@[i])@ == option
}

proof fn lemma_offers(req: AskRequest, option: OptionView)
    ensures
        offers(req, option) <==> crate::frame_state::options_view(req.options@).contains(option),
{
    let views = crate::frame_state::options_view(req.options@);
    if offers(req, option) {
        let i = choose|i: int| 0 <= i < req.options@.len() && (#[trigger] req.options@[i])@ == option;
        assert(views[i] == option);
    }
    if views.contains(option) {
        let i = choose|i: int| 0 <= i < views.len() && views[i] == option;
        assert(req.options@[i]@ == option);
    }
}

/// The keys of the dialog: Enter answers what is highlighted, `y` permits once and `n` or Esc
/// denies where the request offers that, Up and Down move the highlight, Tab shows the next
/// request, and Ctrl-C cancels the turn.
pub proof fn law_keys_of_the_dialog(ui: UiModel, req: AskRequest, pending: int)
    requires
        pending >= 0,
    ensures
        ({
            let n = req.options@.len() as int;
            let answer = |d: OptionView|
                sends(
                    UiModel { ask_selected: 0, ask_active: 0, ..ui },
                    CommandView::Respond { prompt_id: req.prompt_id@, decision: d },
                );
            &&& ui.ask_selected < n ==> ask_reaction(ui, "ask.confirm"@, req, pending) == answer(
                req.options@[ui.ask_selected as int]@,
            ) && ask_reaction(ui, "editor.submit"@, req, pending) == answer(
                req.options@[ui.ask_selected as int]@,
            )
            &&& ui.ask_selected >= n ==> ask_reaction(ui, "ask.confirm"@, req, pending) == quiet(ui)
            &&& ask_reaction(ui, "ask.yes-shortcut"@, req, pending) == if offers(
                req,
                OptionView::PermitOnce,
            ) {
                answer(OptionView::PermitOnce)
            } else {
                quiet(ui)
            }
            &&& ask_reaction(ui, "ask.no-shortcut"@, req, pending) == if offers(
                req,
                OptionView::Deny,
            ) {
                answer(OptionView::Deny)
            } else {
                quiet(ui)
            }
            &&& ask_reaction(ui, "repl.dismiss"@, req, pending) == ask_reaction(
                ui,
                "ask.no-shortcut"@,
                req,
                pending,
            )
            &&& ask_reaction(ui, "ask.prev"@, req, pending) == quiet(
                UiModel { ask_selected: step_spec(ui.ask_selected as int, -1, n) as usize, ..ui },
            )
            &&& ask_reaction(ui, "ask.next"@, req, pending) == quiet(
                UiModel { ask_selected: step_spec(ui.ask_selected as int, 1, n) as usize, ..ui },
            )
            &&& ask_reaction(ui, "editor.history.prev"@, req, pending) == ask_reaction(
                ui,
                "ask.prev"@,
                req,
                pending,
            )
            &&& ask_reaction(ui, "editor.history.next"@, req, pending) == ask_reaction(
                ui,
                "ask.next"@,
                req,
                pending,
            )
            &&& ask_reaction(ui, "ask.next-request"@, req, pending) == quiet(
                UiModel {
                    ask_active: step_spec(ui.ask_active as int, 1, pending) as usize,
                    ask_selected: 0,
                    ..ui
                },
            )
            &&& ask_reaction(ui, "repl.cancel"@, req, pending) == sends(ui, CommandView::CancelTurn)
        }),
{
    lemma_names();
    lemma_offers(req, OptionView::PermitOnce);
    lemma_offers(req, OptionView::Deny);
}

/// Tab shows the next request from the editor too.
pub proof fn law_tab_shows_the_next_request(ui: UiModel, snapshot: FrameState)
    ensures
        snapshot.composer.content.ask matches Some(ask) ==> action_reaction(
            ui,
            "ask.next-request"@,
            snapshot,
        ) == quiet(
            UiModel {
                ask_active: step_spec(ui.ask_active as int, 1, ask.pending@.len() as int) as usize,
                ask_selected: 0,
                ..ui
            },
        ),
        snapshot.composer.content.ask is None ==> action_reaction(ui, "ask.next-request"@, snapshot)
            == quiet(ui),
{
    lemma_names();
}

// ---- the list of sessions ------------------------------------------------------------

/// The keys of the list of sessions: Enter changes to the session that is selected, Up and
/// Down move the selection, Esc closes the list, and Ctrl-C cancels the turn.
pub proof fn law_keys_of_the_session_list(ui: UiModel)
    requires
        ui.session_picker is Some,
    ensures
        ({
            let c = ui.session_picker->0;
            let n = c.len() as int;
            let closed = UiModel { session_picker: None, picker_selected: 0, ..ui };
            &&& picker_reaction(ui, "editor.submit"@) == if ui.picker_selected < n {
                leads_to(closed, FlowView::Resume(c[ui.picker_selected as int].name))
            } else {
                quiet(closed)
            }
            &&& picker_reaction(ui, "ask.confirm"@) == picker_reaction(ui, "editor.submit"@)
            &&& picker_reaction(ui, "editor.history.prev"@) == quiet(
                UiModel {
                    picker_selected: step_spec(ui.picker_selected as int, -1, n) as usize,
                    ..ui
                },
            )
            &&& picker_reaction(ui, "ask.prev"@) == picker_reaction(ui, "editor.history.prev"@)
            &&& picker_reaction(ui, "editor.history.next"@) == quiet(
                UiModel {
                    picker_selected: step_spec(ui.picker_selected as int, 1, n) as usize,
                    ..ui
                },
            )
            &&& picker_reaction(ui, "ask.next"@) == picker_reaction(ui, "editor.history.next"@)
            &&& picker_reaction(ui, "repl.dismiss"@) == quiet(closed)
            &&& picker_reaction(ui, "repl.exit"@) == quiet(closed)
            &&& picker_reaction(ui, "repl.cancel"@) == sends(ui, CommandView::CancelTurn)
        }),
{
    lemma_names();
}

// ---- the side question ---------------------------------------------------------------

/// The keys of the side question: Up and Down scroll by a line, Left and Right show the
/// exchange before and behind, Enter and Esc close it, and Ctrl-C cancels the turn.
pub proof fn law_keys_of_the_side_question(ui: UiModel)
    ensures
        btw_reaction(ui, "editor.history.prev"@) == sends(
            ui,
            CommandView::BtwKey(BtwKey::Scroll(-1isize)),
        ),
        btw_reaction(ui, "ask.prev"@) == btw_reaction(ui, "editor.history.prev"@),
        btw_reaction(ui, "editor.history.next"@) == sends(
            ui,
            CommandView::BtwKey(BtwKey::Scroll(1isize)),
        ),
        btw_reaction(ui, "ask.next"@) == btw_reaction(ui, "editor.history.next"@),
        btw_reaction(ui, "editor.cursor.left"@) == sends(ui, CommandView::BtwKey(BtwKey::Older)),
        btw_reaction(ui, "editor.cursor.right"@) == sends(ui, CommandView::BtwKey(BtwKey::Newer)),
        btw_reaction(ui, "btw.clear"@) == sends(ui, CommandView::BtwKey(BtwKey::ClearEarlier)),
        btw_reaction(ui, "editor.submit"@) == sends(ui, CommandView::BtwKey(BtwKey::Close)),
        btw_reaction(ui, "ask.confirm"@) == sends(ui, CommandView::BtwKey(BtwKey::Close)),
        btw_reaction(ui, "repl.dismiss"@) == sends(ui, CommandView::BtwKey(BtwKey::Close)),
        btw_reaction(ui, "repl.exit"@) == sends(ui, CommandView::BtwKey(BtwKey::Close)),
        btw_reaction(ui, "repl.cancel"@) == sends(ui, CommandView::CancelTurn),
{
    lemma_names();
}

// ---- other actions -------------------------------------------------------------------

/// An action that has no meaning where it comes does nothing there.
pub proof fn law_other_actions_do_nothing(
    ui: UiModel,
    action: Seq<char>,
    snapshot: FrameState,
    req: AskRequest,
    pending: int,
)
    ensures
        ({
            let arrow = action == "editor.history.prev"@ || action == "editor.history.next"@
                || action == "ask.prev"@ || action == "ask.next"@;
            let enter = action == "editor.submit"@ || action == "ask.confirm"@;
            let out = action == "repl.dismiss"@ || action == "repl.cancel"@;
            let letter = action == "ask.yes-shortcut"@ || action == "ask.no-shortcut"@;
            &&& !arrow && !enter && !out && action != "repl.exit"@ ==> picker_reaction(ui, action)
                == quiet(ui)
            &&& !arrow && !enter && !out && action != "repl.exit"@ && action
                != "editor.cursor.left"@ && action != "editor.cursor.right"@ && action
                != "btw.clear"@ ==> btw_reaction(ui, action) == quiet(ui)
            &&& !arrow && !enter && !out && !letter && action != "ask.next-request"@
                ==> ask_reaction(ui, action, req, pending) == quiet(ui)
            &&& letter || action == "btw.clear"@ || action == "ask.prev"@ || action == "ask.next"@
                || action == "ask.confirm"@ ==> action_reaction(ui, action, snapshot) == quiet(ui)
        }),
{
    lemma_names();
}

// ---- who has the keyboard ------------------------------------------------------------

/// The keyboard belongs to the side question, then to a request that is answered by choosing,
/// then to the list of sessions, then to the editor. Only the editor takes characters.
pub proof fn law_who_has_the_keyboard(
    ui: UiModel,
    key: KeyEvent,
    outcome: OutcomeView,
    snapshot: FrameState,
)
    ensures
        ({
            let r = key_reaction(ui, key, outcome, snapshot);
            let choice = active_choice_spec(snapshot);
            &&& snapshot.btw is Some ==> (outcome matches OutcomeView::Action(a) ==> r
                == btw_reaction(ui, a))
            &&& snapshot.btw is Some && outcome is Unmatched ==> r == if outcome->Unmatched_0 == (
            Shortcut { modifiers: 0, key: KeyCode::Char('x') }) {
                sends(ui, CommandView::BtwKey(BtwKey::ClearEarlier))
            } else {
                quiet(ui)
            }
            &&& snapshot.btw is None && choice is Some ==> (outcome matches OutcomeView::Action(a)
                ==> r == ask_reaction(
                ui,
                a,
                choice->0,
                snapshot.composer.content.ask->0.pending@.len() as int,
            ))
            &&& snapshot.btw is None && choice is None && ui.session_picker is Some ==> (
            outcome matches OutcomeView::Action(a) ==> r == picker_reaction(ui, a))
            &&& snapshot.btw is None && (choice is Some || ui.session_picker is Some) && !(
            outcome is Action) ==> r == quiet(ui)
            &&& outcome is Partial || outcome is ChordCancelled ==> r == quiet(ui)
            &&& snapshot.btw is None && choice is None && ui.session_picker is None ==> {
                &&& outcome is Unmatched ==> r == quiet(typed(ui, key))
                &&& outcome == OutcomeView::Action("ask.yes-shortcut"@) || outcome
                    == OutcomeView::Action("ask.no-shortcut"@) || outcome == OutcomeView::Action(
                    "btw.clear"@,
                ) ==> r == quiet(typed(ui, key))
                &&& outcome is Action && outcome->Action_0 != "ask.yes-shortcut"@ && outcome->Action_0
                    != "ask.no-shortcut"@ && outcome->Action_0 != "btw.clear"@ ==> r
                    == action_reaction(ui, outcome->Action_0, snapshot)
            }
        }),
{
}

/// The request that is looked at: the active one of the queue, where there is one. It has the
/// keyboard where it is answered by choosing, and waits for a line where it is not.
pub proof fn law_request_that_is_looked_at(snapshot: FrameState)
    ensures
        snapshot.composer.content.ask is None ==> active_choice_spec(snapshot) is None
            && typed_question_spec(snapshot) is None,
        snapshot.composer.content.ask matches Some(ask) ==> {
            let i = ask.active_idx as int;
            let there = i < ask.pending@.len();
            &&& active_choice_spec(snapshot) is Some <==> there && ask.pending@[i].answer_with
                == AnswerWith::Choose
            &&& typed_question_spec(snapshot) is Some <==> there && ask.pending@[i].answer_with
                == AnswerWith::Type
            &&& active_choice_spec(snapshot) matches Some(a) ==> a == ask.pending@[i]
            &&& typed_question_spec(snapshot) matches Some(a) ==> a == ask.pending@[i]
        },
{
}

// ---- the list of commands ------------------------------------------------------------

/// Slashes in front of a name do not count.
pub proof fn law_bare_name(name: Seq<char>)
    ensures
        name.len() > 0 && name[0] == '/' ==> bare_name(name) == bare_name(name.skip(1)),
        name.len() == 0 || name[0] != '/' ==> bare_name(name) == name,
{
    if name.len() > 0 {
        assert(name.drop_first() =~= name.skip(1));
    }
}

/// A name matches a query that it begins with.
pub proof fn law_matching_names(query: Seq<char>, rest: Seq<char>, name: Seq<char>)
    ensures
        bare_name(name) == query + rest ==> name_matches(name, query),
        name_matches(name, query) ==> bare_name(name) == query + bare_name(name).skip(
            query.len() as int,
        ),
{
    if bare_name(name) == query + rest {
        assert(bare_name(name).take(query.len() as int) =~= query);
    }
    if name_matches(name, query) {
        assert(bare_name(name) =~= query + bare_name(name).skip(query.len() as int));
    }
}

/// The candidates that match stand in the order in which they are known, and no other does.
pub proof fn law_matching_candidates_in_order(
    a: Seq<CandidateView>,
    b: Seq<CandidateView>,
    c: CandidateView,
    query: Seq<char>,
)
    ensures
        matching(a + b, query) == matching(a, query) + matching(b, query),
        matching(seq![c], query) == if name_matches(c.name, query) {
            seq![c]
        } else {
            seq![]
        },
    decreases b.len(),
{
    let one = seq![c];
    assert(one.drop_last() =~= seq![]);
    assert(matching(one.drop_last(), query) =~= seq![]);
    assert(matching(one, query) =~= if name_matches(c.name, query) {
        seq![c]
    } else {
        seq![]
    });
    if b.len() == 0 {
        assert(a + b =~= a);
        assert(matching(a, query) + matching(b, query) =~= matching(a, query));
    } else {
        law_matching_candidates_in_order(a, b.drop_last(), c, query);
        assert((a + b).drop_last() =~= a + b.drop_last());
        assert(matching(a + b, query) =~= matching(a, query) + matching(b, query));
    }
}

/// The list of commands opens for a draft that is a slash and the beginning of a word, and
/// offers the commands of the terminal first and those of the engine behind them. It does not
/// open where nothing matches, where it was closed, or where sessions are listed.
pub proof fn law_command_list(ui: UiModel, query: Seq<char>)
    ensures
        ({
            let all = matching(local_candidates_spec() + ui.commands, query);
            let word = query.len() > 0 && !query.contains(' ') && !query.contains('\n');
            let open = ui.session_picker is None && !ui.picker_dismissed && word && all.len() > 0;
            ui.draft == seq!['/'] + query ==> {
                &&& command_picker_spec(ui) is Some <==> open
                &&& command_picker_spec(ui) matches Some(p) ==> p.candidates == all && p.query
                    == query && p.selected == if ui.picker_selected < all.len() {
                    ui.picker_selected as int
                } else {
                    all.len() - 1
                }
            }
        }),
        ui.draft.len() == 0 || ui.draft[0] != '/' ==> command_picker_spec(ui) is None,
{
    let d = ui.draft;
    if d == seq!['/'] + query {
        assert(d.skip(1) =~= query);
        if query.contains(' ') {
            let i = choose|i: int| 0 <= i < query.len() && query[i] == ' ';
            assert(d[i + 1] == ' ');
        }
        if query.contains('\n') {
            let i = choose|i: int| 0 <= i < query.len() && query[i] == '\n';
            assert(d[i + 1] == '\n');
        }
        if d.contains(' ') {
            let i = choose|i: int| 0 <= i < d.len() && d[i] == ' ';
            assert(query[i - 1] == ' ');
        }
        if d.contains('\n') {
            let i = choose|i: int| 0 <= i < d.len() && d[i] == '\n';
            assert(query[i - 1] == '\n');
        }
    }
}

/// A command that is completed stands in the draft in full, with a space behind it and the
/// cursor behind that.
pub proof fn law_completing_writes_the_name(ui: UiModel)
    ensures
        command_picker_spec(ui) is None ==> accepted(ui) == ui && moved_selection(ui, 1) == ui,
        command_picker_spec(ui) matches Some(p) ==> {
            let r = accepted(ui);
            &&& r.draft == p.candidates[p.selected].name.push(' ')
            &&& r.cursor == r.draft.len()
            &&& r == (UiModel {
                draft: r.draft,
                cursor: r.cursor,
                picker_selected: 0,
                picker_dismissed: false,
                ..ui
            })
        },
{
    reveal_strlit(" ");
    match command_picker_spec(ui) {
        Some(p) => {
            let name = p.candidates[p.selected].name;
            assert(name + " "@ =~= name.push(' '));
        },
        None => {},
    }
}

/// The selection in the list of commands moves to the neighbour, and from the last one to the
/// first and back.
pub proof fn law_selection_in_the_command_list(ui: UiModel)
    requires
        command_picker_spec(ui) is Some,
        command_picker_spec(ui)->0.candidates.len() <= usize::MAX,
    ensures
        ({
            let p = command_picker_spec(ui)->0;
            let n = p.candidates.len() as int;
            let down = moved_selection(ui, 1);
            let up = moved_selection(ui, -1);
            &&& down == (UiModel { picker_selected: down.picker_selected, ..ui })
            &&& up == (UiModel { picker_selected: up.picker_selected, ..ui })
            &&& down.picker_selected == if p.selected + 1 < n {
                p.selected + 1
            } else {
                0
            }
            &&& up.picker_selected == if p.selected > 0 {
                p.selected - 1
            } else {
                n - 1
            }
        }),
{
    let p = command_picker_spec(ui)->0;
    law_step_leads_to_the_neighbour(p.selected, p.candidates.len() as int);
}

/// The commands that the terminal offers are those that it knows.
pub proof fn law_offered_commands_are_known(i: int)
    requires
        0 <= i < local_candidates_spec().len(),
    ensures
        local_candidates_spec().len() == 6,
        local_candidates_spec()[0].name == "/model"@,
        local_candidates_spec()[1].name == "/doctor"@,
        local_candidates_spec()[2].name == "/resume"@,
        local_candidates_spec()[3].name == "/btw"@,
        local_candidates_spec()[4].name == "/quit"@,
        local_candidates_spec()[5].name == "/exit"@,
        local_command_spec(local_candidates_spec()[i].name) is Some,
{
    let name = local_candidates_spec()[i].name;
    lemma_commands_differ();
    reveal_strlit("/quit");
    reveal_strlit("/exit");
    reveal_strlit("/doctor");
    reveal_strlit("/resume");
    reveal_strlit("/btw");
    reveal_strlit("/model");
    assert(is_word(name));
    law_commands_of_the_terminal(name, ' ', seq![]);
}

/// The list of sessions shows all that was found, whatever the draft is.
pub proof fn law_session_list(ui: UiModel)
    ensures
        session_picker_spec(ui) is Some <==> ui.session_picker is Some,
        session_picker_spec(ui) matches Some(p) ==> {
            &&& Some(p.candidates) == ui.session_picker
            &&& p.query.len() == 0
            &&& ui.picker_selected < p.candidates.len() ==> p.selected == ui.picker_selected
            &&& ui.picker_selected >= p.candidates.len() > 0 ==> p.selected == p.candidates.len()
                - 1
        },
{
}

// ---- the frame that is drawn ---------------------------------------------------------

/// Line `p` is where the last prompt begins, and `q` is its last line.
pub open spec fn is_last_prompt(entries: Seq<TranscriptEntry>, p: int, q: int) -> bool {
    &&& 0 <= p <= q < entries.len()
    &&& forall|i: int| p <= i <= q ==> is_prompt(#[trigger] entries[i])
    &&& forall|i: int| p < i <= q ==> (#[trigger] entries[i]).continues_previous
    &&& forall|i: int| q < i < entries.len() ==> !is_prompt(#[trigger] entries[i])
    &&& p == 0 || !entries[p].continues_previous || !is_prompt(entries[p - 1])
}

proof fn lemma_prompt_end(entries: Seq<TranscriptEntry>, q: int)
    requires
        0 <= q < entries.len(),
        is_prompt(entries[q]),
        forall|i: int| q < i < entries.len() ==> !is_prompt(#[trigger] entries[i]),
    ensures
        prompt_end(entries) == q + 1,
    decreases entries.len(),
{
    if q + 1 < entries.len() {
        let init = entries.drop_last();
        assert(!is_prompt(entries[entries.len() - 1]));
        assert(init[q] == entries[q]);
        assert forall|i: int| q < i < init.len() implies !is_prompt(#[trigger] init[i]) by {
            assert(init[i] == entries[i]);
        }
        lemma_prompt_end(init, q);
    }
}

proof fn lemma_prompt_start(entries: Seq<TranscriptEntry>, p: int, q: int, i: int)
    requires
        is_last_prompt(entries, p, q),
        p <= i <= q,
    ensures
        prompt_start(entries, i) == p,
    decreases i,
{
    if i > p {
        assert(entries[i].continues_previous);
        assert(is_prompt(entries[i - 1]));
        lemma_prompt_start(entries, p, q, i - 1);
    }
}

/// The prompt is pinned above the transcript while its first line is not on the screen: in a
/// view that follows the end, not among its last lines, and in one that is scrolled, not among
/// the lines from its first one on.
pub proof fn law_prompt_is_pinned_while_out_of_sight(
    frame: FrameState,
    local: LocalUi,
    r: FrameState,
    p: int,
    q: int,
)
    requires
        is_merged(frame, local, r),
        local.viewport_lines > 0,
        is_last_prompt(frame.transcript.body.entries@, p, q),
    ensures
        ({
            let n = frame.transcript.body.entries@.len();
            let in_sight = match local.scroll_offset {
                Some(top) => top <= p < top + local.viewport_lines,
                None => n - p <= local.viewport_lines,
            };
            &&& in_sight ==> r.transcript.header.text is None && r.transcript.header.source
                == HeaderSource::Nothing
            &&& !in_sight ==> r.transcript.header == frame.transcript.header
        }),
{
    let entries = frame.transcript.body.entries@;
    assert(is_prompt(entries[q]));
    lemma_prompt_end(entries, q);
    lemma_prompt_start(entries, p, q, q);
}

/// The frame shows the draft and the cursor as they are, the scroll position inside the
/// transcript, and the selection where its block is there.
pub proof fn law_local_state_is_shown(frame: FrameState, local: LocalUi, r: FrameState, k: int)
    requires
        is_merged(frame, local, r),
    ensures
        ({
            let entries = frame.transcript.body.entries@;
            let n = entries.len() as int;
            let shown = r.transcript.body;
            &&& shown.entries == frame.transcript.body.entries
            &&& shown.scroll.total_lines == frame.transcript.body.scroll.total_lines
            &&& r.composer.content.editor.draft@ == local.draft@
            &&& r.composer.content.editor.cursor == local.cursor
            &&& local.scroll_offset matches Some(top) ==> {
                &&& !shown.auto_follow
                &&& top < n ==> shown.scroll.offset == top
                &&& top >= n && n > 0 ==> shown.scroll.offset == n - 1
                &&& n == 0 ==> shown.scroll.offset == 0
            }
            &&& local.scroll_offset is None ==> shown.auto_follow
                == frame.transcript.body.auto_follow && shown.scroll
                == frame.transcript.body.scroll
            &&& local.selected_block is None ==> shown.selected_block is None
            &&& shown.selected_block matches Some(id) ==> opt_text(local.selected_block) == Some(
                id@,
            )
            &&& local.selected_block is Some && 0 <= k < n && opt_text(entries[k].block_id)
                == opt_text(local.selected_block) ==> shown.selected_block is Some
            &&& local.selected_block is Some && (forall|j: int|
                0 <= j < n ==> opt_text((#[trigger] entries[j]).block_id) != opt_text(
                    local.selected_block,
                )) ==> shown.selected_block is None
        }),
{
    let entries = frame.transcript.body.entries@;
    match local.selected_block {
        Some(id) => {
            lemma_block_line(entries, id@, k);
        },
        None => {},
    }
}

proof fn lemma_block_line(entries: Seq<TranscriptEntry>, id: Seq<char>, k: int)
    ensures
        block_line(entries, id) <= entries.len(),
        0 <= k < entries.len() && opt_text(entries[k].block_id) == Some(id) ==> block_line(
            entries,
            id,
        ) < entries.len(),
        (forall|j: int|
            0 <= j < entries.len() ==> opt_text((#[trigger] entries[j]).block_id) != Some(id))
            ==> block_line(entries, id) == entries.len(),
    decreases entries.len(),
{
    if entries.len() > 0 {
        let t = entries.drop_first();
        lemma_block_line(t, id, k - 1);
        if 0 < k < entries.len() {
            assert(t[k - 1] == entries[k]);
        }
        if forall|j: int|
            0 <= j < entries.len() ==> opt_text((#[trigger] entries[j]).block_id) != Some(id) {
            assert(opt_text(entries[0].block_id) != Some(id));
            assert forall|j: int| 0 <= j < t.len() implies opt_text((#[trigger] t[j]).block_id)
                != Some(id) by {
                assert(t[j] == entries[j + 1]);
            }
        }
    }
}

/// All the rest of the frame is drawn as the session gave it.
pub proof fn law_rest_of_the_frame_is_the_same(frame: FrameState, local: LocalUi, r: FrameState)
    requires
        is_merged(frame, local, r),
    ensures
        r.composer.content.editor.mode == frame.composer.content.editor.mode,
        r.composer.content.editor.paste_placeholder
            == frame.composer.content.editor.paste_placeholder,
        r.composer.app_info == frame.composer.app_info,
        r.composer.top_rule == frame.composer.top_rule,
        r.composer.bottom_rule == frame.composer.bottom_rule,
        r.operation_status == frame.operation_status,
        r.sub_agent_bar == frame.sub_agent_bar,
        r.footer_hints == frame.footer_hints,
        r.btw == frame.btw,
{
}

/// Without a prompt nothing is pinned.
pub proof fn law_nothing_is_pinned_without_a_prompt(
    frame: FrameState,
    local: LocalUi,
    r: FrameState,
)
    requires
        is_merged(frame, local, r),
        forall|i: int|
            0 <= i < frame.transcript.body.entries@.len() ==> !is_prompt(
                #[trigger] frame.transcript.body.entries@[i],
            ),
    ensures
        r.transcript.header.text is None,
        r.transcript.header.source == HeaderSource::Nothing,
{
    lemma_no_prompt(frame.transcript.body.entries@);
}

proof fn lemma_no_prompt(entries: Seq<TranscriptEntry>)
    requires
        forall|i: int| 0 <= i < entries.len() ==> !is_prompt(#[trigger] entries[i]),
    ensures
        prompt_end(entries) == 0,
    decreases entries.len(),
{
    if entries.len() > 0 {
        let init = entries.drop_last();
        assert(!is_prompt(entries[entries.len() - 1]));
        assert forall|i: int| 0 <= i < init.len() implies !is_prompt(#[trigger] init[i]) by {
            assert(init[i] == entries[i]);
        }
        lemma_no_prompt(init);
    }
}

/// The dialog that is drawn is that of the session, with the request that is looked at and the
/// option that is highlighted; the editor is locked while that request is answered by choosing.
pub proof fn law_dialog_is_shown(frame: FrameState, local: LocalUi, r: FrameState, i: int)
    requires
        is_merged(frame, local, r),
        frame.composer.content.ask is Some,
        frame.composer.content.ask->0.pending@.len() > 0,
    ensures
        ({
            let before = frame.composer.content.ask->0.pending@;
            let after = r.composer.content.ask->0.pending@;
            let k = r.composer.content.ask->0.active_idx as int;
            &&& r.composer.content.ask is Some
            &&& r.composer.content.ask->0.view_mode == frame.composer.content.ask->0.view_mode
            &&& after.len() == before.len()
            &&& k == if local.ask_active < before.len() {
                local.ask_active as int
            } else {
                before.len() - 1
            }
            &&& after[k].prompt_id == before[k].prompt_id
            &&& after[k].options == before[k].options
            &&& after[k].message == before[k].message
            &&& after[k].tool_name == before[k].tool_name
            &&& after[k].answer_with == before[k].answer_with
            &&& after[k].selected_option == if local.ask_selected < before[k].options@.len() {
                local.ask_selected
            } else {
                0
            }
            &&& 0 <= i < before.len() && i != k ==> after[i] == before[i]
            &&& r.composer.content.editor.locked <==> before[k].answer_with == AnswerWith::Choose
        }),
{
}

/// A list is drawn only where no request is open: that of the sessions, or else that of the
/// commands.
pub proof fn law_list_is_shown(frame: FrameState, local: LocalUi, r: FrameState)
    requires
        is_merged(frame, local, r),
        frame.composer.content.ask is None,
    ensures
        r.composer.content.ask is None,
        r.composer.content.picker is Some <==> local.session_picker is Some || command_picker_spec(
            local@,
        ) is Some,
        local.session_picker is Some ==> crate::picker::picker_view(r.composer.content.picker)
            == session_picker_spec(local@),
        local.session_picker is None ==> crate::picker::picker_view(r.composer.content.picker)
            == command_picker_spec(local@),
{
}

/// The prompts of a transcript: a line that is none changes nothing, one that begins a prompt
/// is a new entry, and one that continues it is a new line of the latest entry.
pub proof fn law_prompts_of_a_transcript(es: Seq<TranscriptEntry>, e: TranscriptEntry)
    ensures
        prompts_spec(seq![]).len() == 0,
        ({
            let before = prompts_spec(es);
            let after = prompts_spec(es.push(e));
            &&& !is_prompt(e) ==> after == before
            &&& is_prompt(e) && (!e.continues_previous || before.len() == 0) ==> after
                == before.push(e.text@)
            &&& is_prompt(e) && e.continues_previous && before.len() > 0 ==> after.len()
                == before.len() && after.drop_last() == before.drop_last() && after.last()
                == before.last().push('\n') + e.text@
        }),
{
    assert(es.push(e).drop_last() =~= es);
    let before = prompts_spec(es);
    let after = prompts_spec(es.push(e));
    if is_prompt(e) && e.continues_previous && before.len() > 0 {
        assert(after.drop_last() =~= before.drop_last());
    }
}

} // verus!
