//! What editing, moving, scrolling and selecting come to, in terms of the characters of the
//! draft and the lines of the transcript.

use crate::frame_state::{opt_text, FrameState, TranscriptEntry};
use crate::local_ui::{
    after_last, after_last_white, block_line, blocks_spec, find_text, leading, lemma_find_text,
    UiModel,
};
use crate::text::{is_white, lemma_span, span};
use crate::text_laws::{all_white, law_trim_end_takes_only_white_space};
use crate::ui_laws::{law_blocks_are_all_listed, law_blocks_are_listed_once};
use vstd::prelude::*;

verus! {

// ---- lines of the draft --------------------------------------------------------------

/// No line feed stands between two positions.
pub open spec fn one_line(s: Seq<char>, from: int, to: int) -> bool {
    forall|i: int| from <= i < to ==> #[trigger] s[i] != '\n'
}

/// The line of position `k` begins at `a`.
pub open spec fn begins_line(s: Seq<char>, a: int, k: int) -> bool {
    0 <= a <= k <= s.len() && (a == 0 || s[a - 1] == '\n') && one_line(s, a, k)
}

/// The line of position `k` ends at `b`.
pub open spec fn ends_line(s: Seq<char>, k: int, b: int) -> bool {
    0 <= k <= b <= s.len() && (b == s.len() || s[b] == '\n') && one_line(s, k, b)
}

proof fn lemma_after_last(s: Seq<char>)
    ensures
        begins_line(s, after_last(s, '\n') as int, s.len() as int),
    decreases s.len(),
{
    if s.len() > 0 && s.last() != '\n' {
        let t = s.drop_last();
        lemma_after_last(t);
        let a = after_last(t, '\n') as int;
        assert forall|i: int| a <= i < s.len() implies #[trigger] s[i] != '\n' by {
            if i < t.len() {
                assert(t[i] != '\n');
            }
        }
        if a > 0 {
            assert(t[a - 1] == '\n');
        }
    }
}

proof fn lemma_begins_line(s: Seq<char>, k: int)
    requires
        0 <= k <= s.len(),
    ensures
        begins_line(s, after_last(s.take(k), '\n') as int, k),
{
    let t = s.take(k);
    lemma_after_last(t);
    let a = after_last(t, '\n') as int;
    assert forall|i: int| a <= i < k implies #[trigger] s[i] != '\n' by {
        assert(t[i] != '\n');
    }
    if a > 0 {
        assert(t[a - 1] == s[a - 1]);
    }
}

proof fn lemma_ends_line(s: Seq<char>, k: int)
    requires
        0 <= k <= s.len(),
    ensures
        ends_line(s, k, k + span(s.skip(k), '\n')),
{
    let t = s.skip(k);
    lemma_span(t, '\n');
    let n = span(t, '\n') as int;
    assert forall|i: int| k <= i < k + n implies #[trigger] s[i] != '\n' by {
        assert(t[i - k] != '\n');
    }
    if n < t.len() {
        assert(t[n] == s[k + n]);
    }
}

proof fn lemma_line_is_unique(s: Seq<char>, k: int, a: int, a2: int, b: int, b2: int)
    requires
        0 <= k <= s.len(),
    ensures
        begins_line(s, a, k) && begins_line(s, a2, k) ==> a == a2,
        ends_line(s, k, b) && ends_line(s, k, b2) ==> b == b2,
{
    if begins_line(s, a, k) && begins_line(s, a2, k) {
        if a < a2 {
            assert(s[a2 - 1] != '\n');
        } else if a2 < a {
            assert(s[a - 1] != '\n');
        }
    }
    if ends_line(s, k, b) && ends_line(s, k, b2) {
        if b < b2 {
            assert(s[b] != '\n');
        } else if b2 < b {
            assert(s[b2] != '\n');
        }
    }
}

/// The line of the cursor begins behind the line feed before it, and ends at the next one.
pub proof fn law_line_of_the_cursor(m: UiModel)
    requires
        m.wf(),
    ensures
        begins_line(m.draft, m.line_start(), m.cursor),
        ends_line(m.draft, m.cursor, m.line_end()),
{
    lemma_begins_line(m.draft, m.cursor);
    lemma_ends_line(m.draft, m.cursor);
}

/// A move down keeps the column: the cursor is as far from the start of the next line as it
/// was from the start of its own, or at the end of that line where it is shorter. On the last
/// line it stays.
pub proof fn law_down_keeps_the_column(m: UiModel, delta: int, start: int, end: int, next_end: int)
    requires
        m.wf(),
        delta >= 0,
        begins_line(m.draft, start, m.cursor),
        ends_line(m.draft, m.cursor, end),
        end < m.draft.len() ==> ends_line(m.draft, end + 1, next_end),
    ensures
        end == m.draft.len() ==> m.move_line(delta) == m,
        end < m.draft.len() ==> m.move_line(delta) == (UiModel {
            cursor: end + 1 + if m.cursor - start <= next_end - (end + 1) {
                m.cursor - start
            } else {
                next_end - (end + 1)
            },
            ..m
        }),
{
    law_line_of_the_cursor(m);
    lemma_line_is_unique(m.draft, m.cursor, start, m.line_start(), end, m.line_end());
    if end < m.draft.len() {
        lemma_ends_line(m.draft, end + 1);
        let e = end + 1 + span(m.draft.skip(end + 1), '\n');
        lemma_line_is_unique(m.draft, end + 1, 0, 0, next_end, e);
    }
}

/// A move up keeps the column in the same way. On the first line the cursor stays.
pub proof fn law_up_keeps_the_column(m: UiModel, delta: int, start: int, before_start: int)
    requires
        m.wf(),
        delta < 0,
        begins_line(m.draft, start, m.cursor),
        start > 0 ==> begins_line(m.draft, before_start, start - 1),
    ensures
        start == 0 ==> m.move_line(delta) == m,
        start > 0 ==> m.move_line(delta) == (UiModel {
            cursor: before_start + if m.cursor - start <= start - 1 - before_start {
                m.cursor - start
            } else {
                start - 1 - before_start
            },
            ..m
        }),
{
    let d = m.draft;
    law_line_of_the_cursor(m);
    lemma_line_is_unique(d, m.cursor, start, m.line_start(), 0, 0);
    if start > 0 {
        lemma_begins_line(d, start - 1);
        let b = after_last(d.take(start - 1), '\n') as int;
        lemma_line_is_unique(d, start - 1, before_start, b, 0, 0);
        lemma_ends_line(d, b);
        let e = b + span(d.skip(b), '\n');
        assert(one_line(d, b, start - 1));
        assert(d[start - 1] == '\n');
        assert(ends_line(d, b, start - 1));
        lemma_line_is_unique(d, b, 0, 0, start - 1, e);
    }
}

/// Down and then up leads back, where the next line reaches as far as the cursor stands.
pub proof fn law_up_undoes_down(m: UiModel, start: int, end: int, next_end: int)
    requires
        m.wf(),
        begins_line(m.draft, start, m.cursor),
        ends_line(m.draft, m.cursor, end),
        end < m.draft.len(),
        ends_line(m.draft, end + 1, next_end),
        m.cursor - start <= next_end - (end + 1),
    ensures
        m.move_line(1).move_line(-1) == m,
{
    law_down_keeps_the_column(m, 1, start, end, next_end);
    let below = m.move_line(1);
    let d = m.draft;
    assert(one_line(d, end + 1, below.cursor));
    assert(d[end] == '\n');
    assert(begins_line(d, end + 1, below.cursor));
    assert(begins_line(d, start, end)) by {
        assert forall|i: int| start <= i < end implies #[trigger] d[i] != '\n' by {
        }
    }
    law_up_keeps_the_column(below, -1, end + 1, start);
    assert(below.move_line(-1) =~= m);
}

/// Up and Down walk through the lines of the draft before they reach for the history.
pub proof fn law_lines_come_before_history(m: UiModel)
    requires
        m.wf(),
    ensures
        (exists|i: int| 0 <= i < m.cursor && m.draft[i] == '\n') ==> m.up() == m.move_line(-1),
        !(exists|i: int| 0 <= i < m.cursor && m.draft[i] == '\n') ==> m.up() == m.recall(-1),
        (exists|i: int| m.cursor <= i < m.draft.len() && m.draft[i] == '\n') ==> m.down()
            == m.move_line(1),
        !(exists|i: int| m.cursor <= i < m.draft.len() && m.draft[i] == '\n') ==> m.down()
            == m.recall(1),
{
    law_line_of_the_cursor(m);
    if m.line_start() > 0 {
        assert(m.draft[m.line_start() - 1] == '\n');
    }
    if m.line_end() < m.draft.len() {
        assert(m.draft[m.line_end()] == '\n');
    }
}

// ---- typing and deleting -------------------------------------------------------------

/// The draft changed, with the cursor at a place; nothing else did, but the list of commands
/// starts over.
pub open spec fn edited(m: UiModel, r: UiModel, cursor: int) -> bool {
    r == (UiModel {
        draft: r.draft,
        cursor,
        picker_selected: 0,
        picker_dismissed: false,
        ..m
    })
}

/// The characters from `from` to `to` are gone, and all others are there in order.
pub open spec fn gone(s: Seq<char>, r: Seq<char>, from: int, to: int) -> bool {
    &&& 0 <= from <= to <= s.len()
    &&& r.len() == s.len() - (to - from)
    &&& forall|i: int| 0 <= i < from ==> r[i] == #[trigger] s[i]
    &&& forall|i: int| from <= i < r.len() ==> #[trigger] r[i] == s[i + (to - from)]
}

/// A typed character stands where the cursor stood, and the cursor stands behind it; all
/// characters that were there stay, in order.
pub proof fn law_typing_adds_one_character(m: UiModel, c: char)
    requires
        m.wf(),
    ensures
        edited(m, m.insert(c), m.cursor + 1),
        m.insert(c).draft[m.cursor] == c,
        gone(m.insert(c).draft, m.draft, m.cursor, m.cursor + 1),
{
}

/// Backspace takes the character before the cursor, and Delete the one behind it. At the
/// respective end of the draft they do nothing.
pub proof fn law_deleting_takes_one_character(m: UiModel)
    requires
        m.wf(),
    ensures
        m.cursor == 0 ==> m.delete_backward() == m,
        m.cursor > 0 ==> edited(m, m.delete_backward(), m.cursor - 1) && gone(
            m.draft,
            m.delete_backward().draft,
            m.cursor - 1,
            m.cursor,
        ),
        m.cursor == m.draft.len() ==> m.delete_forward() == m,
        m.cursor < m.draft.len() ==> edited(m, m.delete_forward(), m.cursor) && gone(
            m.draft,
            m.delete_forward().draft,
            m.cursor,
            m.cursor + 1,
        ),
{
}

/// The cursor moves by one character, and stays at the two ends of the draft.
pub proof fn law_moves_by_one_character(m: UiModel, delta: int)
    requires
        m.wf(),
    ensures
        delta < 0 ==> m.move_char(delta) == (UiModel {
            cursor: if m.cursor > 0 {
                m.cursor - 1
            } else {
                0
            },
            ..m
        }),
        delta >= 0 ==> m.move_char(delta) == (UiModel {
            cursor: if m.cursor < m.draft.len() {
                m.cursor + 1
            } else {
                m.cursor
            },
            ..m
        }),
{
}

/// What is killed is the rest of the line, or the line feed where there is no rest.
pub proof fn law_kill_takes_the_rest_of_the_line(m: UiModel, end: int)
    requires
        m.wf(),
        ends_line(m.draft, m.cursor, end),
    ensures
        m.cursor == m.draft.len() ==> m.kill_to_line_end() == m,
        m.cursor < m.draft.len() ==> edited(m, m.kill_to_line_end(), m.cursor) && gone(
            m.draft,
            m.kill_to_line_end().draft,
            m.cursor,
            if end > m.cursor {
                end
            } else {
                m.cursor + 1
            },
        ),
{
    law_line_of_the_cursor(m);
    lemma_line_is_unique(m.draft, m.cursor, 0, 0, end, m.line_end());
}

// ---- words ---------------------------------------------------------------------------

/// No white space stands between two positions.
pub open spec fn one_word(s: Seq<char>, from: int, to: int) -> bool {
    forall|i: int| from <= i < to ==> !is_white(#[trigger] s[i])
}

proof fn lemma_after_last_white(s: Seq<char>)
    ensures
        0 <= after_last_white(s) <= s.len(),
        one_word(s, after_last_white(s) as int, s.len() as int),
        after_last_white(s) > 0 ==> is_white(s[after_last_white(s) - 1]),
    decreases s.len(),
{
    if s.len() > 0 && !is_white(s.last()) {
        let t = s.drop_last();
        lemma_after_last_white(t);
        let a = after_last_white(t) as int;
        assert forall|i: int| a <= i < s.len() implies !is_white(#[trigger] s[i]) by {
            if i < t.len() {
                assert(!is_white(t[i]));
            }
        }
        if a > 0 {
            assert(t[a - 1] == s[a - 1]);
        }
    }
}

proof fn lemma_leading(s: Seq<char>, white: bool)
    ensures
        leading(s, white) <= s.len(),
        forall|i: int| 0 <= i < leading(s, white) ==> is_white(#[trigger] s[i]) == white,
        leading(s, white) < s.len() ==> is_white(s[leading(s, white) as int]) != white,
    decreases s.len(),
{
    if s.len() > 0 && is_white(s[0]) == white {
        let t = s.drop_first();
        lemma_leading(t, white);
        assert forall|i: int| 0 <= i < leading(s, white) implies is_white(#[trigger] s[i])
            == white by {
            if i > 0 {
                assert(is_white(t[i - 1]) == white);
            }
        }
        if leading(s, white) < s.len() {
            assert(t[leading(t, white) as int] == s[leading(s, white) as int]);
        }
    }
}

/// A word to the left: first past the white space, which ends at `p`, then past the word.
pub proof fn law_word_left(m: UiModel) -> (p: int)
    requires
        m.wf(),
    ensures
        0 <= m.word_left() <= p <= m.cursor,
        all_white(m.draft, p, m.cursor),
        p > 0 ==> !is_white(m.draft[p - 1]) && m.word_left() < p,
        one_word(m.draft, m.word_left(), p),
        m.word_left() > 0 ==> is_white(m.draft[m.word_left() - 1]),
        forall|delta: int| delta < 0 ==> #[trigger] m.move_word(delta) == (UiModel {
            cursor: m.word_left(),
            ..m
        }),
{
    let head = m.draft.take(m.cursor);
    let p = law_trim_end_takes_only_white_space(head);
    let t = head.take(p);
    lemma_after_last_white(t);
    let w = m.word_left();
    assert(w == after_last_white(t));
    assert forall|i: int| p <= i < m.cursor implies is_white(#[trigger] m.draft[i]) by {
        assert(is_white(head[i]));
    }
    assert forall|i: int| w <= i < p implies !is_white(#[trigger] m.draft[i]) by {
        assert(!is_white(t[i]));
    }
    if w > 0 {
        assert(t[w - 1] == m.draft[w - 1]);
    }
    if p > 0 {
        assert(head[p - 1] == m.draft[p - 1]);
        assert(t.last() == head[p - 1]);
    }
    p
}

/// A word to the right: first past the white space, which ends at `p`, then past the word.
pub proof fn law_word_right(m: UiModel) -> (p: int)
    requires
        m.wf(),
    ensures
        m.cursor <= p <= m.word_right() <= m.draft.len(),
        all_white(m.draft, m.cursor, p),
        p < m.draft.len() ==> !is_white(m.draft[p]) && p < m.word_right(),
        one_word(m.draft, p, m.word_right()),
        m.word_right() < m.draft.len() ==> is_white(m.draft[m.word_right()]),
        forall|delta: int| delta >= 0 ==> #[trigger] m.move_word(delta) == (UiModel {
            cursor: m.word_right(),
            ..m
        }),
{
    let rest = m.draft.skip(m.cursor);
    lemma_leading(rest, true);
    let p = m.cursor + leading(rest, true);
    let tail = m.draft.skip(p);
    lemma_leading(tail, false);
    let w = p + leading(tail, false);
    assert forall|i: int| m.cursor <= i < p implies is_white(#[trigger] m.draft[i]) by {
        assert(is_white(rest[i - m.cursor]));
    }
    assert forall|i: int| p <= i < w implies !is_white(#[trigger] m.draft[i]) by {
        assert(!is_white(tail[i - p]));
    }
    if p < m.draft.len() {
        assert(rest[p - m.cursor] == m.draft[p]);
        assert(tail[0] == m.draft[p]);
    }
    if w < m.draft.len() {
        assert(tail[w - p] == m.draft[w]);
    }
    p
}

/// Deleting a word takes what lies between the cursor and where a word to the left leads.
pub proof fn law_delete_word_takes_the_word_to_the_left(m: UiModel)
    requires
        m.wf(),
    ensures
        m.cursor == 0 ==> m.delete_word_before() == m,
        m.cursor > 0 ==> edited(m, m.delete_word_before(), m.move_word(-1).cursor) && gone(
            m.draft,
            m.delete_word_before().draft,
            m.move_word(-1).cursor,
            m.cursor,
        ),
{
    let p = law_word_left(m);
    if m.cursor > 0 && m.word_left() == m.cursor {
        assert(p == m.cursor);
    }
}

// ---- history -------------------------------------------------------------------------

/// A step back shows the entry before the one that is looked at, from the latest on and down
/// to the oldest, with the cursor behind it. The draft is put aside on the first step.
pub proof fn law_step_back_shows_the_entry_before(m: UiModel)
    requires
        m.wf(),
        0 < m.history.len() <= usize::MAX,
    ensures
        ({
            let r = m.recall(-1);
            let i = match m.history_pos {
                None => m.history.len() - 1,
                Some(p) => if p > 0 {
                    p - 1
                } else {
                    0
                },
            };
            &&& edited(
                m,
                UiModel { history_pos: m.history_pos, history_stash: m.history_stash, ..r },
                r.draft.len() as int,
            )
            &&& r.draft == m.history[i]
            &&& r.history_pos matches Some(q) && q == i
            &&& r.history_stash == if m.history_pos is None {
                m.draft
            } else {
                m.history_stash
            }
        }),
{
}

/// A step forth shows the entry behind; past the latest one the draft that was put aside comes
/// back. Where no entry is looked at nothing happens.
pub proof fn law_step_forth_shows_the_entry_behind(m: UiModel)
    requires
        m.wf(),
        m.history.len() <= usize::MAX,
    ensures
        m.history_pos is None ==> m.recall(1) == m,
        m.history_pos matches Some(p) ==> {
            let r = m.recall(1);
            let last = p + 1 == m.history.len();
            &&& edited(
                m,
                UiModel { history_pos: m.history_pos, history_stash: m.history_stash, ..r },
                r.draft.len() as int,
            )
            &&& r.draft == if last {
                m.history_stash
            } else {
                m.history[p + 1]
            }
            &&& last ==> r.history_pos is None && r.history_stash.len() == 0
            &&& !last ==> r.history_pos == Some((p + 1) as usize) && r.history_stash
                == m.history_stash
        },
{
}

/// Without a history there is nothing to recall.
pub proof fn law_nothing_to_recall(m: UiModel, delta: int)
    requires
        m.history.len() == 0,
    ensures
        m.recall(delta) == m,
{
}

/// A submitted text is the latest entry; the entries before it stay, and only the history
/// changes.
pub proof fn law_remembering_keeps_the_earlier_entries(m: UiModel, text: Seq<char>)
    ensures
        m.remember(text).history.last() == text,
        m.history.is_prefix_of(m.remember(text).history),
        m.remember(text).history.len() <= m.history.len() + 1,
        m.history.len() > 0 && m.history.last() == text ==> m.remember(text).history == m.history,
        m.remember(text) == (UiModel {
            history: m.remember(text).history,
            history_pos: None,
            history_stash: seq![],
            ..m
        }),
{
}

// ---- scrolling -----------------------------------------------------------------------

/// Page up shows the page before: the first line shown moves up by the height of the view, and
/// not beyond the first line. A transcript that fits is not scrolled.
pub proof fn law_page_up_moves_by_a_page(m: UiModel, total: int)
    requires
        0 <= total <= usize::MAX,
        m.viewport_lines > 0,
    ensures
        total <= m.viewport_lines ==> m.scroll_up(total) == m,
        total > m.viewport_lines ==> {
            let first = match m.scroll_offset {
                Some(n) => n as int,
                None => total - m.viewport_lines,
            };
            &&& m.scroll_up(total).scroll_offset matches Some(n)
            &&& n == if first >= m.viewport_lines {
                first - m.viewport_lines
            } else {
                0
            }
            &&& m.scroll_up(total) == (UiModel { scroll_offset: Some(n), ..m })
        },
{
}

/// Page down shows the page behind. Where that is the last one, the view follows the end again.
pub proof fn law_page_down_moves_by_a_page(m: UiModel, total: int)
    requires
        0 <= total <= usize::MAX,
        m.viewport_lines > 0,
    ensures
        m.scroll_offset is None ==> m.scroll_down(total) == m,
        m.scroll_offset matches Some(n) ==> {
            let on_last_page = n + 2 * m.viewport_lines >= total;
            &&& on_last_page ==> m.scroll_down(total) == (UiModel { scroll_offset: None, ..m })
            &&& !on_last_page ==> m.scroll_down(total) == (UiModel {
                scroll_offset: Some((n + m.viewport_lines) as usize),
                ..m
            })
        },
{
}

/// A view without a height scrolls line by line.
pub proof fn law_no_height_scrolls_by_a_line(m: UiModel, total: int)
    requires
        0 <= total <= usize::MAX,
        m.viewport_lines == 0,
    ensures
        ({
            let n = UiModel { viewport_lines: 1, ..m };
            &&& m.scroll_up(total).scroll_offset == n.scroll_up(total).scroll_offset
            &&& m.scroll_down(total).scroll_offset == n.scroll_down(total).scroll_offset
        }),
{
}

// ---- selecting -----------------------------------------------------------------------

/// Line `i` is the first line of block `id`.
pub open spec fn is_first_line(entries: Seq<TranscriptEntry>, id: Seq<char>, i: int) -> bool {
    &&& 0 <= i < entries.len()
    &&& opt_text(entries[i].block_id) == Some(id)
    &&& forall|j: int| 0 <= j < i ==> opt_text((#[trigger] entries[j]).block_id) != Some(id)
}

proof fn lemma_block_line(entries: Seq<TranscriptEntry>, id: Seq<char>)
    ensures
        block_line(entries, id) <= entries.len(),
        block_line(entries, id) < entries.len() ==> is_first_line(
            entries,
            id,
            block_line(entries, id) as int,
        ),
        forall|j: int|
            0 <= j < block_line(entries, id) ==> opt_text((#[trigger] entries[j]).block_id) != Some(
                id,
            ),
    decreases entries.len(),
{
    if entries.len() > 0 && opt_text(entries[0].block_id) != Some(id) {
        let t = entries.drop_first();
        lemma_block_line(t, id);
        assert forall|j: int| 0 <= j < block_line(entries, id) implies opt_text(
            (#[trigger] entries[j]).block_id,
        ) != Some(id) by {
            if j > 0 {
                assert(opt_text(t[j - 1].block_id) != Some(id));
            }
        }
    }
}

/// The blocks stand in the order of their first lines.
pub proof fn law_blocks_are_in_order(
    entries: Seq<TranscriptEntry>,
    a: int,
    b: int,
    i: int,
    j: int,
)
    requires
        0 <= a < b < blocks_spec(entries).len(),
        is_first_line(entries, blocks_spec(entries)[a], i),
        is_first_line(entries, blocks_spec(entries)[b], j),
    ensures
        i < j,
    decreases entries.len(),
{
    let init = entries.drop_last();
    let before = blocks_spec(init);
    let all = blocks_spec(entries);
    if b < before.len() {
        law_blocks_are_all_listed(init, before[a]);
        law_blocks_are_all_listed(init, before[b]);
        assert(before.contains(before[a]) && before.contains(before[b]));
        lemma_first_line_of_init(entries, before[a], i);
        lemma_first_line_of_init(entries, before[b], j);
        law_blocks_are_in_order(init, a, b, i, j);
    } else {
        law_blocks_are_all_listed(init, all[b]);
        law_blocks_are_all_listed(init, before[a]);
        assert(before.contains(before[a]));
        lemma_first_line_of_init(entries, before[a], i);
        if j < init.len() {
            assert(init[j] == entries[j]);
        }
    }
}

proof fn lemma_first_line_of_init(entries: Seq<TranscriptEntry>, id: Seq<char>, i: int)
    requires
        entries.len() > 0,
        is_first_line(entries, id, i),
        exists|k: int|
            0 <= k < entries.drop_last().len() && opt_text(
                (#[trigger] entries.drop_last()[k]).block_id,
            ) == Some(id),
    ensures
        is_first_line(entries.drop_last(), id, i),
{
    let init = entries.drop_last();
    let k = choose|k: int| 0 <= k < init.len() && opt_text((#[trigger] init[k]).block_id) == Some(id);
    assert(entries[k] == init[k]);
    assert(i <= k);
    assert forall|j: int| 0 <= j < i implies opt_text((#[trigger] init[j]).block_id) != Some(
        id,
    ) by {
        assert(init[j] == entries[j]);
    }
}

/// The selection moves from block to block: a step leads to the neighbour on that side. It
/// ends at the oldest block, and past the latest one nothing is selected. From no selection a
/// step back leads to the latest block, and a step forth nowhere.
pub proof fn law_selection_moves_to_the_neighbour(
    m: UiModel,
    entries: Seq<TranscriptEntry>,
    i: int,
)
    requires
        m.selected_block is Some,
        0 <= i < blocks_spec(entries).len(),
        m.selected_block == Some(blocks_spec(entries)[i]),
    ensures
        m.select_block(entries, -1).selected_block == Some(
            blocks_spec(entries)[if i > 0 {
                i - 1
            } else {
                0
            }],
        ),
        i + 1 < blocks_spec(entries).len() ==> m.select_block(entries, 1).selected_block == Some(
            blocks_spec(entries)[i + 1],
        ),
        i + 1 == blocks_spec(entries).len() ==> m.select_block(entries, 1).selected_block is None,
{
    let blocks = blocks_spec(entries);
    law_blocks_are_listed_once(entries);
    lemma_find_text(blocks, blocks[i]);
    assert(blocks.contains(blocks[i]));
}

pub proof fn law_selection_begins_at_the_latest(m: UiModel, entries: Seq<TranscriptEntry>)
    requires
        m.selected_block is None,
    ensures
        m.select_block(entries, 1) == m,
        blocks_spec(entries).len() == 0 ==> m.select_block(entries, -1) == m,
        blocks_spec(entries).len() > 0 ==> m.select_block(entries, -1).selected_block == Some(
            blocks_spec(entries).last(),
        ),
{
}

/// The selection moves by as many blocks as it is told to; it stops at the first block, and
/// beyond the last one nothing is selected.
pub proof fn law_selection_moves_by_blocks(
    m: UiModel,
    entries: Seq<TranscriptEntry>,
    i: int,
    delta: int,
)
    requires
        0 <= i < blocks_spec(entries).len(),
        m.selected_block == Some(blocks_spec(entries)[i]),
    ensures
        ({
            let blocks = blocks_spec(entries);
            let selected = m.select_block(entries, delta).selected_block;
            &&& 0 <= i + delta < blocks.len() ==> selected == Some(blocks[i + delta])
            &&& i + delta < 0 ==> selected == Some(blocks[0])
            &&& i + delta >= blocks.len() ==> selected is None
        }),
{
    let blocks = blocks_spec(entries);
    law_blocks_are_listed_once(entries);
    lemma_find_text(blocks, blocks[i]);
    assert(blocks.contains(blocks[i]));
    assert(blocks[find_text(blocks, blocks[i]) as int] == blocks[i]);
}

/// A selection whose block is gone is none: backwards it begins at the latest block, and
/// forwards nothing happens.
pub proof fn law_lost_selection_begins_anew(
    m: UiModel,
    entries: Seq<TranscriptEntry>,
    id: Seq<char>,
)
    requires
        m.selected_block == Some(id),
        !blocks_spec(entries).contains(id),
    ensures
        m.select_block(entries, 1) == m,
        blocks_spec(entries).len() == 0 ==> m.select_block(entries, -1) == m,
        blocks_spec(entries).len() > 0 ==> m.select_block(entries, -1) == (UiModel {
            selected_block: None,
            ..m
        }).select_block(entries, -1),
{
    lemma_find_text(blocks_spec(entries), id);
}

/// The selected block is on the screen after a move: its first line is the first line shown,
/// or the view follows the end and the block begins on the last page. Nothing but the
/// selection and the scroll position changes.
pub proof fn law_selected_block_is_on_the_screen(
    m: UiModel,
    entries: Seq<TranscriptEntry>,
    delta: int,
    first: int,
)
    requires
        m.viewport_lines > 0,
        entries.len() <= usize::MAX,
        m.selected_block matches Some(id) ==> blocks_spec(entries).contains(id),
        m.selected_block is Some || delta < 0,
        m.select_block(entries, delta).selected_block is Some,
        is_first_line(entries, m.select_block(entries, delta).selected_block->0, first),
        blocks_spec(entries).len() > 0,
    ensures
        ({
            let r = m.select_block(entries, delta);
            &&& r == (UiModel {
                selected_block: r.selected_block,
                scroll_offset: r.scroll_offset,
                ..m
            })
            &&& first + m.viewport_lines >= entries.len() ==> r.scroll_offset is None
            &&& first + m.viewport_lines < entries.len() ==> r.scroll_offset == Some(
                first as usize,
            )
        }),
{
    let r = m.select_block(entries, delta);
    let id = r.selected_block->0;
    let blocks = blocks_spec(entries);
    lemma_block_line(entries, id);
    if m.selected_block is Some {
        lemma_find_text(blocks, m.selected_block->0);
    }
    let k = block_line(entries, id) as int;
    if k < first {
        assert(opt_text(entries[k].block_id) != Some(id));
    }
}

/// Where nothing is selected any more the view follows the end.
pub proof fn law_clearing_the_selection_follows_the_end(
    m: UiModel,
    entries: Seq<TranscriptEntry>,
    delta: int,
)
    requires
        m.selected_block matches Some(id) && blocks_spec(entries).contains(id),
        m.select_block(entries, delta).selected_block is None,
    ensures
        m.select_block(entries, delta) == (UiModel {
            selected_block: None,
            scroll_offset: None,
            ..m
        }),
{
    lemma_find_text(blocks_spec(entries), m.selected_block->0);
}

// ---- the dialog ----------------------------------------------------------------------

/// A request that is looked at and an option that is highlighted stay so, as long as they are
/// there. Where they are not, the last request and its first option take their place.
pub proof fn law_reconcile_keeps_what_is_there(m: UiModel, frame: FrameState)
    requires
        frame.composer.content.ask is Some,
        frame.composer.content.ask->0.pending@.len() <= usize::MAX,
    ensures
        ({
            let pending = frame.composer.content.ask->0.pending@;
            let r = m.reconcile(frame);
            &&& m.ask_active < pending.len() ==> r.ask_active == m.ask_active
            &&& m.ask_active >= pending.len() && pending.len() > 0 ==> r.ask_active
                == pending.len() - 1
            &&& pending.len() > 0 ==> (m.ask_selected < pending[r.ask_active as int].options@.len()
                ==> r.ask_selected == m.ask_selected)
            &&& pending.len() > 0 ==> (m.ask_selected >= pending[r.ask_active as int].options@.len()
                ==> r.ask_selected == 0)
            &&& r.session_picker is None
            &&& r == (UiModel {
                ask_active: r.ask_active,
                ask_selected: r.ask_selected,
                session_picker: None,
                picker_selected: 0,
                ..m
            })
        }),
{
}

/// Without a request the dialog starts over, and an open list stays open.
pub proof fn law_reconcile_without_a_request(m: UiModel, frame: FrameState)
    requires
        frame.composer.content.ask is None,
    ensures
        m.reconcile(frame) == (UiModel { ask_selected: 0, ask_active: 0, ..m }),
{
}

} // verus!
