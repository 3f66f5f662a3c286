//! What only the terminal knows: the draft and its cursor, the scroll position, the
//! selections and the input history.
//!
//! [`UiModel`] is the state as mathematics, with the cursor counted in characters. Each
//! operation on [`LocalUi`] is stated as an operation on the model.

use crate::frame_state::{
    candidates_view, opt_text, CandidateView, FrameState, PickerCandidate, TranscriptEntry,
};
use crate::text::{
    byte_len, char_pos, chars_of, count_chars_before, is_boundary, is_white, is_whitespace,
    lemma_char_pos_of_prefix, lemma_prefix_step, lemma_span_is, span, string_of, text_len, texts,
    trim_end_spec, utf8_len,
};
use vstd::prelude::*;
use vstd::string::*;

verus! {

/// The state of the terminal that the engine never sees.
#[derive(Debug, Clone)]
pub struct LocalUi {
    pub draft: String,
    /// A byte offset in `draft`, always between two characters.
    pub cursor: usize,
    /// The slash commands that the engine offers.
    pub commands: Vec<PickerCandidate>,
    pub picker_selected: usize,
    /// The sessions to pick from, while that list is open.
    pub session_picker: Option<Vec<PickerCandidate>>,
    /// The command list was closed; the next change of the draft opens it again.
    pub picker_dismissed: bool,
    pub ask_selected: usize,
    pub ask_active: usize,
    /// `None` follows the end of the transcript.
    pub scroll_offset: Option<usize>,
    pub selected_block: Option<String>,
    /// What was submitted, oldest first.
    pub history: Vec<String>,
    /// Which entry of the history is being looked at.
    pub history_pos: Option<usize>,
    /// The draft as it was before the history was entered.
    pub history_stash: String,
    /// The height of the transcript on the last frame.
    pub viewport_lines: usize,
    pub redraw_requested: bool,
}

/// The state of [`LocalUi`] over mathematical types.
#[verifier::ext_equal]
pub struct UiModel {
    pub draft: Seq<char>,
    /// How many characters of the draft stand before the cursor.
    pub cursor: int,
    pub commands: Seq<CandidateView>,
    pub picker_selected: usize,
    pub session_picker: Option<Seq<CandidateView>>,
    pub picker_dismissed: bool,
    pub ask_selected: usize,
    pub ask_active: usize,
    pub scroll_offset: Option<usize>,
    pub selected_block: Option<Seq<char>>,
    pub history: Seq<Seq<char>>,
    pub history_pos: Option<usize>,
    pub history_stash: Seq<char>,
    pub viewport_lines: usize,
    pub redraw_requested: bool,
}

impl View for LocalUi {
    type V = UiModel;

    open spec fn view(&self) -> UiModel {
        UiModel {
            draft: self.draft@,
            cursor: char_pos(self.draft@, self.cursor as nat) as int,
            commands: candidates_view(self.commands@),
            picker_selected: self.picker_selected,
            session_picker: match self.session_picker {
                Some(v) => Some(candidates_view(v@)),
                None => None,
            },
            picker_dismissed: self.picker_dismissed,
            ask_selected: self.ask_selected,
            ask_active: self.ask_active,
            scroll_offset: self.scroll_offset,
            selected_block: opt_text(self.selected_block),
            history: texts(self.history@),
            history_pos: self.history_pos,
            history_stash: self.history_stash@,
            viewport_lines: self.viewport_lines,
            redraw_requested: self.redraw_requested,
        }
    }
}

/// The position behind the last `c` of `s`, or 0 where there is none.
pub open spec fn after_last(s: Seq<char>, c: char) -> nat
    decreases s.len(),
{
    if s.len() == 0 {
        0
    } else if s.last() == c {
        s.len()
    } else {
        after_last(s.drop_last(), c)
    }
}

/// The position behind the last white space of `s`, or 0 where there is none.
pub open spec fn after_last_white(s: Seq<char>) -> nat
    decreases s.len(),
{
    if s.len() == 0 {
        0
    } else if is_white(s.last()) {
        s.len()
    } else {
        after_last_white(s.drop_last())
    }
}

/// How many characters at the front of `s` are white space (or, with `white` false, are not).
pub open spec fn leading(s: Seq<char>, white: bool) -> nat
    decreases s.len(),
{
    if s.len() == 0 || is_white(s[0]) != white {
        0
    } else {
        1 + leading(s.drop_first(), white)
    }
}

pub proof fn lemma_after_last_bound(s: Seq<char>, c: char)
    ensures
        after_last(s, c) <= s.len(),
        after_last(s, c) > 0 ==> s[after_last(s, c) - 1] == c,
    decreases s.len(),
{
    if s.len() > 0 {
        lemma_after_last_bound(s.drop_last(), c);
    }
}

pub proof fn lemma_after_last_white_bound(s: Seq<char>)
    ensures
        after_last_white(s) <= s.len(),
    decreases s.len(),
{
    if s.len() > 0 {
        lemma_after_last_white_bound(s.drop_last());
    }
}

pub proof fn lemma_leading_bound(s: Seq<char>, white: bool)
    ensures
        leading(s, white) <= s.len(),
    decreases s.len(),
{
    if s.len() > 0 && is_white(s[0]) == white {
        lemma_leading_bound(s.drop_first(), white);
    }
}

pub proof fn lemma_trim_end_prefix(s: Seq<char>)
    ensures
        trim_end_spec(s).len() <= s.len(),
        trim_end_spec(s) =~= s.take(trim_end_spec(s).len() as int),
    decreases s.len(),
{
    if s.len() > 0 && is_white(s.last()) {
        lemma_trim_end_prefix(s.drop_last());
    }
}

impl UiModel {
    pub open spec fn wf(self) -> bool {
        &&& 0 <= self.cursor <= self.draft.len()
        &&& self.history_pos matches Some(i) ==> i < self.history.len()
    }

    /// The draft was touched: the command list starts over.
    pub open spec fn noted(self) -> UiModel {
        UiModel { picker_selected: 0, picker_dismissed: false, ..self }
    }

    /// A character typed at the cursor.
    pub open spec fn insert(self, c: char) -> UiModel {
        UiModel {
            draft: self.draft.insert(self.cursor, c),
            cursor: self.cursor + 1,
            ..self.noted()
        }
    }

    /// The text between two positions taken out; the cursor stands where it was.
    pub open spec fn cut(self, from: int, to: int) -> UiModel {
        UiModel { draft: self.draft.take(from) + self.draft.skip(to), cursor: from, ..self.noted() }
    }

    pub open spec fn delete_backward(self) -> UiModel {
        if self.cursor == 0 {
            self
        } else {
            self.cut(self.cursor - 1, self.cursor)
        }
    }

    pub open spec fn delete_forward(self) -> UiModel {
        if self.cursor == self.draft.len() {
            self
        } else {
            self.cut(self.cursor, self.cursor + 1)
        }
    }

    /// Where the word before the cursor begins: the white space at the cursor is skipped
    /// first.
    pub open spec fn word_left(self) -> int {
        after_last_white(trim_end_spec(self.draft.take(self.cursor))) as int
    }

    /// Where the word behind the cursor ends: the white space at the cursor is skipped
    /// first.
    pub open spec fn word_right(self) -> int {
        let a = self.cursor + leading(self.draft.skip(self.cursor), true);
        a + leading(self.draft.skip(a), false)
    }

    pub open spec fn word_boundary(self, delta: int) -> int {
        if delta < 0 {
            self.word_left()
        } else {
            self.word_right()
        }
    }

    pub open spec fn delete_word_before(self) -> UiModel {
        if self.word_left() == self.cursor {
            self
        } else {
            self.cut(self.word_left(), self.cursor)
        }
    }

    /// Where the line of the cursor begins.
    pub open spec fn line_start(self) -> int {
        after_last(self.draft.take(self.cursor), '\n') as int
    }

    /// Where the line of the cursor ends: at its line feed, or at the end of the draft.
    pub open spec fn line_end(self) -> int {
        self.cursor + span(self.draft.skip(self.cursor), '\n')
    }

    pub open spec fn prev_boundary(self) -> int {
        if self.cursor == 0 {
            0
        } else {
            self.cursor - 1
        }
    }

    pub open spec fn next_boundary(self) -> int {
        if self.cursor == self.draft.len() {
            self.cursor
        } else {
            self.cursor + 1
        }
    }

    /// Cuts to the end of the line; at the end of a line, cuts its line feed.
    pub open spec fn kill_to_line_end(self) -> UiModel {
        let cut = if self.line_end() == self.cursor {
            self.next_boundary()
        } else {
            self.line_end()
        };
        if cut == self.cursor {
            self
        } else {
            self.cut(self.cursor, cut)
        }
    }

    pub open spec fn at(self, cursor: int) -> UiModel {
        UiModel { cursor, ..self }
    }

    pub open spec fn move_char(self, delta: int) -> UiModel {
        if delta < 0 {
            self.at(self.prev_boundary())
        } else {
            self.at(self.next_boundary())
        }
    }

    pub open spec fn move_word(self, delta: int) -> UiModel {
        self.at(self.word_boundary(delta))
    }

    /// The position in the line that starts at `start` which has the column of the cursor,
    /// or the end of that line where it is shorter.
    pub open spec fn same_column(self, start: int) -> int {
        let column = self.cursor - self.line_start();
        let len = span(self.draft.skip(start), '\n') as int;
        start + if column <= len {
            column
        } else {
            len
        }
    }

    /// One line up or down; on the first or last line the cursor stays.
    pub open spec fn move_line(self, delta: int) -> UiModel {
        if delta < 0 {
            if self.line_start() == 0 {
                self
            } else {
                self.at(
                    self.same_column(
                        after_last(self.draft.take(self.line_start() - 1), '\n') as int,
                    ),
                )
            }
        } else {
            if self.line_end() == self.draft.len() {
                self
            } else {
                self.at(self.same_column(self.line_end() + 1))
            }
        }
    }

    /// The history entry `i` becomes the draft, with the cursor at its end.
    pub open spec fn showing(self, i: int) -> UiModel {
        UiModel {
            draft: self.history[i],
            cursor: self.history[i].len() as int,
            history_pos: Some(i as usize),
            ..self.noted()
        }
    }

    /// One step back or forth in the history. The first step back puts the draft aside; the
    /// step past the latest entry brings it back.
    pub open spec fn recall(self, delta: int) -> UiModel {
        if self.history.len() == 0 {
            self
        } else if delta < 0 {
            match self.history_pos {
                None => UiModel { history_stash: self.draft, ..self }.showing(
                    self.history.len() - 1,
                ),
                Some(i) => self.showing(
                    if i == 0 {
                        0
                    } else {
                        i - 1
                    },
                ),
            }
        } else {
            match self.history_pos {
                None => self,
                Some(i) => if i + 1 < self.history.len() {
                    self.showing(i + 1)
                } else {
                    UiModel {
                        draft: self.history_stash,
                        cursor: self.history_stash.len() as int,
                        history_stash: seq![],
                        history_pos: None,
                        ..self.noted()
                    }
                },
            }
        }
    }

    /// Up: through the lines of the draft first, then into the history.
    pub open spec fn up(self) -> UiModel {
        if self.line_start() > 0 {
            self.move_line(-1)
        } else {
            self.recall(-1)
        }
    }

    pub open spec fn down(self) -> UiModel {
        if self.line_end() < self.draft.len() {
            self.move_line(1)
        } else {
            self.recall(1)
        }
    }

    /// A submitted text joins the history, unless it repeats the latest entry.
    pub open spec fn remember(self, text: Seq<char>) -> UiModel {
        UiModel {
            history: if self.history.len() > 0 && self.history.last() == text {
                self.history
            } else {
                self.history.push(text)
            },
            history_pos: None,
            history_stash: seq![],
            ..self
        }
    }
}

/// The blocks of a transcript in order of appearance, each of them once.
pub open spec fn blocks_spec(entries: Seq<TranscriptEntry>) -> Seq<Seq<char>>
    decreases entries.len(),
{
    if entries.len() == 0 {
        seq![]
    } else {
        let before = blocks_spec(entries.drop_last());
        match opt_text(entries.last().block_id) {
            Some(id) => if before.contains(id) {
                before
            } else {
                before.push(id)
            },
            None => before,
        }
    }
}

/// How many texts stand before the first one equal to `x`.
pub open spec fn find_text(s: Seq<Seq<char>>, x: Seq<char>) -> nat
    decreases s.len(),
{
    if s.len() == 0 || s[0] == x {
        0
    } else {
        1 + find_text(s.drop_first(), x)
    }
}

pub proof fn lemma_find_text(s: Seq<Seq<char>>, x: Seq<char>)
    ensures
        find_text(s, x) <= s.len(),
        find_text(s, x) < s.len() <==> s.contains(x),
        find_text(s, x) < s.len() ==> s[find_text(s, x) as int] == x,
    decreases s.len(),
{
    if s.len() > 0 && s[0] != x {
        let t = s.drop_first();
        lemma_find_text(t, x);
        if t.contains(x) {
            let i = choose|i: int| 0 <= i < t.len() && t[i] == x;
            assert(s[i + 1] == x);
        }
        if s.contains(x) {
            let i = choose|i: int| 0 <= i < s.len() && s[i] == x;
            assert(t[i - 1] == x);
        }
    }
}

/// How many lines stand before the first one of block `id`.
pub open spec fn block_line(entries: Seq<TranscriptEntry>, id: Seq<char>) -> nat
    decreases entries.len(),
{
    if entries.len() == 0 || opt_text(entries[0].block_id) == Some(id) {
        0
    } else {
        1 + block_line(entries.drop_first(), id)
    }
}

/// The larger of a height and 1.
pub open spec fn page(viewport_lines: usize) -> int {
    if viewport_lines == 0 {
        1
    } else {
        viewport_lines as int
    }
}

/// A difference that stops at 0.
pub open spec fn minus(a: int, b: int) -> int {
    if a >= b {
        a - b
    } else {
        0
    }
}

impl UiModel {
    /// The selected block scrolled into view: where it is on the last page the view follows
    /// the end again.
    pub open spec fn revealed(self, entries: Seq<TranscriptEntry>) -> UiModel {
        match self.selected_block {
            None => UiModel { scroll_offset: None, ..self },
            Some(id) => {
                let first = block_line(entries, id) as int;
                if first >= entries.len() {
                    self
                } else if first >= minus(entries.len() as int, page(self.viewport_lines)) {
                    UiModel { scroll_offset: None, ..self }
                } else {
                    UiModel { scroll_offset: Some(first as usize), ..self }
                }
            },
        }
    }

    /// The place of the selected block among the blocks.
    pub open spec fn selected_index(self, blocks: Seq<Seq<char>>) -> Option<int> {
        match self.selected_block {
            Some(id) => if find_text(blocks, id) < blocks.len() {
                Some(find_text(blocks, id) as int)
            } else {
                None
            },
            None => None,
        }
    }

    /// The selection moved by `delta` blocks. Moving past the latest block clears it; from
    /// no selection only a move back leads anywhere, to the latest block.
    pub open spec fn select_block(self, entries: Seq<TranscriptEntry>, delta: int) -> UiModel {
        let blocks = blocks_spec(entries);
        if blocks.len() == 0 {
            self
        } else {
            match self.selected_index(blocks) {
                None => if delta < 0 {
                    UiModel { selected_block: Some(blocks.last()), ..self }.revealed(entries)
                } else {
                    self
                },
                Some(i) => {
                    let next = i + delta;
                    let selected_block = if next < 0 {
                        Some(blocks[0])
                    } else if next >= blocks.len() {
                        None
                    } else {
                        Some(blocks[next])
                    };
                    UiModel { selected_block, ..self }.revealed(entries)
                },
            }
        }
    }

    /// One page up. A transcript that fits on the page has nothing to scroll.
    pub open spec fn scroll_up(self, total: int) -> UiModel {
        let page = page(self.viewport_lines);
        if total <= page {
            self
        } else {
            let top = match self.scroll_offset {
                Some(n) => n as int,
                None => total - page,
            };
            UiModel { scroll_offset: Some(minus(top, page) as usize), ..self }
        }
    }

    /// One page down. At the end the view follows again.
    pub open spec fn scroll_down(self, total: int) -> UiModel {
        let page = page(self.viewport_lines);
        match self.scroll_offset {
            None => self,
            Some(top) => if top + page >= minus(total, page) {
                UiModel { scroll_offset: None, ..self }
            } else {
                UiModel { scroll_offset: Some((top + page) as usize), ..self }
            },
        }
    }

    pub open spec fn reset_ask_cursor(self) -> UiModel {
        UiModel { ask_selected: 0, ask_active: 0, ..self }
    }

    pub open spec fn open_picker(self, candidates: Seq<CandidateView>) -> UiModel {
        UiModel { session_picker: Some(candidates), picker_selected: 0, ..self }
    }

    pub open spec fn close_picker(self) -> UiModel {
        UiModel { session_picker: None, picker_selected: 0, ..self }
    }

    /// The state brought in line with a frame. An open request closes the session list; the
    /// two cursors of the dialog stay inside the queue and inside the options of the request
    /// that they point at.
    pub open spec fn reconcile(self, frame: FrameState) -> UiModel {
        match frame.composer.content.ask {
            None => self.reset_ask_cursor(),
            Some(ask) => {
                let last = minus(ask.pending@.len() as int, 1);
                let active = if self.ask_active <= last {
                    self.ask_active as int
                } else {
                    last
                };
                let options = if active < ask.pending@.len() {
                    ask.pending@[active].options@.len()
                } else {
                    0
                };
                UiModel {
                    ask_active: active as usize,
                    ask_selected: if self.ask_selected >= options {
                        0
                    } else {
                        self.ask_selected
                    },
                    ..self.close_picker()
                }
            },
        }
    }
}

/// The byte offset behind the first `k` characters of a text.
fn offset_of(s: &String, v: &Vec<char>, k: usize) -> (b: usize)
    requires
        v@ == s@,
        k <= v@.len(),
    ensures
        b == byte_len(s@.take(k as int)),
        is_boundary(s@, b as nat),
        char_pos(s@, b as nat) == k,
{
    let total: usize = text_len(s.as_str());
    let mut b: usize = 0;
    let mut i: usize = 0;
    while i < k
        invariant
            i <= k <= v@.len(),
            b == byte_len(v@.take(i as int)),
            total == byte_len(v@),
        decreases k - i,
    {
        proof {
            lemma_prefix_step(v@, i as int);
            lemma_char_pos_of_prefix(v@, i + 1);
        }
        b += utf8_len(v[i]);
        i += 1;
    }
    proof {
        lemma_char_pos_of_prefix(v@, k as int);
    }
    b
}

/// Where the line feed before position `k` ends.
fn line_start_of(v: &Vec<char>, k: usize) -> (r: usize)
    requires
        k <= v@.len(),
    ensures
        r == after_last(v@.take(k as int), '\n'),
        r <= k,
{
    let mut r: usize = k;
    while r > 0 && v[r - 1] != '\n'
        invariant
            r <= k <= v@.len(),
            after_last(v@.take(k as int), '\n') == after_last(v@.take(r as int), '\n'),
        decreases r,
    {
        assert(v@.take(r as int).drop_last() =~= v@.take(r - 1));
        r -= 1;
    }
    r
}

/// How many characters from position `k` on stand before the next line feed.
fn line_rest(v: &Vec<char>, k: usize) -> (n: usize)
    requires
        k <= v@.len(),
    ensures
        n == span(v@.skip(k as int), '\n'),
        k + n <= v@.len(),
        k + n <= usize::MAX,
{
    let total: usize = v.len();
    let mut n: usize = 0;
    while k + n < total && v[k + n] != '\n'
        invariant
            k + n <= total == v@.len(),
            forall|i: int| k <= i < k + n ==> v@[i] != '\n',
        decreases v@.len() - n,
    {
        n += 1;
    }
    proof {
        lemma_span_is(v@.skip(k as int), '\n', n as int);
    }
    n
}

fn word_left_of(v: &Vec<char>, k: usize) -> (r: usize)
    requires
        k <= v@.len(),
    ensures
        r == after_last_white(trim_end_spec(v@.take(k as int))),
        r <= k,
{
    let mut t: usize = k;
    while t > 0 && is_whitespace(v[t - 1])
        invariant
            t <= k <= v@.len(),
            trim_end_spec(v@.take(k as int)) == trim_end_spec(v@.take(t as int)),
        decreases t,
    {
        assert(v@.take(t as int).drop_last() =~= v@.take(t - 1));
        t -= 1;
    }
    let mut r: usize = t;
    while r > 0 && !is_whitespace(v[r - 1])
        invariant
            r <= t <= v@.len(),
            after_last_white(v@.take(t as int)) == after_last_white(v@.take(r as int)),
        decreases r,
    {
        assert(v@.take(r as int).drop_last() =~= v@.take(r - 1));
        r -= 1;
    }
    r
}

fn leading_of(v: &Vec<char>, k: usize, white: bool) -> (n: usize)
    requires
        k <= v@.len(),
    ensures
        n == leading(v@.skip(k as int), white),
        k + n <= v@.len(),
        k + n <= usize::MAX,
{
    let total: usize = v.len();
    let mut n: usize = 0;
    while k + n < total && is_whitespace(v[k + n]) == white
        invariant
            k + n <= total == v@.len(),
            leading(v@.skip(k as int), white) == n + leading(v@.skip(k + n), white),
        decreases v@.len() - n,
    {
        assert(v@.skip(k + n).drop_first() =~= v@.skip(k + n + 1));
        n += 1;
    }
    n
}

impl LocalUi {
    pub open spec fn wf(self) -> bool {
        &&& is_boundary(self.draft@, self.cursor as nat)
        &&& self@.wf()
    }

    pub fn new(commands: Vec<PickerCandidate>) -> (r: Self)
        ensures
            r.wf(),
            r@ == (UiModel {
                draft: seq![],
                cursor: 0,
                commands: candidates_view(commands@),
                picker_selected: 0,
                session_picker: None,
                picker_dismissed: false,
                ask_selected: 0,
                ask_active: 0,
                scroll_offset: None,
                selected_block: None,
                history: seq![],
                history_pos: None,
                history_stash: seq![],
                viewport_lines: 1,
                redraw_requested: false,
            }),
    {
        let r = LocalUi {
            draft: String::new(),
            cursor: 0,
            commands,
            picker_selected: 0,
            session_picker: None,
            picker_dismissed: false,
            ask_selected: 0,
            ask_active: 0,
            scroll_offset: None,
            selected_block: None,
            history: Vec::new(),
            history_pos: None,
            history_stash: String::new(),
            viewport_lines: 1,
            redraw_requested: false,
        };
        r
    }

    pub fn note_draft_changed(&mut self)
        requires
            old(self).wf(),
        ensures
            final(self).wf(),
            final(self)@ == old(self)@.noted(),
    {
        self.picker_selected = 0;
        self.picker_dismissed = false;
    }

    /// The characters of the draft and the cursor's place among them.
    fn located(&self) -> (r: (Vec<char>, usize))
        requires
            self.wf(),
        ensures
            r.0@ == self@.draft,
            r.1 == self@.cursor,
            r.1 <= r.0@.len(),
    {
        let v: Vec<char> = chars_of(self.draft.as_str());
        let k: usize = count_chars_before(&v, self.cursor);
        (v, k)
    }

    /// Takes `v` as the draft, with the cursor behind its first `k` characters.
    fn put(&mut self, v: &Vec<char>, k: usize)
        requires
            old(self).wf(),
            k <= v@.len(),
        ensures
            final(self).wf(),
            final(self)@ == (UiModel { draft: v@, cursor: k as int, ..old(self)@ }),
    {
        self.draft = string_of(v.as_slice());
        self.cursor = offset_of(&self.draft, v, k);
    }

    /// Takes a text as the draft, with the cursor at its end.
    pub fn set_draft(&mut self, draft: String)
        requires
            old(self).wf(),
        ensures
            final(self).wf(),
            final(self)@ == (UiModel {
                draft: draft@,
                cursor: draft@.len() as int,
                ..old(self)@
            }),
    {
        let v: Vec<char> = chars_of(draft.as_str());
        self.put(&v, v.len());
    }

    fn put_cursor(&mut self, v: &Vec<char>, k: usize)
        requires
            old(self).wf(),
            v@ == old(self)@.draft,
            k <= v@.len(),
        ensures
            final(self).wf(),
            final(self)@ == old(self)@.at(k as int),
    {
        self.cursor = offset_of(&self.draft, v, k);
    }

    /// Takes the characters from `from` to `to` out.
    fn cut(&mut self, v: &Vec<char>, from: usize, to: usize)
        requires
            old(self).wf(),
            v@ == old(self)@.draft,
            from <= to <= v@.len(),
        ensures
            final(self).wf(),
            final(self)@ == old(self)@.cut(from as int, to as int),
    {
        let mut w: Vec<char> = Vec::new();
        let mut i: usize = 0;
        while i < from
            invariant
                i <= from <= v@.len(),
                w@ == v@.take(i as int),
            decreases from - i,
        {
            w.push(v[i]);
            i += 1;
        }
        let mut j: usize = to;
        while j < v.len()
            invariant
                from <= to <= j <= v@.len(),
                w@ == v@.take(from as int) + v@.subrange(to as int, j as int),
            decreases v@.len() - j,
        {
            w.push(v[j]);
            j += 1;
        }
        self.put(&w, from);
        self.note_draft_changed();
    }

    pub fn insert(&mut self, c: char)
        requires
            old(self).wf(),
        ensures
            final(self).wf(),
            final(self)@ == old(self)@.insert(c),
    {
        let (mut v, k) = self.located();
        v.insert(k, c);
        assert(k < v.len());
        self.put(&v, k + 1);
        self.note_draft_changed();
    }

    /// Removes the character before the cursor.
    pub fn delete_backward(&mut self)
        requires
            old(self).wf(),
        ensures
            final(self).wf(),
            final(self)@ == old(self)@.delete_backward(),
    {
        let (v, k) = self.located();
        if k > 0 {
            self.cut(&v, k - 1, k);
        }
    }

    /// Removes the character behind the cursor.
    pub fn delete_forward(&mut self)
        requires
            old(self).wf(),
        ensures
            final(self).wf(),
            final(self)@ == old(self)@.delete_forward(),
    {
        let (v, k) = self.located();
        if k < v.len() {
            self.cut(&v, k, k + 1);
        }
    }

    /// Removes the word before the cursor, with the white space between.
    pub fn delete_word_before(&mut self)
        requires
            old(self).wf(),
        ensures
            final(self).wf(),
            final(self)@ == old(self)@.delete_word_before(),
    {
        let (v, k) = self.located();
        let t: usize = word_left_of(&v, k);
        if t != k {
            self.cut(&v, t, k);
        }
    }

    /// Removes what follows the cursor on its line, or the line feed at the cursor.
    pub fn kill_to_line_end(&mut self)
        requires
            old(self).wf(),
        ensures
            final(self).wf(),
            final(self)@ == old(self)@.kill_to_line_end(),
    {
        let (v, k) = self.located();
        let n: usize = line_rest(&v, k);
        let end: usize = if n > 0 {
            k + n
        } else if k < v.len() {
            k + 1
        } else {
            k
        };
        if end != k {
            self.cut(&v, k, end);
        }
    }

    pub fn move_char(&mut self, delta: isize)
        requires
            old(self).wf(),
        ensures
            final(self).wf(),
            final(self)@ == old(self)@.move_char(delta as int),
    {
        let (v, k) = self.located();
        let target: usize = if delta < 0 {
            if k > 0 {
                k - 1
            } else {
                0
            }
        } else if k < v.len() {
            k + 1
        } else {
            k
        };
        self.put_cursor(&v, target);
    }

    pub fn move_word(&mut self, delta: isize)
        requires
            old(self).wf(),
        ensures
            final(self).wf(),
            final(self)@ == old(self)@.move_word(delta as int),
    {
        let (v, k) = self.located();
        let target: usize = if delta < 0 {
            word_left_of(&v, k)
        } else {
            let a: usize = k + leading_of(&v, k, true);
            a + leading_of(&v, a, false)
        };
        self.put_cursor(&v, target);
    }

    /// Moves between the lines of the draft, keeping the column where the line is long
    /// enough.
    pub fn move_line(&mut self, delta: isize)
        requires
            old(self).wf(),
        ensures
            final(self).wf(),
            final(self)@ == old(self)@.move_line(delta as int),
    {
        let (v, k) = self.located();
        let start: usize = line_start_of(&v, k);
        let column: usize = k - start;
        let target: usize;
        if delta < 0 {
            if start == 0 {
                return;
            }
            target = line_start_of(&v, start - 1);
        } else {
            let end: usize = k + line_rest(&v, k);
            if end == v.len() {
                return;
            }
            target = end + 1;
        }
        let len: usize = line_rest(&v, target);
        let offset: usize = if column <= len {
            column
        } else {
            len
        };
        self.put_cursor(&v, target + offset);
    }

    pub fn up(&mut self)
        requires
            old(self).wf(),
        ensures
            final(self).wf(),
            final(self)@ == old(self)@.up(),
    {
        let (v, k) = self.located();
        if line_start_of(&v, k) > 0 {
            self.move_line(-1);
        } else {
            self.recall(-1);
        }
    }

    pub fn down(&mut self)
        requires
            old(self).wf(),
        ensures
            final(self).wf(),
            final(self)@ == old(self)@.down(),
    {
        let (v, k) = self.located();
        if k + line_rest(&v, k) < v.len() {
            self.move_line(1);
        } else {
            self.recall(1);
        }
    }

    /// Shows entry `i` of the history as the draft.
    fn show(&mut self, i: usize)
        requires
            old(self).wf(),
            i < old(self).history@.len(),
        ensures
            final(self).wf(),
            final(self)@ == old(self)@.showing(i as int),
    {
        let v: Vec<char> = chars_of(self.history[i].as_str());
        self.put(&v, v.len());
        self.history_pos = Some(i);
        self.note_draft_changed();
    }

    /// Walks the history: back for a negative `delta`, forth otherwise.
    pub fn recall(&mut self, delta: isize)
        requires
            old(self).wf(),
        ensures
            final(self).wf(),
            final(self)@ == old(self)@.recall(delta as int),
    {
        if self.history.len() == 0 {
            return;
        }
        if delta < 0 {
            match self.history_pos {
                None => {
                    self.history_stash = self.draft.clone();
                    self.show(self.history.len() - 1);
                },
                Some(i) => {
                    self.show(
                        if i > 0 {
                            i - 1
                        } else {
                            0
                        },
                    );
                },
            }
        } else {
            match self.history_pos {
                None => {},
                Some(i) => {
                    if i + 1 < self.history.len() {
                        self.show(i + 1);
                    } else {
                        let v: Vec<char> = chars_of(self.history_stash.as_str());
                        self.put(&v, v.len());
                        self.history_stash = String::new();
                        self.history_pos = None;
                        self.note_draft_changed();
                    }
                },
            }
        }
    }

    /// Records a submitted text.
    pub fn remember(&mut self, text: &str)
        requires
            old(self).wf(),
        ensures
            final(self).wf(),
            final(self)@ == old(self)@.remember(text@),
    {
        let n: usize = self.history.len();
        if n == 0 || self.history[n - 1] != text.to_owned() {
            self.history.push(text.to_owned());
        }
        self.history_pos = None;
        self.history_stash = String::new();
    }

    /// The byte offset at which the line of the cursor begins.
    pub fn line_start(&self) -> (b: usize)
        requires
            self.wf(),
        ensures
            b == byte_len(self@.draft.take(self@.line_start())),
    {
        let (v, k) = self.located();
        offset_of(&self.draft, &v, line_start_of(&v, k))
    }

    /// The byte offset at which the line of the cursor ends.
    pub fn line_end(&self) -> (b: usize)
        requires
            self.wf(),
        ensures
            b == byte_len(self@.draft.take(self@.line_end())),
    {
        let (v, k) = self.located();
        offset_of(&self.draft, &v, k + line_rest(&v, k))
    }

    /// Moves the cursor to the beginning of its line.
    pub fn move_to_line_start(&mut self)
        requires
            old(self).wf(),
        ensures
            final(self).wf(),
            final(self)@ == old(self)@.at(old(self)@.line_start()),
    {
        let (v, k) = self.located();
        self.put_cursor(&v, line_start_of(&v, k));
    }

    /// Moves the cursor to the end of its line.
    pub fn move_to_line_end(&mut self)
        requires
            old(self).wf(),
        ensures
            final(self).wf(),
            final(self)@ == old(self)@.at(old(self)@.line_end()),
    {
        let (v, k) = self.located();
        self.put_cursor(&v, k + line_rest(&v, k));
    }

    /// The byte offset one character before the cursor.
    pub fn prev_boundary(&self) -> (b: usize)
        requires
            self.wf(),
        ensures
            b == byte_len(self@.draft.take(self@.prev_boundary())),
    {
        let (v, k) = self.located();
        offset_of(
            &self.draft,
            &v,
            if k > 0 {
                k - 1
            } else {
                0
            },
        )
    }

    /// The byte offset one character behind the cursor.
    pub fn next_boundary(&self) -> (b: usize)
        requires
            self.wf(),
        ensures
            b == byte_len(self@.draft.take(self@.next_boundary())),
    {
        let (v, k) = self.located();
        offset_of(
            &self.draft,
            &v,
            if k < v.len() {
                k + 1
            } else {
                k
            },
        )
    }

    /// The byte offset of the word boundary before (negative `delta`) or behind the cursor.
    pub fn word_boundary(&self, delta: isize) -> (b: usize)
        requires
            self.wf(),
        ensures
            b == byte_len(self@.draft.take(self@.word_boundary(delta as int))),
    {
        let (v, k) = self.located();
        if delta < 0 {
            offset_of(&self.draft, &v, word_left_of(&v, k))
        } else {
            let a: usize = k + leading_of(&v, k, true);
            offset_of(&self.draft, &v, a + leading_of(&v, a, false))
        }
    }
}

/// The blocks of a transcript in order of appearance, each of them once.
pub fn foldable_blocks(snapshot: &FrameState) -> (r: Vec<String>)
    ensures
        texts(r@) == blocks_spec(snapshot.transcript.body.entries@),
{
    let entries = &snapshot.transcript.body.entries;
    let mut r: Vec<String> = Vec::new();
    let mut i: usize = 0;
    while i < entries.len()
        invariant
            i <= entries@.len(),
            texts(r@) == blocks_spec(entries@.take(i as int)),
        decreases entries@.len() - i,
    {
        proof {
            assert(entries@.take(i + 1).drop_last() =~= entries@.take(i as int));
        }
        match &entries[i].block_id {
            Some(id) => {
                let k: usize = position_of(&r, id);
                proof {
                    lemma_find_text(texts(r@), id@);
                }
                if k == r.len() {
                    r.push(id.clone());
                }
            },
            None => {},
        }
        i += 1;
    }
    assert(entries@.take(i as int) =~= entries@);
    r
}

fn position_of(v: &Vec<String>, x: &String) -> (k: usize)
    ensures
        k == find_text(texts(v@), x@),
        k <= v@.len(),
{
    let mut k: usize = 0;
    proof {
        assert(texts(v@).skip(0) =~= texts(v@));
    }
    while k < v.len() && v[k] != *x
        invariant
            k <= v@.len(),
            find_text(texts(v@), x@) == k + find_text(texts(v@).skip(k as int), x@),
        decreases v@.len() - k,
    {
        proof {
            assert(texts(v@).skip(k as int).drop_first() =~= texts(v@).skip(k + 1));
        }
        k += 1;
    }
    k
}

/// Whether a line belongs to a block.
pub fn in_block(entry: &TranscriptEntry, id: &String) -> (r: bool)
    ensures
        r == (opt_text(entry.block_id) == Some(id@)),
{
    match &entry.block_id {
        Some(b) => *b == *id,
        None => false,
    }
}

/// How many lines stand before the first one of a block.
pub fn find_block(entries: &Vec<TranscriptEntry>, id: &String) -> (k: usize)
    ensures
        k == block_line(entries@, id@),
        k <= entries@.len(),
{
    let mut k: usize = 0;
    proof {
        assert(entries@.skip(0) =~= entries@);
    }
    while k < entries.len() && !in_block(&entries[k], id)
        invariant
            k <= entries@.len(),
            block_line(entries@, id@) == k + block_line(entries@.skip(k as int), id@),
        decreases entries@.len() - k,
    {
        proof {
            assert(entries@.skip(k as int).drop_first() =~= entries@.skip(k + 1));
        }
        k += 1;
    }
    k
}

impl LocalUi {
    /// Moves the selection among the foldable blocks: back for a negative `delta`, forth
    /// otherwise.
    pub fn select_block(&mut self, snapshot: &FrameState, delta: isize)
        requires
            old(self).wf(),
        ensures
            final(self).wf(),
            final(self)@ == old(self)@.select_block(
                snapshot.transcript.body.entries@,
                delta as int,
            ),
    {
        let blocks: Vec<String> = foldable_blocks(snapshot);
        let n: usize = blocks.len();
        if n == 0 {
            return;
        }
        let current: usize = match &self.selected_block {
            Some(id) => position_of(&blocks, id),
            None => n,
        };
        if current >= n {
            if delta >= 0 {
                return;
            }
            self.selected_block = Some(blocks[n - 1].clone());
        } else if delta < 0 {
            let back: usize = (-(delta + 1)) as usize;
            if back >= current {
                self.selected_block = Some(blocks[0].clone());
            } else {
                self.selected_block = Some(blocks[current - back - 1].clone());
            }
        } else {
            let forth: usize = delta as usize;
            if forth >= n - current {
                self.selected_block = None;
            } else {
                self.selected_block = Some(blocks[current + forth].clone());
            }
        }
        self.reveal_selection(snapshot);
    }

    /// Scrolls the selected block into view.
    pub fn reveal_selection(&mut self, snapshot: &FrameState)
        requires
            old(self).wf(),
        ensures
            final(self).wf(),
            final(self)@ == old(self)@.revealed(snapshot.transcript.body.entries@),
    {
        let entries = &snapshot.transcript.body.entries;
        let total: usize = entries.len();
        let page: usize = self.page();
        match &self.selected_block {
            None => {
                self.scroll_offset = None;
            },
            Some(id) => {
                let first: usize = find_block(entries, id);
                if first < total {
                    let last_page: usize = if total >= page {
                        total - page
                    } else {
                        0
                    };
                    if first >= last_page {
                        self.scroll_offset = None;
                    } else {
                        self.scroll_offset = Some(first);
                    }
                }
            },
        }
    }

    /// The number of lines of one page.
    pub fn page(&self) -> (r: usize)
        ensures
            r == page(self.viewport_lines),
            r >= 1,
    {
        if self.viewport_lines == 0 {
            1
        } else {
            self.viewport_lines
        }
    }

    pub fn scroll_up(&mut self, total: usize)
        requires
            old(self).wf(),
        ensures
            final(self).wf(),
            final(self)@ == old(self)@.scroll_up(total as int),
    {
        let page: usize = self.page();
        if total <= page {
            return;
        }
        let top: usize = match self.scroll_offset {
            Some(n) => n,
            None => total - page,
        };
        self.scroll_offset = Some(
            if top >= page {
                top - page
            } else {
                0
            },
        );
    }

    pub fn scroll_down(&mut self, total: usize)
        requires
            old(self).wf(),
        ensures
            final(self).wf(),
            final(self)@ == old(self)@.scroll_down(total as int),
    {
        let page: usize = self.page();
        match self.scroll_offset {
            None => {},
            Some(top) => {
                let bottom: usize = if total >= page {
                    total - page
                } else {
                    0
                };
                if top >= bottom || page >= bottom - top {
                    self.scroll_offset = None;
                } else {
                    self.scroll_offset = Some(top + page);
                }
            },
        }
    }

    /// Brings the state in line with a frame, before the two are merged.
    pub fn reconcile(&mut self, frame: &FrameState)
        requires
            old(self).wf(),
        ensures
            final(self).wf(),
            final(self)@ == old(self)@.reconcile(*frame),
    {
        match &frame.composer.content.ask {
            None => self.reset_ask_cursor(),
            Some(ask) => {
                self.close_picker();
                let n: usize = ask.pending.len();
                let last: usize = if n >= 1 {
                    n - 1
                } else {
                    0
                };
                if self.ask_active > last {
                    self.ask_active = last;
                }
                let options: usize = if self.ask_active < n {
                    ask.pending[self.ask_active].options.len()
                } else {
                    0
                };
                if self.ask_selected >= options {
                    self.ask_selected = 0;
                }
            },
        }
    }

    /// Puts both cursors of the dialog back to the start.
    pub fn reset_ask_cursor(&mut self)
        requires
            old(self).wf(),
        ensures
            final(self).wf(),
            final(self)@ == old(self)@.reset_ask_cursor(),
    {
        self.ask_selected = 0;
        self.ask_active = 0;
    }

    /// Opens the list of sessions.
    pub fn open_picker(&mut self, candidates: Vec<PickerCandidate>)
        requires
            old(self).wf(),
        ensures
            final(self).wf(),
            final(self)@ == old(self)@.open_picker(candidates_view(candidates@)),
    {
        self.session_picker = Some(candidates);
        self.picker_selected = 0;
    }

    pub fn close_picker(&mut self)
        requires
            old(self).wf(),
        ensures
            final(self).wf(),
            final(self)@ == old(self)@.close_picker(),
    {
        self.session_picker = None;
        self.picker_selected = 0;
    }
}

} // verus!
