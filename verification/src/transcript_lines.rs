//! How the blocks of a turn become lines of the transcript: one entry is one line on screen.

use crate::domain::{blocks_view, Block, BlockModel, OutcomeModel, ToolOutcome};
use crate::frame_state::{entries_view, EntryView, LineKind, TranscriptEntry};
use crate::text::{
    chars_of, decimal, decimal_spec, lines, lines_spec, starts, starts_with, string_of, texts,
};
use vstd::prelude::*;
use vstd::string::*;

verus! {

/// A tool result with more lines than this is folded.
pub const FOLD_LINE_THRESHOLD: usize = 8;

/// A line that belongs to no foldable block.
pub open spec fn plain_spec(kind: LineKind, text: Seq<char>) -> EntryView {
    EntryView { kind, text, block_id: None, continues_previous: false }
}

pub fn plain(kind: LineKind, text: &str) -> (r: TranscriptEntry)
    ensures
        r@ == plain_spec(kind, text@),
{
    TranscriptEntry { kind, text: text.to_owned(), block_id: None, continues_previous: false }
}

/// A text as entries, one for each line; from the second on they continue the first. An
/// empty text is one empty line.
pub open spec fn text_entries(kind: LineKind, text: Seq<char>) -> Seq<EntryView> {
    if text.len() == 0 {
        seq![plain_spec(kind, seq![])]
    } else {
        Seq::new(
            lines_spec(text).len(),
            |i: int|
                EntryView {
                    kind,
                    text: lines_spec(text)[i],
                    block_id: None,
                    continues_previous: i > 0,
                },
        )
    }
}

pub fn push_lines(entries: &mut Vec<TranscriptEntry>, kind: LineKind, text: &str)
    ensures
        entries_view(final(entries)@) == entries_view(old(entries)@) + text_entries(kind, text@),
{
    let ghost start = entries_view(entries@);
    if text.is_empty() {
        let e: TranscriptEntry = plain(kind, "");
        proof {
            reveal_strlit("");
            assert(e@.text =~= seq![]);
        }
        entries.push(e);
        assert(entries_view(entries@) =~= start + text_entries(kind, text@));
        return;
    }
    let parts: Vec<String> = lines(text);
    let ghost all = text_entries(kind, text@);
    let mut i: usize = 0;
    proof {
        assert(entries_view(entries@) =~= start + all.take(0));
    }
    while i < parts.len()
        invariant
            i <= parts@.len(),
            text@.len() > 0,
            all == text_entries(kind, text@),
            texts(parts@) == lines_spec(text@),
            entries_view(entries@) == start + all.take(i as int),
        decreases parts@.len() - i,
    {
        let mut e: TranscriptEntry = plain(kind, parts[i].as_str());
        e.continues_previous = i > 0;
        proof {
            assert(texts(parts@)[i as int] == parts@[i as int]@);
            assert(e@ == all[i as int]);
        }
        let ghost before = entries@;
        entries.push(e);
        assert(entries_view(entries@) =~= entries_view(before).push(e@));
        i += 1;
    }
}

// ---- diffs ---------------------------------------------------------------------------

/// One of the two lines that head a unified diff.
pub open spec fn is_file_header(line: Seq<char>) -> bool {
    starts(line, "--- "@) || starts(line, "+++ "@)
}

/// Line `i` and the next one head a unified diff.
pub open spec fn diff_starts_at(lines: Seq<Seq<char>>, i: int) -> bool {
    starts(lines[i], "--- "@) && starts(lines[i + 1], "+++ "@)
}

/// How many lines stand before the first diff: all of them where there is none.
pub open spec fn diff_start(lines: Seq<Seq<char>>, from: int) -> int
    decreases lines.len() - from,
{
    if from + 1 >= lines.len() {
        lines.len() as int
    } else if diff_starts_at(lines, from) {
        from
    } else {
        diff_start(lines, from + 1)
    }
}

/// How line `i` is shown: before the diff as the result itself, from there on by the
/// marker at its front.
pub open spec fn classify_spec(
    i: int,
    line: Seq<char>,
    diff_from: int,
    base: LineKind,
) -> LineKind {
    if i < diff_from {
        base
    } else if is_file_header(line) || starts(line, "@@"@) {
        LineKind::DiffContext
    } else if line.len() > 0 && line[0] == '-' {
        LineKind::DiffOld
    } else if line.len() > 0 && line[0] == '+' {
        LineKind::DiffNew
    } else {
        LineKind::DiffContext
    }
}

/// A line of a diff without its marker, which is drawn anew; file headers keep theirs.
pub open spec fn strip_spec(kind: LineKind, line: Seq<char>) -> Seq<char> {
    if kind == LineKind::DiffContext && is_file_header(line) {
        line
    } else if (kind == LineKind::DiffOld || kind == LineKind::DiffNew || kind
        == LineKind::DiffContext) && line.len() > 0 && (line[0] == '-' || line[0] == '+' || line[0]
        == ' ') {
        line.skip(1)
    } else {
        line
    }
}

fn file_header(line: &str) -> (r: bool)
    ensures
        r == is_file_header(line@),
{
    starts_with(line, "--- ") || starts_with(line, "+++ ")
}

/// The line at which the first unified diff begins: a header `--- ` with a `+++ ` right
/// behind it. The tool's name does not matter.
pub fn diff_section_start(lines: &Vec<String>) -> (r: Option<usize>)
    ensures
        r is Some == (diff_start(texts(lines@), 0) < lines@.len()),
        r matches Some(i) ==> i == diff_start(texts(lines@), 0),
{
    let ghost all = texts(lines@);
    let n: usize = lines.len();
    let mut i: usize = 0;
    while i < n && n - i >= 2
        invariant
            i <= n == lines@.len(),
            all == texts(lines@),
            diff_start(all, 0) == diff_start(all, i as int),
        decreases n - i,
    {
        if starts_with(lines[i].as_str(), "--- ") && starts_with(lines[i + 1].as_str(), "+++ ") {
            return Some(i);
        }
        i += 1;
    }
    None
}

/// The kind of a line of a tool result.
pub fn classify(idx: usize, line: &str, diff_from: Option<usize>, base: LineKind) -> (r: LineKind)
    ensures
        r == match diff_from {
            Some(start) => classify_spec(idx as int, line@, start as int, base),
            None => base,
        },
{
    match diff_from {
        None => base,
        Some(start) => {
            if idx < start {
                return base;
            }
            if file_header(line) || starts_with(line, "@@") {
                return LineKind::DiffContext;
            }
            let v: Vec<char> = chars_of(line);
            if v.len() > 0 && v[0] == '-' {
                LineKind::DiffOld
            } else if v.len() > 0 && v[0] == '+' {
                LineKind::DiffNew
            } else {
                LineKind::DiffContext
            }
        },
    }
}

/// The text of a line of a tool result.
pub fn strip_diff_marker(kind: LineKind, line: &str) -> (r: String)
    ensures
        r@ == strip_spec(kind, line@),
{
    match kind {
        LineKind::DiffOld | LineKind::DiffNew | LineKind::DiffContext => {
            if kind == LineKind::DiffContext && file_header(line) {
                return line.to_owned();
            }
            let v: Vec<char> = chars_of(line);
            if v.len() > 0 && (v[0] == '-' || v[0] == '+' || v[0] == ' ') {
                let r: String = string_of(vstd::slice::slice_subrange(v.as_slice(), 1, v.len()));
                r
            } else {
                line.to_owned()
            }
        },
        _ => line.to_owned(),
    }
}

// ---- tool results --------------------------------------------------------------------

pub open spec fn result_kind(is_error: bool) -> LineKind {
    if is_error {
        LineKind::ToolResultErr
    } else {
        LineKind::ToolResultOk
    }
}

/// A line of block `id`.
pub open spec fn block_entry(kind: LineKind, text: Seq<char>, id: Seq<char>) -> EntryView {
    EntryView { kind, text, block_id: Some(id), continues_previous: false }
}

/// Line `i` of a tool result.
pub open spec fn result_entry(
    lines: Seq<Seq<char>>,
    i: int,
    is_error: bool,
    id: Seq<char>,
) -> EntryView {
    let kind = classify_spec(i, lines[i], diff_start(lines, 0), result_kind(is_error));
    block_entry(kind, strip_spec(kind, lines[i]), id)
}

/// What stands in place of the lines that are folded away.
pub open spec fn fold_note(hidden: nat) -> Seq<char> {
    "… "@ + decimal_spec(hidden) + " more lines (toggle to expand)"@
}

/// The lines of a tool result: all of them, or the first few and a note where it is folded.
pub open spec fn result_entries(
    result: OutcomeModel,
    expanded: bool,
    id: Seq<char>,
) -> Seq<EntryView> {
    let lines = lines_spec(result.text);
    let shown = if lines.len() <= FOLD_LINE_THRESHOLD || expanded {
        lines.len()
    } else {
        FOLD_LINE_THRESHOLD as nat
    };
    let head = Seq::new(shown, |i: int| result_entry(lines, i, result.is_error, id));
    if lines.len() == 0 {
        seq![block_entry(result_kind(result.is_error), seq![], id)]
    } else if shown < lines.len() {
        head.push(block_entry(LineKind::Note, fold_note((lines.len() - shown) as nat), id))
    } else {
        head
    }
}

/// The lines of a block.
pub open spec fn block_entries(b: BlockModel) -> Seq<EntryView> {
    match b {
        BlockModel::UserPrompt(t) => text_entries(LineKind::UserPrompt, t),
        BlockModel::AssistantText(t) => text_entries(LineKind::AssistantText, t),
        BlockModel::Thinking(t) => text_entries(LineKind::Thinking, t),
        BlockModel::Note(t) => text_entries(LineKind::Note, t),
        BlockModel::Error(t) => text_entries(LineKind::Error, t),
        BlockModel::Tool { id, name, input_summary, result, expanded } => {
            let heading = block_entry(
                LineKind::ToolHeading,
                name + "("@ + input_summary + ")"@,
                id,
            );
            match result {
                None => seq![heading],
                Some(r) => seq![heading] + result_entries(r, expanded, id),
            }
        },
    }
}

fn block_line(kind: LineKind, text: String, id: &String) -> (r: TranscriptEntry)
    ensures
        r@ == block_entry(kind, text@, id@),
{
    TranscriptEntry { kind, text, block_id: Some(id.clone()), continues_previous: false }
}

fn push_result(
    entries: &mut Vec<TranscriptEntry>,
    result: &ToolOutcome,
    expanded: bool,
    id: &String,
)
    ensures
        entries_view(final(entries)@) == entries_view(old(entries)@) + result_entries(
            OutcomeModel { text: result.text@, is_error: result.is_error },
            expanded,
            id@,
        ),
{
    let ghost start = entries_view(entries@);
    let ghost model = OutcomeModel { text: result.text@, is_error: result.is_error };
    let ghost all = result_entries(model, expanded, id@);
    let base: LineKind = if result.is_error {
        LineKind::ToolResultErr
    } else {
        LineKind::ToolResultOk
    };
    let parts: Vec<String> = lines(result.text.as_str());
    let ghost ls = lines_spec(result.text@);
    let n: usize = parts.len();
    if n == 0 {
        let e: TranscriptEntry = block_line(base, String::new(), id);
        assert(e@.text =~= seq![]);
        entries.push(e);
        return;
    }
    let diff_from: Option<usize> = diff_section_start(&parts);
    let shown: usize = if n <= FOLD_LINE_THRESHOLD || expanded {
        n
    } else {
        FOLD_LINE_THRESHOLD
    };
    let mut i: usize = 0;
    proof {
        assert(entries_view(entries@) =~= start + all.take(0));
    }
    while i < shown
        invariant
            i <= shown <= n == parts@.len(),
            n > 0,
            shown == if n <= FOLD_LINE_THRESHOLD || expanded {
                n
            } else {
                FOLD_LINE_THRESHOLD
            },
            ls == lines_spec(result.text@),
            texts(parts@) == ls,
            base == result_kind(result.is_error),
            diff_from is Some == (diff_start(ls, 0) < n),
            diff_from matches Some(k) ==> k == diff_start(ls, 0),
            model == (OutcomeModel { text: result.text@, is_error: result.is_error }),
            all == result_entries(model, expanded, id@),
            entries_view(entries@) == start + all.take(i as int),
        decreases shown - i,
    {
        let line: &str = parts[i].as_str();
        assert(ls[i as int] == parts@[i as int]@);
        let kind: LineKind = classify(i, line, diff_from, base);
        let e: TranscriptEntry = block_line(kind, strip_diff_marker(kind, line), id);
        let ghost before = entries@;
        assert(e@ == result_entry(ls, i as int, result.is_error, id@));
        assert(all[i as int] == e@);
        entries.push(e);
        assert(entries_view(entries@) =~= entries_view(before).push(e@));
        i += 1;
    }
    if shown < n {
        let mut text: String = "… ".to_owned();
        let hidden: String = decimal((n - shown) as u64);
        text.append(hidden.as_str());
        text.append(" more lines (toggle to expand)");
        let e: TranscriptEntry = block_line(LineKind::Note, text, id);
        let ghost before = entries@;
        entries.push(e);
        assert(entries_view(entries@) =~= entries_view(before).push(e@));
    }
}

/// Adds the lines of a block to the transcript.
pub fn push_block_entries(entries: &mut Vec<TranscriptEntry>, block: &Block)
    ensures
        entries_view(final(entries)@) == entries_view(old(entries)@) + block_entries(block@),
{
    match block {
        Block::UserPrompt(t) => push_lines(entries, LineKind::UserPrompt, t.as_str()),
        Block::AssistantText(t) => push_lines(entries, LineKind::AssistantText, t.as_str()),
        Block::Thinking(t) => push_lines(entries, LineKind::Thinking, t.as_str()),
        Block::Note(t) => push_lines(entries, LineKind::Note, t.as_str()),
        Block::Error(t) => push_lines(entries, LineKind::Error, t.as_str()),
        Block::Tool { id, name, input_summary, result, expanded } => {
            let text: String = name.clone().concat("(").concat(input_summary.as_str()).concat(")");
            let e: TranscriptEntry = block_line(LineKind::ToolHeading, text, id);
            entries.push(e);
            match result {
                None => {
                },
                Some(r) => {
                    push_result(entries, r, *expanded, id);
                },
            }
        },
    }
}

/// The lines of blocks, one block after the other.
pub open spec fn blocks_entries(blocks: Seq<BlockModel>) -> Seq<EntryView>
    decreases blocks.len(),
{
    if blocks.len() == 0 {
        seq![]
    } else {
        blocks_entries(blocks.drop_last()) + block_entries(blocks.last())
    }
}

/// Adds the lines of blocks to the transcript.
pub fn push_blocks_entries(entries: &mut Vec<TranscriptEntry>, blocks: &Vec<Block>)
    ensures
        entries_view(final(entries)@) == entries_view(old(entries)@) + blocks_entries(
            blocks_view(blocks@),
        ),
{
    let ghost start = entries_view(entries@);
    let ghost all = blocks_view(blocks@);
    let mut i: usize = 0;
    while i < blocks.len()
        invariant
            i <= blocks@.len(),
            all == blocks_view(blocks@),
            entries_view(entries@) == start + blocks_entries(all.take(i as int)),
        decreases blocks@.len() - i,
    {
        push_block_entries(entries, &blocks[i]);
        proof {
            assert(all.take(i + 1).drop_last() =~= all.take(i as int));
        }
        i += 1;
    }
    assert(all.take(i as int) =~= all);
}

} // verus!
