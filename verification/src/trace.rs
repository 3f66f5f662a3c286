//! The lines of a trace: what each frame holds, and what each key came to, as JSON.

use crate::frame_state::{FrameState, LineKind, StatusContent, TranscriptEntry};
use crate::text::{chars_of, decimal, decimal_spec, join, join_spec, texts};
use vstd::prelude::*;
use vstd::string::*;

verus! {

// ---- strings -------------------------------------------------------------------------

/// A hexadecimal digit.
pub open spec fn hex_char(d: nat) -> char {
    if d < 10 {
        crate::text::digit_char(d)
    } else if d == 10 {
        'a'
    } else if d == 11 {
        'b'
    } else if d == 12 {
        'c'
    } else if d == 13 {
        'd'
    } else if d == 14 {
        'e'
    } else {
        'f'
    }
}

/// A character inside a JSON string.
pub open spec fn escaped_char(c: char) -> Seq<char> {
    let u = c as u32 as nat;
    if c == '"' {
        "\\\""@
    } else if c == '\\' {
        "\\\\"@
    } else if c == '\n' {
        "\\n"@
    } else if c == '\r' {
        "\\r"@
    } else if c == '\t' {
        "\\t"@
    } else if u < 0x20 {
        "\\u00"@.push(hex_char(u / 16)).push(hex_char(u % 16))
    } else {
        seq![c]
    }
}

/// A text inside a JSON string.
pub open spec fn escaped(s: Seq<char>) -> Seq<char>
    decreases s.len(),
{
    if s.len() == 0 {
        seq![]
    } else {
        escaped(s.drop_last()) + escaped_char(s.last())
    }
}

/// A text as a JSON string.
pub open spec fn json_str_spec(s: Seq<char>) -> Seq<char> {
    seq!['"'] + escaped(s) + seq!['"']
}

fn hex_of(d: u32) -> (c: char)
    requires
        d < 16,
    ensures
        c == hex_char(d as nat),
{
    if d == 0 {
        '0'
    } else if d == 1 {
        '1'
    } else if d == 2 {
        '2'
    } else if d == 3 {
        '3'
    } else if d == 4 {
        '4'
    } else if d == 5 {
        '5'
    } else if d == 6 {
        '6'
    } else if d == 7 {
        '7'
    } else if d == 8 {
        '8'
    } else if d == 9 {
        '9'
    } else if d == 10 {
        'a'
    } else if d == 11 {
        'b'
    } else if d == 12 {
        'c'
    } else if d == 13 {
        'd'
    } else if d == 14 {
        'e'
    } else {
        'f'
    }
}

fn push_escaped(out: &mut String, c: char)
    ensures
        final(out)@ == old(out)@ + escaped_char(c),
{
    let u: u32 = c as u32;
    if c == '"' {
        out.append("\\\"");
    } else if c == '\\' {
        out.append("\\\\");
    } else if c == '\n' {
        out.append("\\n");
    } else if c == '\r' {
        out.append("\\r");
    } else if c == '\t' {
        out.append("\\t");
    } else if u < 0x20 {
        out.append("\\u00");
        out.push(hex_of(u / 16));
        out.push(hex_of(u % 16));
    } else {
        out.push(c);
    }
}

/// Writes a text as a JSON string: quotes, backslashes and control characters are escaped.
pub fn json_str(s: &str) -> (r: String)
    ensures
        r@ == json_str_spec(s@),
{
    let v: Vec<char> = chars_of(s);
    let mut out: String = String::new();
    out.push('"');
    let mut i: usize = 0;
    while i < v.len()
        invariant
            i <= v@.len(),
            out@ == seq!['"'] + escaped(v@.take(i as int)),
        decreases v@.len() - i,
    {
        push_escaped(&mut out, v[i]);
        proof {
            assert(v@.take(i + 1).drop_last() =~= v@.take(i as int));
        }
        i += 1;
    }
    assert(v@.take(i as int) =~= v@);
    out.push('"');
    out
}

// ---- frames --------------------------------------------------------------------------

/// The name of a kind of line.
pub open spec fn kind_name_spec(kind: LineKind) -> Seq<char> {
    match kind {
        LineKind::Spacer => "Spacer"@,
        LineKind::Banner => "Banner"@,
        LineKind::UserPrompt => "UserPrompt"@,
        LineKind::AssistantText => "AssistantText"@,
        LineKind::ToolHeading => "ToolHeading"@,
        LineKind::ToolResultOk => "ToolResultOk"@,
        LineKind::ToolResultErr => "ToolResultErr"@,
        LineKind::Note => "Note"@,
        LineKind::Warning => "Warning"@,
        LineKind::Error => "Error"@,
        LineKind::Thinking => "Thinking"@,
        LineKind::DiffOld => "DiffOld"@,
        LineKind::DiffNew => "DiffNew"@,
        LineKind::DiffContext => "DiffContext"@,
    }
}

pub fn kind_name(kind: LineKind) -> (r: &'static str)
    ensures
        r@ == kind_name_spec(kind),
{
    match kind {
        LineKind::Spacer => "Spacer",
        LineKind::Banner => "Banner",
        LineKind::UserPrompt => "UserPrompt",
        LineKind::AssistantText => "AssistantText",
        LineKind::ToolHeading => "ToolHeading",
        LineKind::ToolResultOk => "ToolResultOk",
        LineKind::ToolResultErr => "ToolResultErr",
        LineKind::Note => "Note",
        LineKind::Warning => "Warning",
        LineKind::Error => "Error",
        LineKind::Thinking => "Thinking",
        LineKind::DiffOld => "DiffOld",
        LineKind::DiffNew => "DiffNew",
        LineKind::DiffContext => "DiffContext",
    }
}

/// The kinds that occur, in the order of their first occurrence.
pub open spec fn kinds_of(entries: Seq<TranscriptEntry>) -> Seq<LineKind>
    decreases entries.len(),
{
    if entries.len() == 0 {
        seq![]
    } else {
        let before = kinds_of(entries.drop_last());
        if before.contains(entries.last().kind) {
            before
        } else {
            before.push(entries.last().kind)
        }
    }
}

/// How many lines are of a kind.
pub open spec fn count_of(entries: Seq<TranscriptEntry>, kind: LineKind) -> nat
    decreases entries.len(),
{
    if entries.len() == 0 {
        0
    } else {
        count_of(entries.drop_last(), kind) + if entries.last().kind == kind {
            1nat
        } else {
            0nat
        }
    }
}

/// One member of the object of kinds.
pub open spec fn kind_member(entries: Seq<TranscriptEntry>, kind: LineKind) -> Seq<char> {
    "\""@ + kind_name_spec(kind) + "\":"@ + decimal_spec(count_of(entries, kind))
}

pub open spec fn kind_members(entries: Seq<TranscriptEntry>) -> Seq<Seq<char>> {
    kinds_of(entries).map_values(|k: LineKind| kind_member(entries, k))
}

fn list_kinds(entries: &Vec<TranscriptEntry>) -> (r: Vec<LineKind>)
    ensures
        r@ == kinds_of(entries@),
{
    let mut r: Vec<LineKind> = Vec::new();
    let mut i: usize = 0;
    while i < entries.len()
        invariant
            i <= entries@.len(),
            r@ == kinds_of(entries@.take(i as int)),
        decreases entries@.len() - i,
    {
        let kind: LineKind = entries[i].kind;
        proof {
            assert(entries@.take(i + 1).drop_last() =~= entries@.take(i as int));
        }
        let mut j: usize = 0;
        while j < r.len() && r[j] != kind
            invariant
                j <= r@.len(),
                forall|k: int| 0 <= k < j ==> r@[k] != kind,
            decreases r@.len() - j,
        {
            j += 1;
        }
        if j == r.len() {
            r.push(kind);
        }
        i += 1;
    }
    assert(entries@.take(i as int) =~= entries@);
    r
}

fn count_kind(entries: &Vec<TranscriptEntry>, kind: LineKind) -> (n: usize)
    ensures
        n == count_of(entries@, kind),
{
    let mut n: usize = 0;
    let mut i: usize = 0;
    let total: usize = entries.len();
    while i < total
        invariant
            n <= i <= total == entries@.len(),
            n == count_of(entries@.take(i as int), kind),
        decreases total - i,
    {
        proof {
            assert(entries@.take(i + 1).drop_last() =~= entries@.take(i as int));
        }
        if entries[i].kind == kind {
            n += 1;
        }
        i += 1;
    }
    assert(entries@.take(i as int) =~= entries@);
    n
}

/// The members of the object of kinds, joined.
fn render_kinds(entries: &Vec<TranscriptEntry>) -> (r: String)
    ensures
        r@ == join_spec(kind_members(entries@), ","@),
{
    let kinds: Vec<LineKind> = list_kinds(entries);
    let ghost all = kind_members(entries@);
    let mut parts: Vec<String> = Vec::new();
    let mut i: usize = 0;
    while i < kinds.len()
        invariant
            i <= kinds@.len(),
            kinds@ == kinds_of(entries@),
            all == kind_members(entries@),
            texts(parts@) == all.take(i as int),
        decreases kinds@.len() - i,
    {
        let n: usize = count_kind(entries, kinds[i]);
        let part: String = "\"".to_owned().concat(kind_name(kinds[i])).concat("\":").concat(
            decimal(n as u64).as_str(),
        );
        let ghost before = parts@;
        parts.push(part);
        proof {
            assert(texts(parts@) =~= texts(before).push(part@));
        }
        i += 1;
    }
    assert(all.take(i as int) =~= all);
    join(&parts, ",")
}

/// An optional text as JSON.
pub open spec fn json_opt_spec(s: Option<String>) -> Seq<char> {
    match s {
        Some(t) => json_str_spec(t@),
        None => "null"@,
    }
}

fn json_opt(s: &Option<String>) -> (r: String)
    ensures
        r@ == json_opt_spec(*s),
{
    match s {
        Some(t) => json_str(t.as_str()),
        None => "null".to_owned(),
    }
}

/// What the status line shows, in short.
pub open spec fn status_spec(s: Option<StatusContent>) -> Seq<char> {
    match s {
        Some(StatusContent::TurnRunning { activity, .. }) => json_str_spec(activity@),
        Some(StatusContent::Compacting { .. }) => "\"compacting\""@,
        None => "null"@,
    }
}

fn status_text(s: &Option<StatusContent>) -> (r: String)
    ensures
        r@ == status_spec(*s),
{
    match s {
        Some(StatusContent::TurnRunning { activity, .. }) => json_str(activity.as_str()),
        Some(StatusContent::Compacting { .. }) => "\"compacting\"".to_owned(),
        None => "null".to_owned(),
    }
}

/// How many requests wait.
pub open spec fn ask_count(frame: FrameState) -> nat {
    match frame.composer.content.ask {
        Some(a) => a.pending@.len(),
        None => 0,
    }
}

/// The line of a frame: the event that led to it, and how much each region shows.
pub open spec fn frame_line_spec(event: Seq<char>, frame: FrameState) -> Seq<char> {
    let entries = frame.transcript.body.entries@;
    let usage = frame.footer_hints.usage;
    "{\"event\":"@ + json_str_spec(event) + ",\"entries\":"@ + decimal_spec(entries.len())
        + ",\"kinds\":{"@ + join_spec(kind_members(entries), ","@) + "},\"header\":"@
        + json_opt_spec(frame.transcript.header.text) + ",\"status\":"@ + status_spec(
        frame.operation_status.status_line.content,
    ) + ",\"tasks\":"@ + decimal_spec(frame.operation_status.task_list.items@.len())
        + ",\"sub_agents\":"@ + decimal_spec(frame.sub_agent_bar.agents@.len()) + ",\"asks\":"@
        + decimal_spec(ask_count(frame)) + ",\"selected_block\":"@ + json_opt_spec(
        frame.transcript.body.selected_block,
    ) + ",\"model\":"@ + json_str_spec(frame.footer_hints.model@) + ",\"tok_in\":"@ + decimal_spec(
        usage.token_in as nat,
    ) + ",\"tok_out\":"@ + decimal_spec(usage.token_out as nat) + ",\"turns\":"@ + decimal_spec(
        usage.turn_count as nat,
    ) + "}"@
}

/// Writes the line of a frame.
pub fn frame_line(event: &str, frame: &FrameState) -> (r: String)
    ensures
        r@ == frame_line_spec(event@, *frame),
{
    let entries = &frame.transcript.body.entries;
    let usage = &frame.footer_hints.usage;
    let asks: usize = match &frame.composer.content.ask {
        Some(a) => a.pending.len(),
        None => 0,
    };
    "{\"event\":".to_owned().concat(json_str(event).as_str()).concat(",\"entries\":").concat(
        decimal(entries.len() as u64).as_str(),
    ).concat(",\"kinds\":{").concat(render_kinds(entries).as_str()).concat("},\"header\":").concat(
        json_opt(&frame.transcript.header.text).as_str(),
    ).concat(",\"status\":").concat(
        status_text(&frame.operation_status.status_line.content).as_str(),
    ).concat(",\"tasks\":").concat(
        decimal(frame.operation_status.task_list.items.len() as u64).as_str(),
    ).concat(",\"sub_agents\":").concat(
        decimal(frame.sub_agent_bar.agents.len() as u64).as_str(),
    ).concat(",\"asks\":").concat(decimal(asks as u64).as_str()).concat(
        ",\"selected_block\":",
    ).concat(json_opt(&frame.transcript.body.selected_block).as_str()).concat(",\"model\":").concat(
        json_str(frame.footer_hints.model.as_str()).as_str(),
    ).concat(",\"tok_in\":").concat(decimal(usage.token_in).as_str()).concat(
        ",\"tok_out\":",
    ).concat(decimal(usage.token_out).as_str()).concat(",\"turns\":").concat(
        decimal(usage.turn_count as u64).as_str(),
    ).concat("}")
}

/// The line of a key: what was pressed, and what it came to.
pub fn key_line(key: &str, outcome: &str) -> (r: String)
    ensures
        r@ == "{\"event\":\"key\",\"key\":"@ + json_str_spec(key@) + ",\"outcome\":"@
            + json_str_spec(outcome@) + "}"@,
{
    "{\"event\":\"key\",\"key\":".to_owned().concat(json_str(key).as_str()).concat(
        ",\"outcome\":",
    ).concat(json_str(outcome).as_str()).concat("}")
}

/// The last line of a trace: a frame that shows the same again is not written twice.
#[derive(Debug)]
pub struct Trace {
    last: String,
}

impl Trace {
    pub closed spec fn last_line(&self) -> Seq<char> {
        self.last@
    }

    pub fn new() -> (r: Self)
        ensures
            r.last_line() == Seq::<char>::empty(),
    {
        Trace { last: String::new() }
    }

    /// The line to write for a frame, or `None` where it repeats the last one.
    pub fn record(&mut self, event: &str, frame: &FrameState) -> (r: Option<String>)
        ensures
            r is None == (frame_line_spec(event@, *frame) == old(self).last_line()),
            r matches Some(line) ==> line@ == frame_line_spec(event@, *frame),
            final(self).last_line() == frame_line_spec(event@, *frame),
    {
        let line: String = frame_line(event, frame);
        if line == self.last {
            return None;
        }
        self.last = line.clone();
        Some(line)
    }

    /// The line to write for a key.
    pub fn record_key(&self, key: &str, outcome: &str) -> (r: String)
        ensures
            r@ == "{\"event\":\"key\",\"key\":"@ + json_str_spec(key@) + ",\"outcome\":"@
                + json_str_spec(outcome@) + "}"@,
    {
        key_line(key, outcome)
    }
}

// ---- laws ----------------------------------------------------------------------------

/// No character of a JSON string ends it early or breaks its line: what is escaped holds no
/// control character, and a quote only behind a backslash.
pub proof fn law_escaped_text_is_one_line(s: Seq<char>, i: int)
    requires
        0 <= i < escaped(s).len(),
    ensures
        escaped(s)[i] as u32 >= 0x20,
        escaped(s)[i] == '"' ==> i > 0 && escaped(s)[i - 1] == '\\',
    decreases s.len(),
{
    let before = escaped(s.drop_last());
    if i < before.len() {
        law_escaped_text_is_one_line(s.drop_last(), i);
        assert(escaped(s)[i] == before[i]);
    } else {
        reveal_strlit("\\\"");
        reveal_strlit("\\\\");
        reveal_strlit("\\n");
        reveal_strlit("\\r");
        reveal_strlit("\\t");
        reveal_strlit("\\u00");
    }
}

} // verus!
