//! The notation of shortcuts: `Ctrl+Shift+P`, `Ctrl-X Ctrl-C`, `F5`.
//!
//! Modifiers and named keys are read without regard to case, and `+` and `-` both separate.

use crate::text::{
    chars_of, decimal, decimal_spec, is_white, is_whitespace, string_of, text_eq, texts, trim,
    trim_spec,
};
use vstd::prelude::*;
use vstd::string::*;
use vstd::utf8::is_ascii_chars;

verus! {

/// A key with its modifiers.
#[derive(Debug, Clone, Copy, PartialEq, Eq, Hash, Structural)]
pub struct Shortcut {
    /// Bit 0 is Ctrl, bit 1 Alt, bit 2 Shift, bit 3 Meta.
    pub modifiers: u8,
    /// Letters are lower case.
    pub key: KeyCode,
}

#[derive(Debug, Clone, Copy, PartialEq, Eq, Hash, Structural)]
pub enum KeyCode {
    Char(char),
    Enter,
    Esc,
    Tab,
    BackTab,
    Backspace,
    Delete,
    Up,
    Down,
    Left,
    Right,
    Home,
    End,
    PageUp,
    PageDown,
    Insert,
    Function(u8),
    Space,
}

pub const MOD_CTRL: u8 = 1;

pub const MOD_ALT: u8 = 2;

pub const MOD_SHIFT: u8 = 4;

pub const MOD_META: u8 = 8;

/// Why a text is no shortcut.
#[derive(Debug, PartialEq, Eq)]
pub enum ParseError {
    Empty,
    UnknownKey(String),
    MultiChar(String),
}

/// What a [`ParseError`] holds.
pub enum ParseFault {
    Empty,
    UnknownKey(Seq<char>),
    MultiChar(Seq<char>),
}

impl View for ParseError {
    type V = ParseFault;

    open spec fn view(&self) -> ParseFault {
        match *self {
            ParseError::Empty => ParseFault::Empty,
            ParseError::UnknownKey(s) => ParseFault::UnknownKey(s@),
            ParseError::MultiChar(s) => ParseFault::MultiChar(s@),
        }
    }
}

impl ParseError {
    pub open spec fn message_spec(self) -> Seq<char> {
        match self {
            ParseError::Empty => "empty shortcut"@,
            ParseError::UnknownKey(s) => "unknown key `"@ + s@ + "`"@,
            ParseError::MultiChar(s) => "multi-char keys must be named (got `"@ + s@ + "`)"@,
        }
    }

    /// The error in words.
    pub fn message(&self) -> (r: String)
        ensures
            r@ == self.message_spec(),
    {
        match self {
            ParseError::Empty => "empty shortcut".to_owned(),
            ParseError::UnknownKey(s) => "unknown key `".to_owned().concat(s.as_str()).concat("`"),
            ParseError::MultiChar(s) => "multi-char keys must be named (got `".to_owned().concat(
                s.as_str(),
            ).concat("`)"),
        }
    }
}

// ---- case ----------------------------------------------------------------------------

/// A character with `A` to `Z` in lower case.
pub open spec fn ascii_lower(c: char) -> char {
    if 'A' <= c <= 'Z' {
        ((c as u32) + 32) as char
    } else {
        c
    }
}

/// A text with `A` to `Z` in lower case.
pub open spec fn ascii_lowercase(s: Seq<char>) -> Seq<char> {
    s.map_values(|c: char| ascii_lower(c))
}

/// What `str::to_lowercase` makes of a text that is not all ASCII and whose ASCII letters are
/// in lower case.
pub uninterp spec fn unicode_lowercase(s: Seq<char>) -> Seq<char>;

/// A text in lower case.
pub open spec fn lowercase(s: Seq<char>) -> Seq<char> {
    if is_ascii_chars(s) {
        ascii_lowercase(s)
    } else {
        unicode_lowercase(ascii_lowercase(s))
    }
}

/// `str::to_lowercase` is a function of the text alone, and the case of ASCII letters makes no
/// difference to it: it lowers them one by one, and the one rule that looks at the letters
/// around, that of the sigma at the end of a word, asks for letters of either case. What it
/// makes of the characters beyond ASCII is not stated.
#[verifier::external_body]
pub(crate) fn to_lowercase(s: &str) -> (r: String)
    ensures
        r@ == if is_ascii_chars(s@) {
            ascii_lowercase(s@)
        } else {
            unicode_lowercase(ascii_lowercase(s@))
        },
{
    s.to_lowercase()
}

pub fn to_ascii_lower(c: char) -> (r: char)
    ensures
        r == ascii_lower(c),
{
    if 'A' <= c && c <= 'Z' {
        (c as u8 + 32) as char
    } else {
        c
    }
}

// ---- shortcuts -----------------------------------------------------------------------

impl Shortcut {
    pub fn new(modifiers: u8, key: KeyCode) -> (r: Self)
        ensures
            r == (Shortcut { modifiers, key }),
    {
        Shortcut { modifiers, key }
    }

    pub open spec fn ctrl_spec(c: char) -> Shortcut {
        Shortcut { modifiers: MOD_CTRL, key: KeyCode::Char(ascii_lower(c)) }
    }

    pub fn ctrl(c: char) -> (r: Self)
        ensures
            r == Shortcut::ctrl_spec(c),
    {
        Shortcut::new(MOD_CTRL, KeyCode::Char(to_ascii_lower(c)))
    }

    pub open spec fn has(self, m: u8) -> bool {
        self.modifiers & m != 0
    }

    pub fn has_ctrl(&self) -> (r: bool)
        ensures
            r == self.has(MOD_CTRL),
    {
        self.modifiers & MOD_CTRL != 0
    }

    pub fn has_alt(&self) -> (r: bool)
        ensures
            r == self.has(MOD_ALT),
    {
        self.modifiers & MOD_ALT != 0
    }

    pub fn has_shift(&self) -> (r: bool)
        ensures
            r == self.has(MOD_SHIFT),
    {
        self.modifiers & MOD_SHIFT != 0
    }

    pub fn has_meta(&self) -> (r: bool)
        ensures
            r == self.has(MOD_META),
    {
        self.modifiers & MOD_META != 0
    }

    /// The modifier's name and a `+`, where the shortcut has the modifier.
    pub open spec fn prefix(self, m: u8, name: Seq<char>) -> Seq<char> {
        if self.has(m) {
            name + "+"@
        } else {
            seq![]
        }
    }

    /// The name of a key.
    pub open spec fn key_name(key: KeyCode) -> Seq<char> {
        match key {
            KeyCode::Char(c) => seq![c],
            KeyCode::Enter => "Enter"@,
            KeyCode::Esc => "Esc"@,
            KeyCode::Tab => "Tab"@,
            KeyCode::BackTab => "BackTab"@,
            KeyCode::Backspace => "Backspace"@,
            KeyCode::Delete => "Delete"@,
            KeyCode::Up => "Up"@,
            KeyCode::Down => "Down"@,
            KeyCode::Left => "Left"@,
            KeyCode::Right => "Right"@,
            KeyCode::Home => "Home"@,
            KeyCode::End => "End"@,
            KeyCode::PageUp => "PageUp"@,
            KeyCode::PageDown => "PageDown"@,
            KeyCode::Insert => "Insert"@,
            KeyCode::Space => "Space"@,
            KeyCode::Function(n) => "F"@ + decimal_spec(n as nat),
        }
    }

    /// The modifiers in the order Ctrl, Alt, Shift, Meta, then the key, joined by `+`.
    pub open spec fn render_spec(self) -> Seq<char> {
        self.prefix(MOD_CTRL, "Ctrl"@) + (self.prefix(MOD_ALT, "Alt"@) + (self.prefix(
            MOD_SHIFT,
            "Shift"@,
        ) + (self.prefix(MOD_META, "Meta"@) + Shortcut::key_name(self.key))))
    }

    fn with_prefix(&self, m: u8, name: &str, rest: String) -> (r: String)
        ensures
            r@ == self.prefix(m, name@) + rest@,
    {
        if self.modifiers & m != 0 {
            name.to_owned().concat("+").concat(rest.as_str())
        } else {
            rest
        }
    }

    fn key_text(key: KeyCode) -> (r: String)
        ensures
            r@ == Shortcut::key_name(key),
    {
        match key {
            KeyCode::Char(c) => {
                let mut r: String = String::new();
                r.push(c);
                r
            },
            KeyCode::Enter => "Enter".to_owned(),
            KeyCode::Esc => "Esc".to_owned(),
            KeyCode::Tab => "Tab".to_owned(),
            KeyCode::BackTab => "BackTab".to_owned(),
            KeyCode::Backspace => "Backspace".to_owned(),
            KeyCode::Delete => "Delete".to_owned(),
            KeyCode::Up => "Up".to_owned(),
            KeyCode::Down => "Down".to_owned(),
            KeyCode::Left => "Left".to_owned(),
            KeyCode::Right => "Right".to_owned(),
            KeyCode::Home => "Home".to_owned(),
            KeyCode::End => "End".to_owned(),
            KeyCode::PageUp => "PageUp".to_owned(),
            KeyCode::PageDown => "PageDown".to_owned(),
            KeyCode::Insert => "Insert".to_owned(),
            KeyCode::Space => "Space".to_owned(),
            KeyCode::Function(n) => "F".to_owned().concat(decimal(n as u64).as_str()),
        }
    }

    /// Writes the shortcut in the notation that [`parse_shortcut`] reads.
    pub fn render(&self) -> (r: String)
        ensures
            r@ == self.render_spec(),
    {
        let r: String = Shortcut::key_text(self.key);
        let r: String = self.with_prefix(MOD_META, "Meta", r);
        let r: String = self.with_prefix(MOD_SHIFT, "Shift", r);
        let r: String = self.with_prefix(MOD_ALT, "Alt", r);
        self.with_prefix(MOD_CTRL, "Ctrl", r)
    }
}

// ---- reading -------------------------------------------------------------------------

pub open spec fn is_separator(c: char) -> bool {
    c == '+' || c == '-'
}

/// How many characters stand before the first separator.
pub open spec fn token_len(s: Seq<char>) -> nat
    decreases s.len(),
{
    if s.len() == 0 || is_separator(s[0]) {
        0
    } else {
        1 + token_len(s.drop_first())
    }
}

/// A text as a list of one, or no text where it is empty.
pub open spec fn unless_empty(s: Seq<char>) -> Seq<Seq<char>> {
    if s.len() == 0 {
        seq![]
    } else {
        seq![s]
    }
}

/// What stands between the separators, trimmed, without the empty ones.
pub open spec fn tokens(s: Seq<char>) -> Seq<Seq<char>>
    decreases s.len(),
{
    let k = token_len(s) as int;
    if k >= s.len() {
        unless_empty(trim_spec(s))
    } else {
        unless_empty(trim_spec(s.take(k))) + tokens(s.skip(k + 1))
    }
}

/// The modifier that a lower-case name stands for.
pub open spec fn modifier_named(s: Seq<char>) -> Option<u8> {
    if s == "ctrl"@ || s == "control"@ || s == "c"@ {
        Some(MOD_CTRL)
    } else if s == "alt"@ || s == "option"@ || s == "opt"@ {
        Some(MOD_ALT)
    } else if s == "shift"@ {
        Some(MOD_SHIFT)
    } else if s == "meta"@ || s == "cmd"@ || s == "super"@ || s == "win"@ {
        Some(MOD_META)
    } else {
        None
    }
}

/// The key that a lower-case name stands for.
pub open spec fn key_named(s: Seq<char>) -> Option<KeyCode> {
    if s == "enter"@ || s == "return"@ || s == "ret"@ {
        Some(KeyCode::Enter)
    } else if s == "esc"@ || s == "escape"@ {
        Some(KeyCode::Esc)
    } else if s == "tab"@ {
        Some(KeyCode::Tab)
    } else if s == "backtab"@ || s == "shift-tab"@ || s == "shifttab"@ {
        Some(KeyCode::BackTab)
    } else if s == "backspace"@ || s == "bs"@ {
        Some(KeyCode::Backspace)
    } else if s == "delete"@ || s == "del"@ {
        Some(KeyCode::Delete)
    } else if s == "up"@ || s == "uparrow"@ {
        Some(KeyCode::Up)
    } else if s == "down"@ || s == "downarrow"@ {
        Some(KeyCode::Down)
    } else if s == "left"@ || s == "leftarrow"@ {
        Some(KeyCode::Left)
    } else if s == "right"@ || s == "rightarrow"@ {
        Some(KeyCode::Right)
    } else if s == "home"@ {
        Some(KeyCode::Home)
    } else if s == "end"@ {
        Some(KeyCode::End)
    } else if s == "pageup"@ || s == "pgup"@ {
        Some(KeyCode::PageUp)
    } else if s == "pagedown"@ || s == "pgdown"@ || s == "pgdn"@ {
        Some(KeyCode::PageDown)
    } else if s == "insert"@ || s == "ins"@ {
        Some(KeyCode::Insert)
    } else if s == "space"@ || s == "spc"@ {
        Some(KeyCode::Space)
    } else {
        None
    }
}

/// The value of a decimal digit.
pub open spec fn digit_value(c: char) -> Option<nat> {
    if '0' <= c <= '9' {
        Some((c as u32 - '0' as u32) as nat)
    } else {
        None
    }
}

/// The number that a text of digits writes down.
pub open spec fn number_value(s: Seq<char>) -> Option<nat>
    decreases s.len(),
{
    if s.len() == 0 {
        Some(0)
    } else {
        match (number_value(s.drop_last()), digit_value(s.last())) {
            (Some(n), Some(d)) => Some(10 * n + d),
            _ => None,
        }
    }
}

/// The byte that a text writes down: digits, with or without a `+` in front.
pub open spec fn byte_value(s: Seq<char>) -> Option<u8> {
    let digits = if s.len() > 0 && s[0] == '+' {
        s.skip(1)
    } else {
        s
    };
    match number_value(digits) {
        Some(n) => if digits.len() > 0 && n <= 255 {
            Some(n as u8)
        } else {
            None
        },
        None => None,
    }
}

/// The key that a lower-case token stands for: a named key, `f` with a number from 1 to 12,
/// or a single character.
pub open spec fn key_token(s: Seq<char>) -> Result<KeyCode, ParseFault> {
    match key_named(s) {
        Some(k) => Ok(k),
        None => if s.len() > 1 && s[0] == 'f' {
            match byte_value(s.skip(1)) {
                Some(n) => if 1 <= n <= 12 {
                    Ok(KeyCode::Function(n))
                } else {
                    Err(ParseFault::UnknownKey(s))
                },
                None => Err(ParseFault::UnknownKey(s)),
            }
        } else if s.len() == 1 {
            Ok(KeyCode::Char(ascii_lower(s[0])))
        } else {
            Err(ParseFault::MultiChar(s))
        },
    }
}

/// The shortcut that tokens make up. Only the last token is the key; the tokens before it
/// are modifiers, or keys that a later one replaces.
pub open spec fn assemble(tokens: Seq<Seq<char>>, modifiers: u8) -> Result<Shortcut, ParseFault>
    decreases tokens.len(),
{
    if tokens.len() == 0 {
        Err(ParseFault::Empty)
    } else {
        let low = lowercase(tokens[0]);
        if tokens.len() == 1 {
            match key_token(low) {
                Ok(key) => Ok(Shortcut { modifiers, key }),
                Err(e) => Err(e),
            }
        } else {
            match modifier_named(low) {
                Some(m) => assemble(tokens.drop_first(), modifiers | m),
                None => match key_token(low) {
                    Ok(_) => assemble(tokens.drop_first(), modifiers),
                    Err(e) => Err(e),
                },
            }
        }
    }
}

/// The shortcut that a text denotes.
pub open spec fn parse_spec(s: Seq<char>) -> Result<Shortcut, ParseFault> {
    assemble(tokens(trim_spec(s)), 0)
}

/// What a result holds.
pub open spec fn parsed<T>(r: Result<T, ParseError>) -> Result<T, ParseFault> {
    match r {
        Ok(t) => Ok(t),
        Err(e) => Err(e@),
    }
}

fn read_tokens(s: &str) -> (r: Vec<String>)
    ensures
        texts(r@) == tokens(s@),
{
    let v: Vec<char> = chars_of(s);
    let mut r: Vec<String> = Vec::new();
    let mut start: usize = 0;
    proof {
        assert(v@.skip(0) =~= v@);
    }
    loop
        invariant_except_break
            texts(r@) + tokens(v@.skip(start as int)) == tokens(s@),
        invariant
            start <= v@.len(),
            v@ == s@,
        ensures
            texts(r@) == tokens(s@),
        decreases v@.len() + 1 - start,
    {
        let mut i: usize = start;
        let ghost rest = v@.skip(start as int);
        while i < v.len() && v[i] != '+' && v[i] != '-'
            invariant
                start <= i <= v@.len(),
                rest == v@.skip(start as int),
                token_len(rest) == (i - start) + token_len(v@.skip(i as int)),
            decreases v@.len() - i,
        {
            assert(v@.skip(i as int).drop_first() =~= v@.skip(i + 1));
            i += 1;
        }
        let raw: String = string_of(vstd::slice::slice_subrange(v.as_slice(), start, i));
        let piece: String = trim(raw.as_str());
        assert(raw@ =~= rest.take(i - start));
        if !piece.as_str().is_empty() {
            r.push(piece);
        }
        if i == v.len() {
            break;
        }
        proof {
            assert(rest.skip(i - start + 1) =~= v@.skip(i + 1));
        }
        start = i + 1;
    }
    r
}

fn read_modifier(s: &str) -> (r: Option<u8>)
    ensures
        r == modifier_named(s@),
{
    if text_eq(s, "ctrl") || text_eq(s, "control") || text_eq(s, "c") {
        Some(MOD_CTRL)
    } else if text_eq(s, "alt") || text_eq(s, "option") || text_eq(s, "opt") {
        Some(MOD_ALT)
    } else if text_eq(s, "shift") {
        Some(MOD_SHIFT)
    } else if text_eq(s, "meta") || text_eq(s, "cmd") || text_eq(s, "super") || text_eq(s, "win") {
        Some(MOD_META)
    } else {
        None
    }
}

fn read_named_key(s: &str) -> (r: Option<KeyCode>)
    ensures
        r == key_named(s@),
{
    if text_eq(s, "enter") || text_eq(s, "return") || text_eq(s, "ret") {
        Some(KeyCode::Enter)
    } else if text_eq(s, "esc") || text_eq(s, "escape") {
        Some(KeyCode::Esc)
    } else if text_eq(s, "tab") {
        Some(KeyCode::Tab)
    } else if text_eq(s, "backtab") || text_eq(s, "shift-tab") || text_eq(s, "shifttab") {
        Some(KeyCode::BackTab)
    } else if text_eq(s, "backspace") || text_eq(s, "bs") {
        Some(KeyCode::Backspace)
    } else if text_eq(s, "delete") || text_eq(s, "del") {
        Some(KeyCode::Delete)
    } else if text_eq(s, "up") || text_eq(s, "uparrow") {
        Some(KeyCode::Up)
    } else if text_eq(s, "down") || text_eq(s, "downarrow") {
        Some(KeyCode::Down)
    } else if text_eq(s, "left") || text_eq(s, "leftarrow") {
        Some(KeyCode::Left)
    } else if text_eq(s, "right") || text_eq(s, "rightarrow") {
        Some(KeyCode::Right)
    } else if text_eq(s, "home") {
        Some(KeyCode::Home)
    } else if text_eq(s, "end") {
        Some(KeyCode::End)
    } else if text_eq(s, "pageup") || text_eq(s, "pgup") {
        Some(KeyCode::PageUp)
    } else if text_eq(s, "pagedown") || text_eq(s, "pgdown") || text_eq(s, "pgdn") {
        Some(KeyCode::PageDown)
    } else if text_eq(s, "insert") || text_eq(s, "ins") {
        Some(KeyCode::Insert)
    } else if text_eq(s, "space") || text_eq(s, "spc") {
        Some(KeyCode::Space)
    } else {
        None
    }
}

/// A number never gets smaller when digits follow, and stays no number once it is none.
proof fn lemma_number_prefix(s: Seq<char>, k: int)
    requires
        0 <= k <= s.len(),
        number_value(s) is Some,
    ensures
        number_value(s.take(k)) is Some,
        number_value(s.take(k))->0 <= number_value(s)->0,
    decreases s.len(),
{
    if k < s.len() {
        lemma_number_prefix(s.drop_last(), k);
        assert(s.drop_last().take(k) =~= s.take(k));
    } else {
        assert(s.take(k) =~= s);
    }
}

/// Reads a byte in decimal notation from position `from` on.
fn read_byte(v: &Vec<char>, from: usize) -> (r: Option<u8>)
    requires
        from <= v@.len(),
    ensures
        r == byte_value(v@.skip(from as int)),
{
    let ghost s = v@.skip(from as int);
    let start: usize = if from < v.len() && v[from] == '+' {
        from + 1
    } else {
        from
    };
    let ghost digits = v@.skip(start as int);
    if start == v.len() {
        return None;
    }
    let mut n: u32 = 0;
    let mut i: usize = start;
    while i < v.len()
        invariant
            start <= i <= v@.len(),
            start < v@.len(),
            digits == v@.skip(start as int),
            s.len() > 0 && s[0] == '+' ==> digits == s.skip(1),
            !(s.len() > 0 && s[0] == '+') ==> digits == s,
            s == v@.skip(from as int),
            number_value(digits.take(i - start)) == Some(n as nat),
            n <= 255,
        decreases v@.len() - i,
    {
        let c: char = v[i];
        proof {
            let t = digits.take(i - start + 1);
            assert(t.drop_last() =~= digits.take(i - start));
            if number_value(digits) is Some {
                lemma_number_prefix(digits, i - start + 1);
            }
        }
        if c < '0' || c > '9' {
            return None;
        }
        n = 10 * n + (c as u32 - '0' as u32);
        if n > 255 {
            return None;
        }
        i += 1;
    }
    assert(digits.take(i - start) =~= digits);
    Some(n as u8)
}

/// Reads the key of a lower-case token.
pub fn parse_key_token(s: &str) -> (r: Result<KeyCode, ParseError>)
    ensures
        parsed(r) == key_token(s@),
{
    match read_named_key(s) {
        Some(k) => Ok(k),
        None => {
            let v: Vec<char> = chars_of(s);
            if v.len() > 1 && v[0] == 'f' {
                match read_byte(&v, 1) {
                    Some(n) => if 1 <= n && n <= 12 {
                        Ok(KeyCode::Function(n))
                    } else {
                        Err(ParseError::UnknownKey(s.to_owned()))
                    },
                    None => Err(ParseError::UnknownKey(s.to_owned())),
                }
            } else if v.len() == 1 {
                Ok(KeyCode::Char(to_ascii_lower(v[0])))
            } else {
                Err(ParseError::MultiChar(s.to_owned()))
            }
        },
    }
}

/// Reads a single shortcut such as `Ctrl+P`, `Ctrl-X`, `F5`, `Esc`.
pub fn parse_shortcut(s: &str) -> (r: Result<Shortcut, ParseError>)
    ensures
        parsed(r) == parse_spec(s@),
{
    let trimmed: String = trim(s);
    let parts: Vec<String> = read_tokens(trimmed.as_str());
    let ghost all = texts(parts@);
    let n: usize = parts.len();
    if n == 0 {
        return Err(ParseError::Empty);
    }
    let mut modifiers: u8 = 0;
    let mut i: usize = 0;
    proof {
        assert(all.skip(0) =~= all);
    }
    while i + 1 < n
        invariant
            i < n == parts@.len(),
            all == texts(parts@),
            assemble(all.skip(i as int), modifiers) == parse_spec(s@),
        decreases n - i,
    {
        let low: String = to_lowercase(parts[i].as_str());
        proof {
            assert(all.skip(i as int).drop_first() =~= all.skip(i + 1));
        }
        match read_modifier(low.as_str()) {
            Some(m) => {
                modifiers = modifiers | m;
            },
            None => match parse_key_token(low.as_str()) {
                Ok(_) => {},
                Err(e) => {
                    return Err(e);
                },
            },
        }
        i += 1;
    }
    let low: String = to_lowercase(parts[i].as_str());
    match parse_key_token(low.as_str()) {
        Ok(key) => Ok(Shortcut { modifiers, key }),
        Err(e) => Err(e),
    }
}

// ---- chords --------------------------------------------------------------------------

/// How many characters stand before the first white space.
pub open spec fn word_len(s: Seq<char>) -> nat
    decreases s.len(),
{
    if s.len() == 0 || is_white(s[0]) {
        0
    } else {
        1 + word_len(s.drop_first())
    }
}

/// What stands between white space, without the empty pieces.
pub open spec fn words(s: Seq<char>) -> Seq<Seq<char>>
    decreases s.len(),
{
    let k = word_len(s) as int;
    if k >= s.len() {
        unless_empty(s)
    } else {
        unless_empty(s.take(k)) + words(s.skip(k + 1))
    }
}

/// The shortcuts that words denote, or the fault of the first word that denotes none.
pub open spec fn parse_words(w: Seq<Seq<char>>) -> Result<Seq<Shortcut>, ParseFault>
    decreases w.len(),
{
    if w.len() == 0 {
        Ok(seq![])
    } else {
        match parse_words(w.drop_last()) {
            Err(e) => Err(e),
            Ok(before) => match parse_spec(w.last()) {
                Ok(s) => Ok(before.push(s)),
                Err(e) => Err(e),
            },
        }
    }
}

/// The chord that a text denotes.
pub open spec fn parse_chord_spec(s: Seq<char>) -> Result<Seq<Shortcut>, ParseFault> {
    if words(s).len() == 0 {
        Err(ParseFault::Empty)
    } else {
        parse_words(words(s))
    }
}

/// What the result of reading a chord holds.
pub open spec fn parsed_chord(r: Result<Vec<Shortcut>, ParseError>) -> Result<
    Seq<Shortcut>,
    ParseFault,
> {
    match r {
        Ok(v) => Ok(v@),
        Err(e) => Err(e@),
    }
}

fn read_words(s: &str) -> (r: Vec<String>)
    ensures
        texts(r@) == words(s@),
{
    let v: Vec<char> = chars_of(s);
    let mut r: Vec<String> = Vec::new();
    let mut start: usize = 0;
    proof {
        assert(v@.skip(0) =~= v@);
    }
    loop
        invariant_except_break
            texts(r@) + words(v@.skip(start as int)) == words(s@),
        invariant
            start <= v@.len(),
            v@ == s@,
        ensures
            texts(r@) == words(s@),
        decreases v@.len() + 1 - start,
    {
        let mut i: usize = start;
        let ghost rest = v@.skip(start as int);
        while i < v.len() && !is_whitespace(v[i])
            invariant
                start <= i <= v@.len(),
                rest == v@.skip(start as int),
                word_len(rest) == (i - start) + word_len(v@.skip(i as int)),
            decreases v@.len() - i,
        {
            assert(v@.skip(i as int).drop_first() =~= v@.skip(i + 1));
            i += 1;
        }
        let piece: String = string_of(vstd::slice::slice_subrange(v.as_slice(), start, i));
        assert(piece@ =~= rest.take(i - start));
        if !piece.as_str().is_empty() {
            r.push(piece);
        }
        if i == v.len() {
            break;
        }
        proof {
            assert(rest.skip(i - start + 1) =~= v@.skip(i + 1));
        }
        start = i + 1;
    }
    r
}

/// Once a word is at fault, the words behind it change nothing.
proof fn lemma_parse_words_fault(w: Seq<Seq<char>>, k: int)
    requires
        0 <= k <= w.len(),
        parse_words(w.take(k)) is Err,
    ensures
        parse_words(w) == parse_words(w.take(k)),
    decreases w.len(),
{
    if k < w.len() {
        assert(w.drop_last().take(k) =~= w.take(k));
        lemma_parse_words_fault(w.drop_last(), k);
    } else {
        assert(w.take(k) =~= w);
    }
}

/// Reads a chord such as `Ctrl+X Ctrl+C`: shortcuts with white space between them.
pub fn parse_chord(s: &str) -> (r: Result<Vec<Shortcut>, ParseError>)
    ensures
        parsed_chord(r) == parse_chord_spec(s@),
{
    let parts: Vec<String> = read_words(s);
    let ghost all = texts(parts@);
    if parts.len() == 0 {
        return Err(ParseError::Empty);
    }
    let mut out: Vec<Shortcut> = Vec::new();
    let mut i: usize = 0;
    while i < parts.len()
        invariant
            i <= parts@.len(),
            all == texts(parts@),
            all == words(s@),
            all.len() > 0,
            parse_words(all.take(i as int)) == Ok::<Seq<Shortcut>, ParseFault>(out@),
        decreases parts@.len() - i,
    {
        proof {
            assert(all.take(i + 1).drop_last() =~= all.take(i as int));
        }
        match parse_shortcut(parts[i].as_str()) {
            Ok(k) => out.push(k),
            Err(e) => {
                proof {
                    lemma_parse_words_fault(all, i + 1);
                }
                return Err(e);
            },
        }
        i += 1;
    }
    assert(all.take(i as int) =~= all);
    Ok(out)
}

} // verus!
