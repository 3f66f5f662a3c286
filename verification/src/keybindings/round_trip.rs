//! Writing a shortcut and reading it back gives the same shortcut; and what does not matter
//! in how it is written.

use crate::keybindings::parser::{
    ascii_lower, ascii_lowercase, assemble, digit_value, is_separator, key_named, key_token,
    lowercase, modifier_named, number_value, parse_chord_spec, parse_spec, parse_words, token_len,
    tokens, unless_empty, word_len, words, KeyCode, Shortcut, MOD_ALT, MOD_CTRL, MOD_META,
    MOD_SHIFT,
};
use crate::text::{decimal_spec, digit_char, is_white, trim_end_spec, trim_spec, trim_start_spec};
use vstd::prelude::*;
use vstd::utf8::is_ascii_chars;

verus! {

/// A key that has a name of its own in the notation: a character is neither a separator nor
/// white space and is in lower case, and function keys go from 1 to 12.
pub open spec fn is_canonical_key(key: KeyCode) -> bool {
    match key {
        KeyCode::Char(c) => !is_separator(c) && !is_white(c) && lowercase(seq![c]) == seq![c],
        KeyCode::Function(n) => 1 <= n <= 12,
        _ => true,
    }
}

/// A shortcut with a canonical key and no modifier bits beyond the four.
pub open spec fn is_canonical(s: Shortcut) -> bool {
    s.modifiers < 16 && is_canonical_key(s.key)
}

/// A token that stands for itself: not empty, without separators and white space.
pub open spec fn is_plain(w: Seq<char>) -> bool {
    &&& w.len() > 0
    &&& forall|i: int| 0 <= i < w.len() ==> !is_separator(#[trigger] w[i]) && !is_white(w[i])
}

proof fn lemma_token_len(s: Seq<char>, k: int)
    requires
        0 <= k <= s.len(),
        forall|i: int| 0 <= i < k ==> !is_separator(#[trigger] s[i]),
        k < s.len() ==> is_separator(s[k]),
    ensures
        token_len(s) == k,
    decreases k,
{
    if k > 0 {
        assert(!is_separator(s[0]));
        let t = s.drop_first();
        lemma_token_len(t, k - 1);
    }
}

proof fn lemma_trim_plain(w: Seq<char>)
    requires
        w.len() > 0,
        !is_white(w[0]),
        !is_white(w.last()),
    ensures
        trim_spec(w) == w,
{
}

proof fn lemma_tokens_one(w: Seq<char>)
    requires
        is_plain(w),
    ensures
        tokens(w) == seq![w],
{
    lemma_token_len(w, w.len() as int);
    lemma_trim_plain(w);
}

proof fn lemma_tokens_cons(w: Seq<char>, t: Seq<char>)
    requires
        is_plain(w),
    ensures
        tokens((w + "+"@) + t) == seq![w] + tokens(t),
{
    reveal_strlit("+");
    let s = (w + "+"@) + t;
    let k = w.len() as int;
    assert(s[k] == '+');
    lemma_token_len(s, k);
    assert(s.take(k) =~= w);
    assert(s.skip(k + 1) =~= t);
    lemma_trim_plain(w);
}

/// The four modifiers, read and written.
proof fn lemma_modifier_names()
    ensures
        is_plain("Ctrl"@) && modifier_named(lowercase("Ctrl"@)) == Some(MOD_CTRL),
        is_plain("Alt"@) && modifier_named(lowercase("Alt"@)) == Some(MOD_ALT),
        is_plain("Shift"@) && modifier_named(lowercase("Shift"@)) == Some(MOD_SHIFT),
        is_plain("Meta"@) && modifier_named(lowercase("Meta"@)) == Some(MOD_META),
{
    reveal_strlit("Ctrl");
    reveal_strlit("Alt");
    reveal_strlit("Shift");
    reveal_strlit("Meta");
    reveal_strlit("ctrl");
    reveal_strlit("control");
    reveal_strlit("c");
    reveal_strlit("alt");
    reveal_strlit("option");
    reveal_strlit("opt");
    reveal_strlit("shift");
    reveal_strlit("meta");
    assert(ascii_lowercase("Ctrl"@) =~= "ctrl"@);
    assert(ascii_lowercase("Alt"@) =~= "alt"@);
    assert(ascii_lowercase("Shift"@) =~= "shift"@);
    assert(ascii_lowercase("Meta"@) =~= "meta"@);
    assert("meta"@[0] == 'm' && "ctrl"@[0] == 'c');
}

/// The characters of a written number are digits, and they read back as the number.
proof fn lemma_decimal(n: nat)
    ensures
        decimal_spec(n).len() > 0,
        number_value(decimal_spec(n)) == Some(n),
        forall|i: int| 0 <= i < decimal_spec(n).len() ==> '0' <= #[trigger] decimal_spec(n)[i] <= '9',
    decreases n,
{
    if n < 10 {
        let s = decimal_spec(n);
        assert(s.drop_last() =~= seq![]);
        assert(digit_value(digit_char(n)) == Some(n));
        assert(number_value(s.drop_last()) == Some(0nat));
    } else {
        lemma_decimal(n / 10);
        let s = decimal_spec(n);
        assert(s.drop_last() =~= decimal_spec(n / 10));
        assert(digit_value(digit_char(n % 10)) == Some(n % 10));
        assert forall|i: int| 0 <= i < s.len() implies '0' <= #[trigger] s[i] <= '9' by {
            if i < s.len() - 1 {
                assert(s[i] == decimal_spec(n / 10)[i]);
            }
        }
    }
}

/// No name of a key begins with `f`, and none is a single character.
proof fn lemma_key_names_shape(s: Seq<char>)
    requires
        s.len() <= 1 || s[0] == 'f',
    ensures
        key_named(s) is None,
{
    reveal_strlit("enter");
    reveal_strlit("return");
    reveal_strlit("ret");
    reveal_strlit("esc");
    reveal_strlit("escape");
    reveal_strlit("tab");
    reveal_strlit("backtab");
    reveal_strlit("shift-tab");
    reveal_strlit("shifttab");
    reveal_strlit("backspace");
    reveal_strlit("bs");
    reveal_strlit("delete");
    reveal_strlit("del");
    reveal_strlit("up");
    reveal_strlit("uparrow");
    reveal_strlit("down");
    reveal_strlit("downarrow");
    reveal_strlit("left");
    reveal_strlit("leftarrow");
    reveal_strlit("right");
    reveal_strlit("rightarrow");
    reveal_strlit("home");
    reveal_strlit("end");
    reveal_strlit("pageup");
    reveal_strlit("pgup");
    reveal_strlit("pagedown");
    reveal_strlit("pgdown");
    reveal_strlit("pgdn");
    reveal_strlit("insert");
    reveal_strlit("ins");
    reveal_strlit("space");
    reveal_strlit("spc");
}

proof fn lemma_function_key(n: u8)
    requires
        1 <= n <= 12,
    ensures
        is_plain(Shortcut::key_name(KeyCode::Function(n))),
        key_token(lowercase(Shortcut::key_name(KeyCode::Function(n)))) == Ok::<
            KeyCode,
            crate::keybindings::parser::ParseFault,
        >(KeyCode::Function(n)),
{
    reveal_strlit("F");
    let d = decimal_spec(n as nat);
    lemma_decimal(n as nat);
    let s = "F"@ + d;
    let low = seq!['f'] + d;
    assert(ascii_lowercase(s) =~= low);
    lemma_key_names_shape(low);
    assert(low.skip(1) =~= d);
}

proof fn lemma_char_key(c: char)
    requires
        is_canonical_key(KeyCode::Char(c)),
    ensures
        is_plain(Shortcut::key_name(KeyCode::Char(c))),
        key_token(lowercase(Shortcut::key_name(KeyCode::Char(c)))) == Ok::<
            KeyCode,
            crate::keybindings::parser::ParseFault,
        >(KeyCode::Char(c)),
{
    let s = seq![c];
    lemma_key_names_shape(s);
    if 'A' <= c <= 'Z' {
        assert(is_ascii_chars(s));
    }
}

/// The named keys, written and read.
#[verifier::spinoff_prover]
proof fn lemma_named_key(key: KeyCode)
    requires
        !(key is Char),
        !(key is Function),
    ensures
        is_plain(Shortcut::key_name(key)),
        key_token(lowercase(Shortcut::key_name(key))) == Ok::<
            KeyCode,
            crate::keybindings::parser::ParseFault,
        >(key),
{
    match key {
        KeyCode::Enter => {
            reveal_strlit("Enter");
            reveal_strlit("enter");
            assert(ascii_lowercase("Enter"@) =~= "enter"@);
        },
        KeyCode::Esc => {
            reveal_strlit("Esc");
            reveal_strlit("esc");
            reveal_strlit("enter");
            reveal_strlit("return");
            reveal_strlit("ret");
            assert(ascii_lowercase("Esc"@) =~= "esc"@);
            assert("esc"@[0] != "ret"@[0]);
        },
        KeyCode::Tab => {
            reveal_strlit("Tab");
            reveal_strlit("tab");
            reveal_strlit("enter");
            reveal_strlit("return");
            reveal_strlit("ret");
            reveal_strlit("esc");
            reveal_strlit("escape");
            assert(ascii_lowercase("Tab"@) =~= "tab"@);
            assert("tab"@[0] != "ret"@[0]);
            assert("tab"@[0] != "esc"@[0]);
        },
        KeyCode::BackTab => {
            reveal_strlit("BackTab");
            reveal_strlit("backtab");
            reveal_strlit("enter");
            reveal_strlit("return");
            reveal_strlit("ret");
            reveal_strlit("esc");
            reveal_strlit("escape");
            reveal_strlit("tab");
            assert(ascii_lowercase("BackTab"@) =~= "backtab"@);
        },
        KeyCode::Backspace => {
            reveal_strlit("Backspace");
            reveal_strlit("backspace");
            reveal_strlit("enter");
            reveal_strlit("return");
            reveal_strlit("ret");
            reveal_strlit("esc");
            reveal_strlit("escape");
            reveal_strlit("tab");
            reveal_strlit("backtab");
            reveal_strlit("shift-tab");
            reveal_strlit("shifttab");
            assert(ascii_lowercase("Backspace"@) =~= "backspace"@);
            assert("backspace"@[0] != "shift-tab"@[0]);
        },
        KeyCode::Delete => {
            reveal_strlit("Delete");
            reveal_strlit("delete");
            reveal_strlit("enter");
            reveal_strlit("return");
            reveal_strlit("ret");
            reveal_strlit("esc");
            reveal_strlit("escape");
            reveal_strlit("tab");
            reveal_strlit("backtab");
            reveal_strlit("shift-tab");
            reveal_strlit("shifttab");
            reveal_strlit("backspace");
            reveal_strlit("bs");
            assert(ascii_lowercase("Delete"@) =~= "delete"@);
            assert("delete"@[0] != "return"@[0]);
            assert("delete"@[0] != "escape"@[0]);
        },
        KeyCode::Up => {
            reveal_strlit("Up");
            reveal_strlit("up");
            reveal_strlit("enter");
            reveal_strlit("return");
            reveal_strlit("ret");
            reveal_strlit("esc");
            reveal_strlit("escape");
            reveal_strlit("tab");
            reveal_strlit("backtab");
            reveal_strlit("shift-tab");
            reveal_strlit("shifttab");
            reveal_strlit("backspace");
            reveal_strlit("bs");
            reveal_strlit("delete");
            reveal_strlit("del");
            assert(ascii_lowercase("Up"@) =~= "up"@);
            assert("up"@[0] != "bs"@[0]);
        },
        KeyCode::Down => {
            reveal_strlit("Down");
            reveal_strlit("down");
            reveal_strlit("enter");
            reveal_strlit("return");
            reveal_strlit("ret");
            reveal_strlit("esc");
            reveal_strlit("escape");
            reveal_strlit("tab");
            reveal_strlit("backtab");
            reveal_strlit("shift-tab");
            reveal_strlit("shifttab");
            reveal_strlit("backspace");
            reveal_strlit("bs");
            reveal_strlit("delete");
            reveal_strlit("del");
            reveal_strlit("up");
            reveal_strlit("uparrow");
            assert(ascii_lowercase("Down"@) =~= "down"@);
        },
        KeyCode::Left => {
            reveal_strlit("Left");
            reveal_strlit("left");
            reveal_strlit("enter");
            reveal_strlit("return");
            reveal_strlit("ret");
            reveal_strlit("esc");
            reveal_strlit("escape");
            reveal_strlit("tab");
            reveal_strlit("backtab");
            reveal_strlit("shift-tab");
            reveal_strlit("shifttab");
            reveal_strlit("backspace");
            reveal_strlit("bs");
            reveal_strlit("delete");
            reveal_strlit("del");
            reveal_strlit("up");
            reveal_strlit("uparrow");
            reveal_strlit("down");
            reveal_strlit("downarrow");
            assert(ascii_lowercase("Left"@) =~= "left"@);
            assert("left"@[0] != "down"@[0]);
        },
        KeyCode::Right => {
            reveal_strlit("Right");
            reveal_strlit("right");
            reveal_strlit("enter");
            reveal_strlit("return");
            reveal_strlit("ret");
            reveal_strlit("esc");
            reveal_strlit("escape");
            reveal_strlit("tab");
            reveal_strlit("backtab");
            reveal_strlit("shift-tab");
            reveal_strlit("shifttab");
            reveal_strlit("backspace");
            reveal_strlit("bs");
            reveal_strlit("delete");
            reveal_strlit("del");
            reveal_strlit("up");
            reveal_strlit("uparrow");
            reveal_strlit("down");
            reveal_strlit("downarrow");
            reveal_strlit("left");
            reveal_strlit("leftarrow");
            assert(ascii_lowercase("Right"@) =~= "right"@);
            assert("right"@[0] != "enter"@[0]);
        },
        KeyCode::Home => {
            reveal_strlit("Home");
            reveal_strlit("home");
            reveal_strlit("enter");
            reveal_strlit("return");
            reveal_strlit("ret");
            reveal_strlit("esc");
            reveal_strlit("escape");
            reveal_strlit("tab");
            reveal_strlit("backtab");
            reveal_strlit("shift-tab");
            reveal_strlit("shifttab");
            reveal_strlit("backspace");
            reveal_strlit("bs");
            reveal_strlit("delete");
            reveal_strlit("del");
            reveal_strlit("up");
            reveal_strlit("uparrow");
            reveal_strlit("down");
            reveal_strlit("downarrow");
            reveal_strlit("left");
            reveal_strlit("leftarrow");
            reveal_strlit("right");
            reveal_strlit("rightarrow");
            assert(ascii_lowercase("Home"@) =~= "home"@);
            assert("home"@[0] != "down"@[0]);
            assert("home"@[0] != "left"@[0]);
        },
        KeyCode::End => {
            reveal_strlit("End");
            reveal_strlit("end");
            reveal_strlit("enter");
            reveal_strlit("return");
            reveal_strlit("ret");
            reveal_strlit("esc");
            reveal_strlit("escape");
            reveal_strlit("tab");
            reveal_strlit("backtab");
            reveal_strlit("shift-tab");
            reveal_strlit("shifttab");
            reveal_strlit("backspace");
            reveal_strlit("bs");
            reveal_strlit("delete");
            reveal_strlit("del");
            reveal_strlit("up");
            reveal_strlit("uparrow");
            reveal_strlit("down");
            reveal_strlit("downarrow");
            reveal_strlit("left");
            reveal_strlit("leftarrow");
            reveal_strlit("right");
            reveal_strlit("rightarrow");
            reveal_strlit("home");
            assert(ascii_lowercase("End"@) =~= "end"@);
            assert("end"@[0] != "ret"@[0]);
            assert("end"@[1] != "esc"@[1]);
            assert("end"@[0] != "tab"@[0]);
            assert("end"@[0] != "del"@[0]);
        },
        KeyCode::PageUp => {
            reveal_strlit("PageUp");
            reveal_strlit("pageup");
            reveal_strlit("enter");
            reveal_strlit("return");
            reveal_strlit("ret");
            reveal_strlit("esc");
            reveal_strlit("escape");
            reveal_strlit("tab");
            reveal_strlit("backtab");
            reveal_strlit("shift-tab");
            reveal_strlit("shifttab");
            reveal_strlit("backspace");
            reveal_strlit("bs");
            reveal_strlit("delete");
            reveal_strlit("del");
            reveal_strlit("up");
            reveal_strlit("uparrow");
            reveal_strlit("down");
            reveal_strlit("downarrow");
            reveal_strlit("left");
            reveal_strlit("leftarrow");
            reveal_strlit("right");
            reveal_strlit("rightarrow");
            reveal_strlit("home");
            reveal_strlit("end");
            assert(ascii_lowercase("PageUp"@) =~= "pageup"@);
            assert("pageup"@[0] != "return"@[0]);
            assert("pageup"@[0] != "escape"@[0]);
            assert("pageup"@[0] != "delete"@[0]);
        },
        KeyCode::PageDown => {
            reveal_strlit("PageDown");
            reveal_strlit("pagedown");
            reveal_strlit("enter");
            reveal_strlit("return");
            reveal_strlit("ret");
            reveal_strlit("esc");
            reveal_strlit("escape");
            reveal_strlit("tab");
            reveal_strlit("backtab");
            reveal_strlit("shift-tab");
            reveal_strlit("shifttab");
            reveal_strlit("backspace");
            reveal_strlit("bs");
            reveal_strlit("delete");
            reveal_strlit("del");
            reveal_strlit("up");
            reveal_strlit("uparrow");
            reveal_strlit("down");
            reveal_strlit("downarrow");
            reveal_strlit("left");
            reveal_strlit("leftarrow");
            reveal_strlit("right");
            reveal_strlit("rightarrow");
            reveal_strlit("home");
            reveal_strlit("end");
            reveal_strlit("pageup");
            reveal_strlit("pgup");
            assert(ascii_lowercase("PageDown"@) =~= "pagedown"@);
            assert("pagedown"@[0] != "shifttab"@[0]);
        },
        KeyCode::Insert => {
            reveal_strlit("Insert");
            reveal_strlit("insert");
            reveal_strlit("enter");
            reveal_strlit("return");
            reveal_strlit("ret");
            reveal_strlit("esc");
            reveal_strlit("escape");
            reveal_strlit("tab");
            reveal_strlit("backtab");
            reveal_strlit("shift-tab");
            reveal_strlit("shifttab");
            reveal_strlit("backspace");
            reveal_strlit("bs");
            reveal_strlit("delete");
            reveal_strlit("del");
            reveal_strlit("up");
            reveal_strlit("uparrow");
            reveal_strlit("down");
            reveal_strlit("downarrow");
            reveal_strlit("left");
            reveal_strlit("leftarrow");
            reveal_strlit("right");
            reveal_strlit("rightarrow");
            reveal_strlit("home");
            reveal_strlit("end");
            reveal_strlit("pageup");
            reveal_strlit("pgup");
            reveal_strlit("pagedown");
            reveal_strlit("pgdown");
            reveal_strlit("pgdn");
            assert(ascii_lowercase("Insert"@) =~= "insert"@);
        },
        KeyCode::Space => {
            reveal_strlit("Space");
            reveal_strlit("space");
            reveal_strlit("enter");
            reveal_strlit("return");
            reveal_strlit("ret");
            reveal_strlit("esc");
            reveal_strlit("escape");
            reveal_strlit("tab");
            reveal_strlit("backtab");
            reveal_strlit("shift-tab");
            reveal_strlit("shifttab");
            reveal_strlit("backspace");
            reveal_strlit("bs");
            reveal_strlit("delete");
            reveal_strlit("del");
            reveal_strlit("up");
            reveal_strlit("uparrow");
            reveal_strlit("down");
            reveal_strlit("downarrow");
            reveal_strlit("left");
            reveal_strlit("leftarrow");
            reveal_strlit("right");
            reveal_strlit("rightarrow");
            reveal_strlit("home");
            reveal_strlit("end");
            reveal_strlit("pageup");
            reveal_strlit("pgup");
            reveal_strlit("pagedown");
            reveal_strlit("pgdown");
            reveal_strlit("pgdn");
            reveal_strlit("insert");
            reveal_strlit("ins");
            assert(ascii_lowercase("Space"@) =~= "space"@);
        },
        _ => {},
    }
}

proof fn lemma_key(key: KeyCode)
    requires
        is_canonical_key(key),
    ensures
        is_plain(Shortcut::key_name(key)),
        key_token(lowercase(Shortcut::key_name(key))) == Ok::<
            KeyCode,
            crate::keybindings::parser::ParseFault,
        >(key),
{
    match key {
        KeyCode::Char(c) => lemma_char_key(c),
        KeyCode::Function(n) => lemma_function_key(n),
        _ => lemma_named_key(key),
    }
}

/// One modifier in front of a text is one token more, which sets the modifier's bit.
proof fn lemma_prefix(s: Shortcut, m: u8, name: Seq<char>, rest: Seq<char>, modifiers: u8)
    requires
        is_plain(name),
        modifier_named(lowercase(name)) == Some(m),
        tokens(rest).len() > 0,
    ensures
        tokens(s.prefix(m, name) + rest).len() > 0,
        assemble(tokens(s.prefix(m, name) + rest), modifiers) == assemble(
            tokens(rest),
            if s.has(m) {
                modifiers | m
            } else {
                modifiers
            },
        ),
{
    if s.has(m) {
        lemma_tokens_cons(name, rest);
        let t = tokens((name + "+"@) + rest);
        assert(t.drop_first() =~= tokens(rest));
    }
}

proof fn lemma_ends_plain(s: Shortcut)
    requires
        is_canonical(s),
    ensures
        s.render_spec().len() > 0,
        !is_white(s.render_spec()[0]),
        !is_white(s.render_spec().last()),
{
    lemma_modifier_names();
    lemma_key(s.key);
    let r = s.render_spec();
    if s.has(MOD_CTRL) {
        assert(r[0] == "Ctrl"@[0]);
    } else if s.has(MOD_ALT) {
        assert(r[0] == "Alt"@[0]);
    }
}

/// A shortcut in canonical form is read back from what is written for it.
pub proof fn law_render_parses_back(s: Shortcut)
    requires
        is_canonical(s),
    ensures
        parse_spec(s.render_spec()) == Ok::<Shortcut, crate::keybindings::parser::ParseFault>(s),
{
    lemma_modifier_names();
    lemma_key(s.key);
    lemma_ends_plain(s);
    let k = Shortcut::key_name(s.key);
    lemma_tokens_one(k);
    let r3 = s.prefix(MOD_META, "Meta"@) + k;
    let r2 = s.prefix(MOD_SHIFT, "Shift"@) + r3;
    let r1 = s.prefix(MOD_ALT, "Alt"@) + r2;
    let m1: u8 = if s.has(MOD_CTRL) {
        0u8 | MOD_CTRL
    } else {
        0
    };
    let m2: u8 = if s.has(MOD_ALT) {
        m1 | MOD_ALT
    } else {
        m1
    };
    let m3: u8 = if s.has(MOD_SHIFT) {
        m2 | MOD_SHIFT
    } else {
        m2
    };
    let m4: u8 = if s.has(MOD_META) {
        m3 | MOD_META
    } else {
        m3
    };
    lemma_prefix(s, MOD_META, "Meta"@, k, m3);
    lemma_prefix(s, MOD_SHIFT, "Shift"@, r3, m2);
    lemma_prefix(s, MOD_ALT, "Alt"@, r2, m1);
    lemma_prefix(s, MOD_CTRL, "Ctrl"@, r1, 0);
    let b = s.modifiers;
    assert(m4 == b) by {
        let c0: u8 = if b & 1u8 != 0 { 0u8 | 1u8 } else { 0 };
        let c1: u8 = if b & 2u8 != 0 { c0 | 2u8 } else { c0 };
        let c2: u8 = if b & 4u8 != 0 { c1 | 4u8 } else { c1 };
        let c3: u8 = if b & 8u8 != 0 { c2 | 8u8 } else { c2 };
        assert(b < 16 ==> c3 == b) by (bit_vector)
            requires
                c0 == (if b & 1u8 != 0 { 0u8 | 1u8 } else { 0u8 }),
                c1 == (if b & 2u8 != 0 { c0 | 2u8 } else { c0 }),
                c2 == (if b & 4u8 != 0 { c1 | 4u8 } else { c1 }),
                c3 == (if b & 8u8 != 0 { c2 | 8u8 } else { c2 }),
        ;
    }
}

/// Every token is ASCII text, not empty, without separators, and not white at its ends.
pub open spec fn is_token(t: Seq<char>) -> bool {
    &&& t.len() > 0
    &&& is_ascii_chars(t)
    &&& forall|i: int| 0 <= i < t.len() ==> !is_separator(#[trigger] t[i])
    &&& !is_white(t[0])
}

proof fn lemma_trim_start_subrange(s: Seq<char>)
    ensures
        trim_start_spec(s).len() <= s.len(),
        trim_start_spec(s) =~= s.skip(s.len() - trim_start_spec(s).len()),
        trim_start_spec(s).len() > 0 ==> !is_white(trim_start_spec(s)[0]),
    decreases s.len(),
{
    if s.len() > 0 && is_white(s[0]) {
        lemma_trim_start_subrange(s.drop_first());
    }
}

proof fn lemma_trim_end_subrange(s: Seq<char>)
    ensures
        trim_end_spec(s).len() <= s.len(),
        trim_end_spec(s) =~= s.take(trim_end_spec(s).len() as int),
    decreases s.len(),
{
    if s.len() > 0 && is_white(s.last()) {
        lemma_trim_end_subrange(s.drop_last());
    }
}

proof fn lemma_trim_is_token(s: Seq<char>)
    requires
        is_ascii_chars(s),
        forall|i: int| 0 <= i < s.len() ==> !is_separator(#[trigger] s[i]),
        trim_spec(s).len() > 0,
    ensures
        is_token(trim_spec(s)),
{
    let a = trim_start_spec(s);
    let t = trim_spec(s);
    lemma_trim_start_subrange(s);
    lemma_trim_end_subrange(a);
    assert forall|i: int| 0 <= i < t.len() implies !is_separator(#[trigger] t[i]) && '\0' <= t[i]
        <= '\u{7f}' by {
    }
}

proof fn lemma_token_len_props(s: Seq<char>)
    ensures
        token_len(s) <= s.len(),
        forall|i: int| 0 <= i < token_len(s) ==> !is_separator(#[trigger] s[i]),
    decreases s.len(),
{
    if s.len() > 0 && !is_separator(s[0]) {
        let t = s.drop_first();
        lemma_token_len_props(t);
        assert forall|i: int| 0 <= i < token_len(s) implies !is_separator(#[trigger] s[i]) by {
            if i > 0 {
                assert(s[i] == t[i - 1]);
            }
        }
    }
}

proof fn lemma_tokens_are_tokens(s: Seq<char>)
    requires
        is_ascii_chars(s),
    ensures
        forall|i: int| 0 <= i < tokens(s).len() ==> is_token(#[trigger] tokens(s)[i]),
    decreases s.len(),
{
    let k = token_len(s) as int;
    lemma_token_len_props(s);
    let w = s.take(k);
    assert forall|i: int| 0 <= i < w.len() implies !is_separator(#[trigger] w[i]) && '\0' <= w[i]
        <= '\u{7f}' by {
    }
    if trim_spec(w).len() > 0 {
        lemma_trim_is_token(w);
    }
    if k >= s.len() {
        assert(w =~= s);
    } else {
        let t = s.skip(k + 1);
        assert forall|i: int| 0 <= i < t.len() implies '\0' <= #[trigger] t[i] <= '\u{7f}' by {
        }
        lemma_tokens_are_tokens(t);
        let head = unless_empty(trim_spec(w));
        assert forall|i: int| 0 <= i < tokens(s).len() implies is_token(#[trigger] tokens(s)[i]) by {
            if i >= head.len() {
                assert(tokens(s)[i] == tokens(t)[i - head.len()]);
            }
        }
    }
}

proof fn lemma_key_token_canonical(t: Seq<char>)
    requires
        is_token(t),
        key_token(lowercase(t)) is Ok,
    ensures
        is_canonical_key(key_token(lowercase(t))->Ok_0),
{
    let low = ascii_lowercase(t);
    if key_named(low) is None && !(low.len() > 1 && low[0] == 'f') {
        let c = ascii_lower(low[0]);
        let one = seq![c];
        assert(ascii_lowercase(one) =~= one);
    }
}

proof fn lemma_assemble_canonical(ts: Seq<Seq<char>>, modifiers: u8)
    requires
        forall|i: int| 0 <= i < ts.len() ==> is_token(#[trigger] ts[i]),
        modifiers < 16,
        assemble(ts, modifiers) is Ok,
    ensures
        is_canonical(assemble(ts, modifiers)->Ok_0),
    decreases ts.len(),
{
    let low = lowercase(ts[0]);
    if ts.len() == 1 {
        lemma_key_token_canonical(ts[0]);
    } else {
        match modifier_named(low) {
            Some(m) => {
                assert(modifiers < 16 && (m == 1u8 || m == 2u8 || m == 4u8 || m == 8u8) ==> modifiers
                    | m < 16) by (bit_vector);
                lemma_assemble_canonical(ts.drop_first(), modifiers | m);
            },
            None => lemma_assemble_canonical(ts.drop_first(), modifiers),
        }
    }
}

/// What an ASCII text denotes is in canonical form.
pub proof fn law_parsed_is_canonical(s: Seq<char>)
    requires
        is_ascii_chars(s),
        parse_spec(s) is Ok,
    ensures
        is_canonical(parse_spec(s)->Ok_0),
{
    let a = trim_start_spec(s);
    let t = trim_spec(s);
    lemma_trim_start_subrange(s);
    lemma_trim_end_subrange(a);
    assert forall|i: int| 0 <= i < t.len() implies '\0' <= #[trigger] t[i] <= '\u{7f}' by {
    }
    lemma_tokens_are_tokens(t);
    lemma_assemble_canonical(tokens(t), 0);
}

/// Reading an ASCII text, writing what it denotes and reading that again changes nothing.
pub proof fn law_parse_round_trips(s: Seq<char>)
    requires
        is_ascii_chars(s),
        parse_spec(s) is Ok,
    ensures
        parse_spec((parse_spec(s)->Ok_0).render_spec()) == parse_spec(s),
{
    law_parsed_is_canonical(s);
    law_render_parses_back(parse_spec(s)->Ok_0);
}

// ---- separators and case -------------------------------------------------------------

/// A text with `+` and `-` exchanged.
pub open spec fn exchanged(s: Seq<char>) -> Seq<char> {
    s.map_values(
        |c: char|
            if c == '+' {
                '-'
            } else if c == '-' {
                '+'
            } else {
                c
            },
    )
}

/// A text with `a` to `z` in upper case.
pub open spec fn ascii_uppercase(s: Seq<char>) -> Seq<char> {
    s.map_values(
        |c: char|
            if 'a' <= c <= 'z' {
                ((c as u32) - 32) as char
            } else {
                c
            },
    )
}

/// A change of characters that keeps white space and separators what they are.
spec fn keeps_shape(f: spec_fn(char) -> char) -> bool {
    forall|c: char|
        #![trigger f(c)]
        is_white(f(c)) == is_white(c) && is_separator(f(c)) == is_separator(c)
}

/// Each text of a list changed.
spec fn each(v: Seq<Seq<char>>, f: spec_fn(char) -> char) -> Seq<Seq<char>> {
    v.map_values(|t: Seq<char>| t.map_values(f))
}

proof fn lemma_trim_changed(s: Seq<char>, f: spec_fn(char) -> char)
    requires
        keeps_shape(f),
    ensures
        trim_spec(s.map_values(f)) == trim_spec(s).map_values(f),
{
    lemma_trim_start_changed(s, f);
    lemma_trim_end_changed(trim_start_spec(s), f);
}

proof fn lemma_trim_start_changed(s: Seq<char>, f: spec_fn(char) -> char)
    requires
        keeps_shape(f),
    ensures
        trim_start_spec(s.map_values(f)) == trim_start_spec(s).map_values(f),
    decreases s.len(),
{
    if s.len() > 0 && is_white(s[0]) {
        lemma_trim_start_changed(s.drop_first(), f);
        assert(s.map_values(f).drop_first() =~= s.drop_first().map_values(f));
    }
}

proof fn lemma_trim_end_changed(s: Seq<char>, f: spec_fn(char) -> char)
    requires
        keeps_shape(f),
    ensures
        trim_end_spec(s.map_values(f)) == trim_end_spec(s).map_values(f),
    decreases s.len(),
{
    if s.len() > 0 && is_white(s.last()) {
        lemma_trim_end_changed(s.drop_last(), f);
        assert(s.map_values(f).drop_last() =~= s.drop_last().map_values(f));
    }
}

proof fn lemma_token_len_changed(s: Seq<char>, f: spec_fn(char) -> char)
    requires
        keeps_shape(f),
    ensures
        token_len(s.map_values(f)) == token_len(s),
    decreases s.len(),
{
    if s.len() > 0 && !is_separator(s[0]) {
        lemma_token_len_changed(s.drop_first(), f);
        assert(s.map_values(f).drop_first() =~= s.drop_first().map_values(f));
    }
}

proof fn lemma_tokens_changed(s: Seq<char>, f: spec_fn(char) -> char)
    requires
        keeps_shape(f),
    ensures
        tokens(s.map_values(f)) == each(tokens(s), f),
    decreases s.len(),
{
    let k = token_len(s) as int;
    lemma_token_len_changed(s, f);
    if k >= s.len() {
        lemma_trim_changed(s, f);
        assert(tokens(s.map_values(f)) =~= each(tokens(s), f));
    } else {
        lemma_trim_changed(s.take(k), f);
        lemma_tokens_changed(s.skip(k + 1), f);
        assert(s.map_values(f).take(k) =~= s.take(k).map_values(f));
        assert(s.map_values(f).skip(k + 1) =~= s.skip(k + 1).map_values(f));
        assert(tokens(s.map_values(f)) =~= each(tokens(s), f));
    }
}

/// Tokens that read the same in lower case make up the same shortcut.
proof fn lemma_assemble_changed(
    v: Seq<Seq<char>>,
    w: Seq<Seq<char>>,
    modifiers: u8,
)
    requires
        v.len() == w.len(),
        forall|i: int| 0 <= i < v.len() ==> lowercase(#[trigger] w[i]) == lowercase(v[i]),
    ensures
        assemble(w, modifiers) == assemble(v, modifiers),
    decreases v.len(),
{
    if v.len() > 0 {
        assert(lowercase(w[0]) == lowercase(v[0]));
        let a = v.drop_first();
        let b = w.drop_first();
        assert forall|i: int| 0 <= i < a.len() implies lowercase(#[trigger] b[i]) == lowercase(
            a[i],
        ) by {
            assert(b[i] == w[i + 1]);
        }
        match modifier_named(lowercase(v[0])) {
            Some(m) => lemma_assemble_changed(a, b, modifiers | m),
            None => lemma_assemble_changed(a, b, modifiers),
        }
    }
}

proof fn lemma_tokens_hold_no_separator(s: Seq<char>)
    ensures
        forall|i: int, j: int|
            #![trigger tokens(s)[i][j]]
            0 <= i < tokens(s).len() && 0 <= j < tokens(s)[i].len() ==> !is_separator(
                tokens(s)[i][j],
            ),
    decreases s.len(),
{
    let k = token_len(s) as int;
    lemma_token_len_props(s);
    let w = s.take(k);
    let a = trim_start_spec(w);
    let t = trim_spec(w);
    lemma_trim_start_subrange(w);
    lemma_trim_end_subrange(a);
    assert forall|j: int| 0 <= j < t.len() implies !is_separator(#[trigger] t[j]) by {
        assert(t[j] == a[j]);
        assert(a[j] == w[j + (w.len() - a.len())]);
        assert(w[j + (w.len() - a.len())] == s[j + (w.len() - a.len())]);
    }
    if k >= s.len() {
        assert(w =~= s);
    } else {
        let rest = tokens(s.skip(k + 1));
        lemma_tokens_hold_no_separator(s.skip(k + 1));
        let head = unless_empty(t);
        assert forall|i: int, j: int|
            #![trigger tokens(s)[i][j]]
            0 <= i < tokens(s).len() && 0 <= j < tokens(s)[i].len() implies !is_separator(
            tokens(s)[i][j],
        ) by {
            if i >= head.len() {
                assert(tokens(s)[i] == rest[i - head.len()]);
                assert(!is_separator(rest[i - head.len()][j]));
            }
        }
    }
}

proof fn lemma_word_len_changed(s: Seq<char>, f: spec_fn(char) -> char)
    requires
        keeps_shape(f),
    ensures
        word_len(s.map_values(f)) == word_len(s),
        word_len(s) <= s.len(),
    decreases s.len(),
{
    if s.len() > 0 && !is_white(s[0]) {
        lemma_word_len_changed(s.drop_first(), f);
        assert(s.map_values(f).drop_first() =~= s.drop_first().map_values(f));
    }
}

proof fn lemma_words_changed(s: Seq<char>, f: spec_fn(char) -> char)
    requires
        keeps_shape(f),
    ensures
        words(s.map_values(f)) == each(words(s), f),
    decreases s.len(),
{
    let k = word_len(s) as int;
    lemma_word_len_changed(s, f);
    if k < s.len() {
        lemma_words_changed(s.skip(k + 1), f);
        assert(s.map_values(f).take(k) =~= s.take(k).map_values(f));
        assert(s.map_values(f).skip(k + 1) =~= s.skip(k + 1).map_values(f));
    }
    assert(words(s.map_values(f)) =~= each(words(s), f));
}

/// Words that denote the same shortcuts denote the same chord.
proof fn lemma_parse_words_changed(v: Seq<Seq<char>>, w: Seq<Seq<char>>)
    requires
        v.len() == w.len(),
        forall|i: int| 0 <= i < v.len() ==> parse_spec(#[trigger] w[i]) == parse_spec(v[i]),
    ensures
        parse_words(w) == parse_words(v),
    decreases v.len(),
{
    if v.len() > 0 {
        lemma_parse_words_changed(v.drop_last(), w.drop_last());
        assert(parse_spec(w[w.len() - 1]) == parse_spec(v[v.len() - 1]));
    }
}

/// `+` and `-` are one separator: a text says the same with the two exchanged.
pub proof fn law_separators_are_alike(s: Seq<char>)
    ensures
        parse_spec(exchanged(s)) == parse_spec(s),
{
    let f = |c: char|
        if c == '+' {
            '-'
        } else if c == '-' {
            '+'
        } else {
            c
        };
    let t = trim_spec(s);
    assert(exchanged(s) =~= s.map_values(f));
    lemma_trim_changed(s, f);
    lemma_tokens_changed(t, f);
    lemma_tokens_hold_no_separator(t);
    let v = tokens(t);
    let w = each(v, f);
    assert forall|i: int| 0 <= i < v.len() implies #[trigger] w[i] == v[i] by {
        assert forall|j: int| 0 <= j < v[i].len() implies w[i][j] == v[i][j] by {
            assert(!is_separator(v[i][j]));
        }
        assert(w[i] =~= v[i]);
    }
    assert(w =~= v);
}

/// Texts that differ in the case of ASCII letters read the same in lower case.
proof fn lemma_lowercase_of_uppercase(t: Seq<char>)
    ensures
        lowercase(ascii_uppercase(t)) == lowercase(t),
{
    let u = ascii_uppercase(t);
    assert(ascii_lowercase(u) =~= ascii_lowercase(t));
    assert forall|i: int| 0 <= i < t.len() implies ('\0' <= #[trigger] u[i] <= '\u{7f}') == ('\0'
        <= t[i] <= '\u{7f}') by {
    }
    if is_ascii_chars(t) {
        assert(is_ascii_chars(u));
    }
    if is_ascii_chars(u) {
        assert forall|i: int| 0 <= i < t.len() implies '\0' <= #[trigger] t[i] <= '\u{7f}' by {
            assert('\0' <= u[i] <= '\u{7f}');
        }
    }
}

/// Case does not matter: a text says the same with its ASCII letters in upper case.
pub proof fn law_case_does_not_matter(s: Seq<char>)
    ensures
        parse_spec(ascii_uppercase(s)) == parse_spec(s),
{
    let f = |c: char|
        if 'a' <= c <= 'z' {
            ((c as u32) - 32) as char
        } else {
            c
        };
    let t = trim_spec(s);
    assert(ascii_uppercase(s) =~= s.map_values(f));
    lemma_trim_changed(s, f);
    lemma_tokens_changed(t, f);
    let v = tokens(t);
    let w = each(v, f);
    assert forall|i: int| 0 <= i < v.len() implies lowercase(#[trigger] w[i]) == lowercase(
        v[i],
    ) by {
        assert(w[i] =~= ascii_uppercase(v[i]));
        lemma_lowercase_of_uppercase(v[i]);
    }
    lemma_assemble_changed(v, w, 0);
}

/// The same of chords: the separators of each of their shortcuts are alike.
pub proof fn law_separators_are_alike_in_chords(s: Seq<char>)
    ensures
        parse_chord_spec(exchanged(s)) == parse_chord_spec(s),
{
    let f = |c: char|
        if c == '+' {
            '-'
        } else if c == '-' {
            '+'
        } else {
            c
        };
    assert(exchanged(s) =~= s.map_values(f));
    lemma_words_changed(s, f);
    let v = words(s);
    let w = each(v, f);
    assert forall|i: int| 0 <= i < v.len() implies parse_spec(#[trigger] w[i]) == parse_spec(
        v[i],
    ) by {
        assert(w[i] =~= exchanged(v[i]));
        law_separators_are_alike(v[i]);
    }
    lemma_parse_words_changed(v, w);
}

/// The same of chords: the case of ASCII letters does not matter.
pub proof fn law_case_does_not_matter_in_chords(s: Seq<char>)
    ensures
        parse_chord_spec(ascii_uppercase(s)) == parse_chord_spec(s),
{
    let f = |c: char|
        if 'a' <= c <= 'z' {
            ((c as u32) - 32) as char
        } else {
            c
        };
    assert(ascii_uppercase(s) =~= s.map_values(f));
    lemma_words_changed(s, f);
    let v = words(s);
    let w = each(v, f);
    assert forall|i: int| 0 <= i < v.len() implies parse_spec(#[trigger] w[i]) == parse_spec(
        v[i],
    ) by {
        assert(w[i] =~= ascii_uppercase(v[i]));
        law_case_does_not_matter(v[i]);
    }
    lemma_parse_words_changed(v, w);
}

} // verus!
