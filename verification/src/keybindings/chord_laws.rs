//! What a text in the notation of shortcuts and chords comes to.

use crate::keybindings::parser::{
    ascii_lower, assemble, key_named, key_token, lowercase, modifier_named, number_value,
    parse_chord_spec, parse_spec, parse_words, token_len, tokens, word_len, words, KeyCode,
    ParseError, ParseFault, Shortcut, MOD_ALT, MOD_CTRL, MOD_META, MOD_SHIFT,
};
use crate::keybindings::validate::{render_chord_spec, renders};
use crate::text::{is_white, trim_spec};
use crate::text_laws::{law_join_concatenates, worth};
use vstd::prelude::*;

verus! {

// ---- names ---------------------------------------------------------------------------

/// A number that tells the names of keys and modifiers apart.
spec fn tag(s: Seq<char>) -> int {
    s.len() * 1000000 + (s[0] as int) * 1000 + s[s.len() - 1] as int
}

proof fn lemma_names()
    ensures
        tag("ctrl"@) == 4099108,
        tag("control"@) == 7099108,
        tag("c"@) == 1099099,
        tag("alt"@) == 3097116,
        tag("option"@) == 6111110,
        tag("opt"@) == 3111116,
        tag("shift"@) == 5115116,
        tag("meta"@) == 4109097,
        tag("cmd"@) == 3099100,
        tag("super"@) == 5115114,
        tag("win"@) == 3119110,
        tag("enter"@) == 5101114,
        tag("return"@) == 6114110,
        tag("ret"@) == 3114116,
        tag("esc"@) == 3101099,
        tag("escape"@) == 6101101,
        tag("tab"@) == 3116098,
        tag("backtab"@) == 7098098,
        tag("shift-tab"@) == 9115098,
        tag("shifttab"@) == 8115098,
        tag("backspace"@) == 9098101,
        tag("bs"@) == 2098115,
        tag("delete"@) == 6100101,
        tag("del"@) == 3100108,
        tag("up"@) == 2117112,
        tag("uparrow"@) == 7117119,
        tag("down"@) == 4100110,
        tag("downarrow"@) == 9100119,
        tag("left"@) == 4108116,
        tag("leftarrow"@) == 9108119,
        tag("right"@) == 5114116,
        tag("rightarrow"@) == 10114119,
        tag("home"@) == 4104101,
        tag("end"@) == 3101100,
        tag("pageup"@) == 6112112,
        tag("pgup"@) == 4112112,
        tag("pagedown"@) == 8112110,
        tag("pgdown"@) == 6112110,
        tag("pgdn"@) == 4112110,
        tag("insert"@) == 6105116,
        tag("ins"@) == 3105115,
        tag("space"@) == 5115101,
        tag("spc"@) == 3115099,
{
    reveal_strlit("ctrl");
    assert("ctrl"@.len() == 4 && "ctrl"@[0] == 'c' && "ctrl"@[3] == 'l');
    reveal_strlit("control");
    assert("control"@.len() == 7 && "control"@[0] == 'c' && "control"@[6] == 'l');
    reveal_strlit("c");
    assert("c"@.len() == 1 && "c"@[0] == 'c' && "c"@[0] == 'c');
    reveal_strlit("alt");
    assert("alt"@.len() == 3 && "alt"@[0] == 'a' && "alt"@[2] == 't');
    reveal_strlit("option");
    assert("option"@.len() == 6 && "option"@[0] == 'o' && "option"@[5] == 'n');
    reveal_strlit("opt");
    assert("opt"@.len() == 3 && "opt"@[0] == 'o' && "opt"@[2] == 't');
    reveal_strlit("shift");
    assert("shift"@.len() == 5 && "shift"@[0] == 's' && "shift"@[4] == 't');
    reveal_strlit("meta");
    assert("meta"@.len() == 4 && "meta"@[0] == 'm' && "meta"@[3] == 'a');
    reveal_strlit("cmd");
    assert("cmd"@.len() == 3 && "cmd"@[0] == 'c' && "cmd"@[2] == 'd');
    reveal_strlit("super");
    assert("super"@.len() == 5 && "super"@[0] == 's' && "super"@[4] == 'r');
    reveal_strlit("win");
    assert("win"@.len() == 3 && "win"@[0] == 'w' && "win"@[2] == 'n');
    reveal_strlit("enter");
    assert("enter"@.len() == 5 && "enter"@[0] == 'e' && "enter"@[4] == 'r');
    reveal_strlit("return");
    assert("return"@.len() == 6 && "return"@[0] == 'r' && "return"@[5] == 'n');
    reveal_strlit("ret");
    assert("ret"@.len() == 3 && "ret"@[0] == 'r' && "ret"@[2] == 't');
    reveal_strlit("esc");
    assert("esc"@.len() == 3 && "esc"@[0] == 'e' && "esc"@[2] == 'c');
    reveal_strlit("escape");
    assert("escape"@.len() == 6 && "escape"@[0] == 'e' && "escape"@[5] == 'e');
    reveal_strlit("tab");
    assert("tab"@.len() == 3 && "tab"@[0] == 't' && "tab"@[2] == 'b');
    reveal_strlit("backtab");
    assert("backtab"@.len() == 7 && "backtab"@[0] == 'b' && "backtab"@[6] == 'b');
    reveal_strlit("shift-tab");
    assert("shift-tab"@.len() == 9 && "shift-tab"@[0] == 's' && "shift-tab"@[8] == 'b');
    reveal_strlit("shifttab");
    assert("shifttab"@.len() == 8 && "shifttab"@[0] == 's' && "shifttab"@[7] == 'b');
    reveal_strlit("backspace");
    assert("backspace"@.len() == 9 && "backspace"@[0] == 'b' && "backspace"@[8] == 'e');
    reveal_strlit("bs");
    assert("bs"@.len() == 2 && "bs"@[0] == 'b' && "bs"@[1] == 's');
    reveal_strlit("delete");
    assert("delete"@.len() == 6 && "delete"@[0] == 'd' && "delete"@[5] == 'e');
    reveal_strlit("del");
    assert("del"@.len() == 3 && "del"@[0] == 'd' && "del"@[2] == 'l');
    reveal_strlit("up");
    assert("up"@.len() == 2 && "up"@[0] == 'u' && "up"@[1] == 'p');
    reveal_strlit("uparrow");
    assert("uparrow"@.len() == 7 && "uparrow"@[0] == 'u' && "uparrow"@[6] == 'w');
    reveal_strlit("down");
    assert("down"@.len() == 4 && "down"@[0] == 'd' && "down"@[3] == 'n');
    reveal_strlit("downarrow");
    assert("downarrow"@.len() == 9 && "downarrow"@[0] == 'd' && "downarrow"@[8] == 'w');
    reveal_strlit("left");
    assert("left"@.len() == 4 && "left"@[0] == 'l' && "left"@[3] == 't');
    reveal_strlit("leftarrow");
    assert("leftarrow"@.len() == 9 && "leftarrow"@[0] == 'l' && "leftarrow"@[8] == 'w');
    reveal_strlit("right");
    assert("right"@.len() == 5 && "right"@[0] == 'r' && "right"@[4] == 't');
    reveal_strlit("rightarrow");
    assert("rightarrow"@.len() == 10 && "rightarrow"@[0] == 'r' && "rightarrow"@[9] == 'w');
    reveal_strlit("home");
    assert("home"@.len() == 4 && "home"@[0] == 'h' && "home"@[3] == 'e');
    reveal_strlit("end");
    assert("end"@.len() == 3 && "end"@[0] == 'e' && "end"@[2] == 'd');
    reveal_strlit("pageup");
    assert("pageup"@.len() == 6 && "pageup"@[0] == 'p' && "pageup"@[5] == 'p');
    reveal_strlit("pgup");
    assert("pgup"@.len() == 4 && "pgup"@[0] == 'p' && "pgup"@[3] == 'p');
    reveal_strlit("pagedown");
    assert("pagedown"@.len() == 8 && "pagedown"@[0] == 'p' && "pagedown"@[7] == 'n');
    reveal_strlit("pgdown");
    assert("pgdown"@.len() == 6 && "pgdown"@[0] == 'p' && "pgdown"@[5] == 'n');
    reveal_strlit("pgdn");
    assert("pgdn"@.len() == 4 && "pgdn"@[0] == 'p' && "pgdn"@[3] == 'n');
    reveal_strlit("insert");
    assert("insert"@.len() == 6 && "insert"@[0] == 'i' && "insert"@[5] == 't');
    reveal_strlit("ins");
    assert("ins"@.len() == 3 && "ins"@[0] == 'i' && "ins"@[2] == 's');
    reveal_strlit("space");
    assert("space"@.len() == 5 && "space"@[0] == 's' && "space"@[4] == 'e');
    reveal_strlit("spc");
    assert("spc"@.len() == 3 && "spc"@[0] == 's' && "spc"@[2] == 'c');
}

/// The words that modifiers and keys go by.
pub proof fn law_names_of_modifiers_and_keys()
    ensures
        modifier_named("ctrl"@) == Some(MOD_CTRL),
        modifier_named("control"@) == Some(MOD_CTRL),
        modifier_named("c"@) == Some(MOD_CTRL),
        modifier_named("alt"@) == Some(MOD_ALT),
        modifier_named("option"@) == Some(MOD_ALT),
        modifier_named("opt"@) == Some(MOD_ALT),
        modifier_named("shift"@) == Some(MOD_SHIFT),
        modifier_named("meta"@) == Some(MOD_META),
        modifier_named("cmd"@) == Some(MOD_META),
        modifier_named("super"@) == Some(MOD_META),
        modifier_named("win"@) == Some(MOD_META),
        key_named("enter"@) == Some(KeyCode::Enter),
        key_named("return"@) == Some(KeyCode::Enter),
        key_named("ret"@) == Some(KeyCode::Enter),
        key_named("esc"@) == Some(KeyCode::Esc),
        key_named("escape"@) == Some(KeyCode::Esc),
        key_named("tab"@) == Some(KeyCode::Tab),
        key_named("backtab"@) == Some(KeyCode::BackTab),
        key_named("shift-tab"@) == Some(KeyCode::BackTab),
        key_named("shifttab"@) == Some(KeyCode::BackTab),
        key_named("backspace"@) == Some(KeyCode::Backspace),
        key_named("bs"@) == Some(KeyCode::Backspace),
        key_named("delete"@) == Some(KeyCode::Delete),
        key_named("del"@) == Some(KeyCode::Delete),
        key_named("up"@) == Some(KeyCode::Up),
        key_named("uparrow"@) == Some(KeyCode::Up),
        key_named("down"@) == Some(KeyCode::Down),
        key_named("downarrow"@) == Some(KeyCode::Down),
        key_named("left"@) == Some(KeyCode::Left),
        key_named("leftarrow"@) == Some(KeyCode::Left),
        key_named("right"@) == Some(KeyCode::Right),
        key_named("rightarrow"@) == Some(KeyCode::Right),
        key_named("home"@) == Some(KeyCode::Home),
        key_named("end"@) == Some(KeyCode::End),
        key_named("pageup"@) == Some(KeyCode::PageUp),
        key_named("pgup"@) == Some(KeyCode::PageUp),
        key_named("pagedown"@) == Some(KeyCode::PageDown),
        key_named("pgdown"@) == Some(KeyCode::PageDown),
        key_named("pgdn"@) == Some(KeyCode::PageDown),
        key_named("insert"@) == Some(KeyCode::Insert),
        key_named("ins"@) == Some(KeyCode::Insert),
        key_named("space"@) == Some(KeyCode::Space),
        key_named("spc"@) == Some(KeyCode::Space),
{
    lemma_names();
}

/// A key that has no name is a function key, one character, or none: `f` and a number from 1 to
/// 12 is a function key, one character is itself in lower case, and a longer word is refused.
pub proof fn law_keys_without_a_name(s: Seq<char>)
    requires
        key_named(s) is None,
    ensures
        s.len() == 1 ==> key_token(s) == Ok::<KeyCode, ParseFault>(
            KeyCode::Char(ascii_lower(s[0])),
        ),
        s.len() > 1 && s[0] != 'f' ==> key_token(s) == Err::<KeyCode, ParseFault>(
            ParseFault::MultiChar(s),
        ),
        s.len() > 1 && s[0] == 'f' ==> {
            ||| key_token(s) == Err::<KeyCode, ParseFault>(ParseFault::UnknownKey(s))
            ||| key_token(s) is Ok && key_token(s)->Ok_0 is Function && 1
                <= key_token(s)->Ok_0->Function_0 <= 12
        },
{
}

/// All of a text is digits.
pub open spec fn all_digits(s: Seq<char>) -> bool {
    forall|i: int| 0 <= i < s.len() ==> '0' <= #[trigger] s[i] <= '9'
}

proof fn lemma_number_is_worth(s: Seq<char>)
    requires
        all_digits(s),
    ensures
        number_value(s) is Some,
        number_value(s)->0 == worth(s),
    decreases s.len(),
{
    if s.len() > 0 {
        let init = s.drop_last();
        assert forall|i: int| 0 <= i < init.len() implies '0' <= #[trigger] init[i] <= '9' by {
            assert(init[i] == s[i]);
        }
        lemma_number_is_worth(init);
        assert('0' <= s[s.len() - 1] <= '9');
    }
}

/// The function key of a number is the one with that number, and there are twelve.
pub proof fn law_function_keys(digits: Seq<char>)
    requires
        digits.len() > 0,
        all_digits(digits),
        key_named(seq!['f'] + digits) is None,
    ensures
        1 <= worth(digits) <= 12 ==> key_token(seq!['f'] + digits) == Ok::<KeyCode, ParseFault>(
            KeyCode::Function(worth(digits) as u8),
        ),
        !(1 <= worth(digits) <= 12) ==> key_token(seq!['f'] + digits) == Err::<
            KeyCode,
            ParseFault,
        >(ParseFault::UnknownKey(seq!['f'] + digits)),
{
    let s = seq!['f'] + digits;
    assert(s.skip(1) =~= digits);
    assert('0' <= digits[0] <= '9');
    lemma_number_is_worth(digits);
}

// ---- shortcuts -----------------------------------------------------------------------

/// The order of the modifiers does not matter.
pub proof fn law_modifiers_in_any_order(
    a: Seq<char>,
    b: Seq<char>,
    rest: Seq<Seq<char>>,
    modifiers: u8,
)
    requires
        rest.len() > 0,
        modifier_named(lowercase(a)) is Some,
        modifier_named(lowercase(b)) is Some,
    ensures
        assemble(seq![a, b] + rest, modifiers) == assemble(seq![b, a] + rest, modifiers),
{
    let x = modifier_named(lowercase(a))->0;
    let y = modifier_named(lowercase(b))->0;
    let ab = seq![a, b] + rest;
    let ba = seq![b, a] + rest;
    assert(ab.drop_first() =~= seq![b] + rest);
    assert(ba.drop_first() =~= seq![a] + rest);
    assert((seq![b] + rest).drop_first() =~= rest);
    assert((seq![a] + rest).drop_first() =~= rest);
    assert(assemble(ab, modifiers) == assemble(seq![b] + rest, modifiers | x));
    assert(assemble(ba, modifiers) == assemble(seq![a] + rest, modifiers | y));
    assert(assemble(seq![b] + rest, modifiers | x) == assemble(rest, (modifiers | x) | y));
    assert(assemble(seq![a] + rest, modifiers | y) == assemble(rest, (modifiers | y) | x));
    assert((modifiers | x) | y == (modifiers | y) | x) by (bit_vector);
}

/// A modifier adds itself to what stands behind it; the key is the last word, and a key before
/// it counts for nothing.
pub proof fn law_key_is_the_last_word(word: Seq<char>, rest: Seq<Seq<char>>, modifiers: u8)
    ensures
        assemble(seq![], modifiers) == Err::<Shortcut, ParseFault>(ParseFault::Empty),
        assemble(seq![word], modifiers) == match key_token(lowercase(word)) {
            Ok(key) => Ok::<Shortcut, ParseFault>(Shortcut { modifiers, key }),
            Err(e) => Err(e),
        },
        rest.len() > 0 && modifier_named(lowercase(word)) is Some ==> assemble(
            seq![word] + rest,
            modifiers,
        ) == assemble(rest, modifiers | modifier_named(lowercase(word))->0),
        rest.len() > 0 && modifier_named(lowercase(word)) is None && key_token(lowercase(word))
            is Ok ==> assemble(seq![word] + rest, modifiers) == assemble(rest, modifiers),
        rest.len() > 0 && modifier_named(lowercase(word)) is None && key_token(lowercase(word))
            is Err ==> assemble(seq![word] + rest, modifiers) == Err::<Shortcut, ParseFault>(
            key_token(lowercase(word))->Err_0,
        ),
{
    assert((seq![word] + rest).drop_first() =~= rest);
}

/// A text without separators and without white space at its ends.
pub open spec fn one_token(s: Seq<char>) -> bool {
    &&& s.len() > 0
    &&& forall|i: int| 0 <= i < s.len() ==> #[trigger] s[i] != '+' && s[i] != '-'
    &&& trim_spec(s) == s
}

proof fn lemma_token_len(s: Seq<char>, rest: Seq<char>)
    requires
        forall|i: int| 0 <= i < s.len() ==> #[trigger] s[i] != '+' && s[i] != '-',
        rest.len() > 0 ==> rest[0] == '+' || rest[0] == '-',
    ensures
        token_len(s + rest) == s.len(),
    decreases s.len(),
{
    let t = s + rest;
    if s.len() > 0 {
        assert(s[0] != '+' && s[0] != '-');
        assert(t[0] == s[0]);
        assert(t.drop_first() =~= s.drop_first() + rest);
        assert forall|i: int| 0 <= i < s.drop_first().len() implies #[trigger] s.drop_first()[i]
            != '+' && s.drop_first()[i] != '-' by {
            assert(s[i + 1] != '+');
        }
        lemma_token_len(s.drop_first(), rest);
    } else if rest.len() > 0 {
        assert(t[0] == rest[0]);
    }
}

/// The words of a shortcut are what stands between `+` and `-`.
pub proof fn law_words_of_a_shortcut(word: Seq<char>, sep: char, rest: Seq<char>)
    requires
        one_token(word),
        sep == '+' || sep == '-',
    ensures
        tokens(word) == seq![word],
        tokens(word + (seq![sep] + rest)) == seq![word] + tokens(rest),
{
    let s = word + (seq![sep] + rest);
    let k = word.len() as int;
    lemma_token_len(word, seq![sep] + rest);
    lemma_token_len(word, seq![]);
    assert(word + Seq::<char>::empty() =~= word);
    assert(s.take(k) =~= word);
    assert(s.skip(k + 1) =~= rest);
}

// ---- chords --------------------------------------------------------------------------

/// A word: something, and no white space in it.
pub open spec fn is_chord_word(s: Seq<char>) -> bool {
    &&& s.len() > 0
    &&& forall|i: int| 0 <= i < s.len() ==> !is_white(#[trigger] s[i])
}

proof fn lemma_word_len(s: Seq<char>, rest: Seq<char>)
    requires
        forall|i: int| 0 <= i < s.len() ==> !is_white(#[trigger] s[i]),
        rest.len() > 0 ==> is_white(rest[0]),
    ensures
        word_len(s + rest) == s.len(),
    decreases s.len(),
{
    let t = s + rest;
    if s.len() > 0 {
        assert(!is_white(s[0]));
        assert(t[0] == s[0]);
        assert(t.drop_first() =~= s.drop_first() + rest);
        assert forall|i: int| 0 <= i < s.drop_first().len() implies !is_white(
            #[trigger] s.drop_first()[i],
        ) by {
            assert(!is_white(s[i + 1]));
        }
        lemma_word_len(s.drop_first(), rest);
    } else if rest.len() > 0 {
        assert(t[0] == rest[0]);
    }
}

proof fn lemma_parse_words(w: Seq<char>, ws: Seq<Seq<char>>)
    ensures
        parse_words(seq![w] + ws) == match parse_spec(w) {
            Err(e) => Err::<Seq<Shortcut>, ParseFault>(e),
            Ok(s) => match parse_words(ws) {
                Err(e) => Err(e),
                Ok(c) => Ok(seq![s] + c),
            },
        },
    decreases ws.len(),
{
    let all = seq![w] + ws;
    if ws.len() == 0 {
        assert(all.drop_last() =~= seq![]);
        assert(parse_words(all.drop_last()) == Ok::<Seq<Shortcut>, ParseFault>(seq![]));
        assert(all.last() == w);
        assert(parse_spec(w) matches Ok(s) ==> Seq::<Shortcut>::empty().push(s) =~= seq![s]
            + Seq::<Shortcut>::empty());
    } else {
        lemma_parse_words(w, ws.drop_last());
        assert(all.drop_last() =~= seq![w] + ws.drop_last());
        assert(all.last() == ws.last());
        if parse_spec(w) is Ok && parse_words(ws.drop_last()) is Ok && parse_spec(ws.last()) is Ok {
            let s = parse_spec(w)->Ok_0;
            let c = parse_words(ws.drop_last())->Ok_0;
            let l = parse_spec(ws.last())->Ok_0;
            assert((seq![s] + c).push(l) =~= seq![s] + c.push(l));
        }
    }
}

/// A chord is its shortcuts, one behind the other with white space between them; the first
/// that cannot be read is what is wrong with it.
pub proof fn law_chord_is_its_shortcuts(word: Seq<char>, white: char, rest: Seq<char>)
    requires
        is_chord_word(word),
        is_white(white),
    ensures
        parse_chord_spec(word) == match parse_spec(word) {
            Ok(s) => Ok::<Seq<Shortcut>, ParseFault>(seq![s]),
            Err(e) => Err(e),
        },
        parse_spec(word) is Err ==> parse_chord_spec(word + (seq![white] + rest)) == Err::<
            Seq<Shortcut>,
            ParseFault,
        >(parse_spec(word)->Err_0),
        parse_spec(word) is Ok && parse_chord_spec(rest) is Ok ==> parse_chord_spec(
            word + (seq![white] + rest),
        ) == Ok::<Seq<Shortcut>, ParseFault>(
            seq![parse_spec(word)->Ok_0] + parse_chord_spec(rest)->Ok_0,
        ),
        parse_spec(word) is Ok && parse_chord_spec(rest) is Err && parse_chord_spec(rest)->Err_0
            != ParseFault::Empty ==> parse_chord_spec(word + (seq![white] + rest)) is Err,
        parse_chord_spec(seq![white] + rest) == parse_chord_spec(rest),
        parse_chord_spec(seq![]) == Err::<Seq<Shortcut>, ParseFault>(ParseFault::Empty),
{
    let s = word + (seq![white] + rest);
    let k = word.len() as int;
    lemma_word_len(word, seq![white] + rest);
    lemma_word_len(word, seq![]);
    lemma_word_len(seq![], seq![white] + rest);
    assert(word + Seq::<char>::empty() =~= word);
    assert(Seq::<char>::empty() + (seq![white] + rest) =~= seq![white] + rest);
    assert(s.take(k) =~= word);
    assert(s.skip(k + 1) =~= rest);
    assert(words(s) == seq![word] + words(rest));
    assert(words(word) == seq![word]);
    let t = seq![white] + rest;
    assert(t.take(0) =~= seq![]);
    assert(t.skip(1) =~= rest);
    assert(words(t) =~= words(rest));
    assert(words(Seq::<char>::empty()) =~= seq![]);
    lemma_parse_words(word, words(rest));
    lemma_parse_words(word, seq![]);
    assert(seq![word] + Seq::<Seq<char>>::empty() =~= seq![word]);
    if parse_spec(word) is Ok {
        let one = parse_spec(word)->Ok_0;
        assert(seq![one] + Seq::<Shortcut>::empty() =~= seq![one]);
    }
}

/// A chord is written as its shortcuts with spaces between them.
pub proof fn law_chord_is_written_by_its_shortcuts(a: Seq<Shortcut>, b: Seq<Shortcut>, s: Shortcut)
    requires
        a.len() > 0,
        b.len() > 0,
    ensures
        render_chord_spec(seq![s]) == s.render_spec(),
        render_chord_spec(a + b) == render_chord_spec(a) + seq![' '] + render_chord_spec(b),
{
    reveal_strlit(" ");
    assert(" "@ =~= seq![' ']);
    assert(renders(seq![s]) =~= seq![s.render_spec()]);
    law_join_concatenates(renders(seq![s]), renders(seq![s]), " "@);
    assert(renders(seq![s])[0] == s.render_spec());
    law_join_concatenates(renders(a), renders(b), " "@);
    assert(renders(a + b) =~= renders(a) + renders(b));
}

/// What is said of a text that cannot be read names what could not be.
pub proof fn law_faults_name_what_is_wrong(s: String)
    ensures
        (ParseError::Empty).message_spec() == "empty shortcut"@,
        (ParseError::UnknownKey(s)).message_spec() == "unknown key `"@ + s@ + "`"@,
        (ParseError::MultiChar(s)).message_spec() == "multi-char keys must be named (got `"@ + s@
            + "`)"@,
{
}

} // verus!
