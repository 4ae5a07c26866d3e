//! Reading a keybind such as `Ctrl+Shift+K`.

use vstd::prelude::*;
use vstd::string::*;
use vstd::utf8::is_ascii_chars;
use crate::keynames::{
    KeyPart, MOD_ALT, MOD_CTRL, MOD_SHIFT, MOD_WIN, character_key, classify, editing_key,
    function_key, key_part, modifier_key, numpad_key, symbol_key,
};
use crate::text::{
    ascii_lower, ascii_lowercase, ascii_upper, ascii_uppercase, is_white_space, law_split_of_joined,
    law_split_without_separator, lemma_split_nonempty, split, split_on, to_uppercase, trim, trim_end, trim_start, trimmed,
    unicode_uppercase, views,
};

verus! {

// ---------------------------------------------------------------------------
// What a list of parts binds
// ---------------------------------------------------------------------------

/// The last ordinary key among `parts`.
pub open spec fn last_key(parts: Seq<KeyPart>) -> Option<u32>
    decreases parts.len(),
{
    if parts.len() == 0 {
        None
    } else {
        match parts.last() {
            KeyPart::Key(code) => Some(code),
            _ => last_key(parts.drop_last()),
        }
    }
}

/// The key of the last modifier among `parts`.
pub open spec fn last_modifier(parts: Seq<KeyPart>) -> Option<u32>
    decreases parts.len(),
{
    if parts.len() == 0 {
        None
    } else {
        match parts.last() {
            KeyPart::Modifier { key, .. } => Some(key),
            _ => last_modifier(parts.drop_last()),
        }
    }
}

/// The part is the modifier with this bit.
pub open spec fn is_modifier(part: KeyPart, mask: u32) -> bool {
    part matches KeyPart::Modifier { mask: m, .. } && m == mask
}

/// The modifier with this bit is among `parts`.
pub open spec fn has_modifier(parts: Seq<KeyPart>, mask: u32) -> bool {
    exists|i: int| 0 <= i < parts.len() && is_modifier(#[trigger] parts[i], mask)
}

/// The mask made of four modifiers.
pub open spec fn mask_of(ctrl: bool, alt: bool, shift: bool, win: bool) -> u32 {
    ((if ctrl { MOD_CTRL as int } else { 0 }) + (if alt { MOD_ALT as int } else { 0 }) + (if shift {
        MOD_SHIFT as int
    } else {
        0
    }) + (if win { MOD_WIN as int } else { 0 })) as u32
}

/// The mask of the modifiers among `parts`.
pub open spec fn modifier_mask(parts: Seq<KeyPart>) -> u32 {
    mask_of(
        has_modifier(parts, MOD_CTRL),
        has_modifier(parts, MOD_ALT),
        has_modifier(parts, MOD_SHIFT),
        has_modifier(parts, MOD_WIN),
    )
}

/// What `parts` bind: the last ordinary key, or without one the key of the last
/// modifier, together with the mask of all modifiers.
pub open spec fn binding(parts: Seq<KeyPart>) -> Option<(u32, u32)> {
    match (last_key(parts), last_modifier(parts)) {
        (Some(code), _) => Some((code, modifier_mask(parts))),
        (None, Some(key)) => Some((key, modifier_mask(parts))),
        (None, None) => None,
    }
}

/// What each name stands for.
pub open spec fn key_parts(names: Seq<Seq<char>>) -> Seq<KeyPart> {
    names.map_values(|name: Seq<char>| key_part(name))
}

/// The names in a keybind: its pieces between plus signs, trimmed and in upper case.
pub open spec fn names_in(text: Seq<char>) -> Seq<Seq<char>> {
    split_on(text, '+').map_values(|piece: Seq<char>| unicode_uppercase(trimmed(piece)))
}

/// The names in a keybind of ASCII characters.
pub open spec fn ascii_names_in(text: Seq<char>) -> Seq<Seq<char>> {
    split_on(text, '+').map_values(|piece: Seq<char>| ascii_uppercase(trimmed(piece)))
}

/// What a keybind binds.
pub open spec fn keybind(text: Seq<char>) -> Option<(u32, u32)> {
    binding(key_parts(names_in(text)))
}

/// What a keybind of ASCII characters binds.
pub open spec fn ascii_keybind(text: Seq<char>) -> Option<(u32, u32)> {
    binding(key_parts(ascii_names_in(text)))
}

// ---------------------------------------------------------------------------
// Reading
// ---------------------------------------------------------------------------

/// What names, already trimmed and in upper case, bind together.
pub fn bind_names(names: &Vec<String>) -> (bound: Option<(u32, u32)>)
    ensures
        bound == binding(key_parts(views(names@))),
{
    let mut ctrl: bool = false;
    let mut alt: bool = false;
    let mut shift: bool = false;
    let mut win: bool = false;
    let mut key_code: Option<u32> = None;
    let mut fallback_modifier_key: Option<u32> = None;
    let ghost parts = key_parts(views(names@));
    let mut i: usize = 0;
    while i < names.len()
        invariant
            i <= names@.len(),
            parts == key_parts(views(names@)),
            key_code == last_key(parts.take(i as int)),
            fallback_modifier_key == last_modifier(parts.take(i as int)),
            ctrl == has_modifier(parts.take(i as int), MOD_CTRL),
            alt == has_modifier(parts.take(i as int), MOD_ALT),
            shift == has_modifier(parts.take(i as int), MOD_SHIFT),
            win == has_modifier(parts.take(i as int), MOD_WIN),
        decreases names@.len() - i,
    {
        let part: KeyPart = classify(names[i].as_str());
        let ghost seen = parts.take(i as int);
        let ghost grown = parts.take(i + 1);
        assert(part == parts[i as int]);
        assert(grown == seen.push(part));
        assert(grown.drop_last() == seen);
        proof {
            lemma_has_modifier_push(seen, part, MOD_CTRL);
            lemma_has_modifier_push(seen, part, MOD_ALT);
            lemma_has_modifier_push(seen, part, MOD_SHIFT);
            lemma_has_modifier_push(seen, part, MOD_WIN);
        }
        match part {
            KeyPart::Modifier { mask, key } => {
                if mask == MOD_CTRL {
                    ctrl = true;
                }
                if mask == MOD_ALT {
                    alt = true;
                }
                if mask == MOD_SHIFT {
                    shift = true;
                }
                if mask == MOD_WIN {
                    win = true;
                }
                fallback_modifier_key = Some(key);
            },
            KeyPart::Key(code) => {
                key_code = Some(code);
            },
            KeyPart::Unknown => {},
        }
        i = i + 1;
    }
    assert(parts.take(i as int) == parts);
    let mut modifiers: u32 = 0;
    if ctrl {
        modifiers = modifiers + MOD_CTRL;
    }
    if alt {
        modifiers = modifiers + MOD_ALT;
    }
    if shift {
        modifiers = modifiers + MOD_SHIFT;
    }
    if win {
        modifiers = modifiers + MOD_WIN;
    }
    if key_code.is_none() {
        key_code = fallback_modifier_key;
    }
    match key_code {
        Some(code) => Some((code, modifiers)),
        None => None,
    }
}

proof fn lemma_has_modifier_push(parts: Seq<KeyPart>, part: KeyPart, mask: u32)
    ensures
        has_modifier(parts.push(part), mask) == (has_modifier(parts, mask) || is_modifier(part, mask)),
{
    let grown = parts.push(part);
    if has_modifier(parts, mask) {
        let i = choose|i: int| 0 <= i < parts.len() && is_modifier(#[trigger] parts[i], mask);
        assert(is_modifier(grown[i], mask));
    }
    if is_modifier(part, mask) {
        assert(is_modifier(grown[parts.len() as int], mask));
    }
    if has_modifier(grown, mask) {
        let i = choose|i: int| 0 <= i < grown.len() && is_modifier(#[trigger] grown[i], mask);
        if i < parts.len() {
            assert(is_modifier(parts[i], mask));
        }
    }
}

/// Reads a keybind: the virtual key code of its key, and the mask of its modifiers.
/// `None` when no part of it names a key.
pub fn parse_keybind_to_vk(keybind_str: &str) -> (bound: Option<(u32, u32)>)
    ensures
        bound == keybind(keybind_str@),
        is_ascii_chars(keybind_str@) ==> bound == ascii_keybind(keybind_str@),
{
    let pieces: Vec<String> = split(keybind_str, '+');
    let mut names: Vec<String> = Vec::new();
    let ghost text = keybind_str@;
    let ghost cut = split_on(text, '+');
    let mut i: usize = 0;
    while i < pieces.len()
        invariant
            i <= pieces@.len(),
            text == keybind_str@,
            cut == split_on(text, '+'),
            views(pieces@) == cut,
            views(names@) == names_in(text).take(i as int),
            is_ascii_chars(text) ==> views(names@) == ascii_names_in(text).take(i as int),
        decreases pieces@.len() - i,
    {
        let ghost before = views(names@);
        assert(pieces@[i as int]@ == cut[i as int]);
        let piece: String = trim(pieces[i].as_str());
        let name: String = to_uppercase(piece.as_str());
        proof {
            if is_ascii_chars(text) {
                lemma_split_ascii(text, '+');
                lemma_trim_start_ascii(cut[i as int]);
                lemma_trim_end_ascii(trim_start(cut[i as int]));
                assert(ascii_names_in(text)[i as int] == name@);
                assert(ascii_names_in(text).take(i as int).push(name@) =~= ascii_names_in(text).take(
                    i + 1,
                ));
            }
            assert(names_in(text)[i as int] == name@);
            assert(names_in(text).take(i as int).push(name@) =~= names_in(text).take(i + 1));
        }
        let ghost last = name@;
        names.push(name);
        assert(views(names@) =~= before.push(last));
        i = i + 1;
    }
    assert(names_in(text).take(i as int) =~= names_in(text));
    assert(ascii_names_in(text).take(i as int) =~= ascii_names_in(text));
    bind_names(&names)
}

// ---------------------------------------------------------------------------
// ASCII text stays ASCII
// ---------------------------------------------------------------------------

proof fn lemma_split_ascii(text: Seq<char>, separator: char)
    requires
        is_ascii_chars(text),
    ensures
        forall|i: int|
            0 <= i < split_on(text, separator).len() ==> is_ascii_chars(
                #[trigger] split_on(text, separator)[i],
            ),
    decreases text.len(),
{
    if text.len() > 0 {
        let before = split_on(text.drop_last(), separator);
        lemma_split_ascii(text.drop_last(), separator);
        lemma_split_nonempty(text.drop_last(), separator);
        assert(is_ascii_chars(before[before.len() - 1]));
        assert forall|i: int| 0 <= i < split_on(text, separator).len() implies is_ascii_chars(
            #[trigger] split_on(text, separator)[i],
        ) by {
            if i < before.len() - 1 {
                assert(is_ascii_chars(before[i]));
            }
        }
    }
}

proof fn lemma_trim_start_ascii(text: Seq<char>)
    requires
        is_ascii_chars(text),
    ensures
        is_ascii_chars(trim_start(text)),
    decreases text.len(),
{
    if text.len() > 0 && is_white_space(text.first()) {
        lemma_trim_start_ascii(text.drop_first());
    }
}

proof fn lemma_trim_end_ascii(text: Seq<char>)
    requires
        is_ascii_chars(text),
    ensures
        is_ascii_chars(trim_end(text)),
    decreases text.len(),
{
    if text.len() > 0 && is_white_space(text.last()) {
        lemma_trim_end_ascii(text.drop_last());
    }
}

// ---------------------------------------------------------------------------
// Laws
// ---------------------------------------------------------------------------

/// The last key and the modifiers of two lists of parts, one after the other: the
/// later list decides the key where it holds one, and the modifiers add up.
pub proof fn law_parts_one_after_the_other(left: Seq<KeyPart>, right: Seq<KeyPart>)
    ensures
        last_key(left + right) == (if last_key(right) is Some {
            last_key(right)
        } else {
            last_key(left)
        }),
        last_modifier(left + right) == (if last_modifier(right) is Some {
            last_modifier(right)
        } else {
            last_modifier(left)
        }),
        forall|mask: u32| #[trigger]
            has_modifier(left + right, mask) == (has_modifier(left, mask) || has_modifier(
                right,
                mask,
            )),
    decreases right.len(),
{
    let whole = left + right;
    if right.len() == 0 {
        assert(whole == left);
    } else {
        let init = right.drop_last();
        law_parts_one_after_the_other(left, init);
        assert(whole.drop_last() == left + init);
        assert(whole == (left + init).push(right.last()));
        assert(right == init.push(right.last()));
        assert forall|mask: u32|
            has_modifier(whole, mask) == (has_modifier(left, mask) || has_modifier(
                right,
                mask,
            )) by {
            lemma_has_modifier_push(left + init, right.last(), mask);
            lemma_has_modifier_push(init, right.last(), mask);
        }
    }
}

/// Joining two keybinds with a plus sign gives the parts of the first, then those of
/// the second.
pub proof fn law_joined_keybinds(left: Seq<char>, right: Seq<char>)
    ensures
        key_parts(names_in(left.push('+') + right)) == key_parts(names_in(left)) + key_parts(
            names_in(right),
        ),
{
    law_split_of_joined(left, right, '+');
    assert(key_parts(names_in(left.push('+') + right)) =~= key_parts(names_in(left)) + key_parts(
        names_in(right),
    ));
}

/// The mask does not depend on the order in which the modifiers are named.
pub proof fn law_modifier_order(left: Seq<char>, right: Seq<char>)
    ensures
        modifier_mask(key_parts(names_in(left.push('+') + right))) == modifier_mask(
            key_parts(names_in(right.push('+') + left)),
        ),
{
    law_joined_keybinds(left, right);
    law_joined_keybinds(right, left);
    let first = key_parts(names_in(left));
    let second = key_parts(names_in(right));
    law_parts_one_after_the_other(first, second);
    law_parts_one_after_the_other(second, first);
    assert(modifier_mask(first + second) == modifier_mask(second + first));
}

/// Parts bind nothing exactly when none of them is known.
pub proof fn law_unknown_parts_bind_nothing(parts: Seq<KeyPart>)
    ensures
        binding(parts) is None <==> (forall|i: int|
            0 <= i < parts.len() ==> (#[trigger] parts[i]) is Unknown),
    decreases parts.len(),
{
    if parts.len() > 0 {
        let init = parts.drop_last();
        law_unknown_parts_bind_nothing(init);
        if binding(parts) is None {
            assert(parts.last() is Unknown);
            assert(last_key(parts) == last_key(init));
            assert(last_modifier(parts) == last_modifier(init));
            assert forall|i: int| 0 <= i < parts.len() implies (#[trigger] parts[i]) is Unknown by {
                if i < init.len() {
                    assert(init[i] is Unknown);
                }
            }
        } else if parts.last() is Unknown {
            assert(binding(init) is Some);
            let i = choose|i: int| 0 <= i < init.len() && !((#[trigger] init[i]) is Unknown);
            assert(!(parts[i] is Unknown));
        } else {
            assert(!(parts[parts.len() - 1] is Unknown));
        }
    }
}

/// A keybind that binds gives a virtual key code between backspace and the quote
/// key, and a mask of the four modifiers. One with a modifier always binds.
pub proof fn law_bound_codes(names: Seq<Seq<char>>)
    ensures
        binding(key_parts(names)) matches Some((code, mask)) ==> 0x08 <= code <= 0xDE && mask < 16,
        modifier_mask(key_parts(names)) != 0 ==> binding(key_parts(names)) is Some,
{
    let parts = key_parts(names);
    assert forall|i: int| 0 <= i < parts.len() implies in_code_range(#[trigger] parts[i]) by {
        lemma_code_range(names[i]);
    }
    lemma_last_in_range(parts);
    if modifier_mask(parts) != 0 {
        law_unknown_parts_bind_nothing(parts);
        assert(exists|i: int| 0 <= i < parts.len() && !((#[trigger] parts[i]) is Unknown));
    }
}

spec fn in_code_range(part: KeyPart) -> bool {
    match part {
        KeyPart::Modifier { key, .. } => 0x08 <= key <= 0xDE,
        KeyPart::Key(code) => 0x08 <= code <= 0xDE,
        KeyPart::Unknown => true,
    }
}

proof fn lemma_code_range(name: Seq<char>)
    ensures
        in_code_range(key_part(name)),
{
    assert(modifier_key(name) matches Some((_, key)) ==> 0x08 <= key <= 0xDE);
    assert(function_key(name) matches Some(code) ==> 0x08 <= code <= 0xDE);
    assert(editing_key(name) matches Some(code) ==> 0x08 <= code <= 0xDE);
    assert(numpad_key(name) matches Some(code) ==> 0x08 <= code <= 0xDE);
    assert(symbol_key(name) matches Some(code) ==> 0x08 <= code <= 0xDE);
    assert(character_key(name) matches Some(code) ==> 0x08 <= code <= 0xDE);
}

proof fn lemma_last_in_range(parts: Seq<KeyPart>)
    requires
        forall|i: int| 0 <= i < parts.len() ==> in_code_range(#[trigger] parts[i]),
    ensures
        last_key(parts) matches Some(code) ==> 0x08 <= code <= 0xDE,
        last_modifier(parts) matches Some(code) ==> 0x08 <= code <= 0xDE,
    decreases parts.len(),
{
    if parts.len() > 0 {
        assert forall|i: int| 0 <= i < parts.drop_last().len() implies in_code_range(
            #[trigger] parts.drop_last()[i],
        ) by {
            assert(in_code_range(parts[i]));
        }
        assert(in_code_range(parts[parts.len() - 1]));
        lemma_last_in_range(parts.drop_last());
    }
}

/// The letters of an ASCII keybind may be written in either case.
pub proof fn law_letter_case_does_not_matter(text: Seq<char>)
    ensures
        ascii_keybind(ascii_uppercase(text)) == ascii_keybind(text),
        ascii_keybind(ascii_lowercase(text)) == ascii_keybind(text),
{
    lemma_recased_names(text, |c: char| ascii_upper(c));
    lemma_recased_names(text, |c: char| ascii_lower(c));
}

/// `recase` changes nothing but the case of ASCII letters.
spec fn only_recases(recase: spec_fn(char) -> char) -> bool {
    forall|c: char|
        {
            &&& ascii_upper(#[trigger] recase(c)) == ascii_upper(c)
            &&& is_white_space(recase(c)) == is_white_space(c)
            &&& (recase(c) == '+') == (c == '+')
        }
}

proof fn lemma_recased_names(text: Seq<char>, recase: spec_fn(char) -> char)
    requires
        only_recases(recase),
    ensures
        ascii_names_in(text.map_values(recase)) == ascii_names_in(text),
{
    lemma_split_recased(text, recase);
    assert forall|i: int| 0 <= i < split_on(text, '+').len() implies ascii_uppercase(
        trimmed(#[trigger] split_on(text, '+')[i].map_values(recase)),
    ) == ascii_uppercase(trimmed(split_on(text, '+')[i])) by {
        let piece = split_on(text, '+')[i];
        lemma_trim_start_recased(piece, recase);
        lemma_trim_end_recased(trim_start(piece), recase);
        assert(ascii_uppercase(trimmed(piece).map_values(recase)) =~= ascii_uppercase(
            trimmed(piece),
        ));
    }
    assert(ascii_names_in(text.map_values(recase)) =~= ascii_names_in(text));
}

proof fn lemma_split_recased(text: Seq<char>, recase: spec_fn(char) -> char)
    requires
        only_recases(recase),
    ensures
        split_on(text.map_values(recase), '+') == split_on(text, '+').map_values(
            |piece: Seq<char>| piece.map_values(recase),
        ),
    decreases text.len(),
{
    let mapped = text.map_values(recase);
    let each = |piece: Seq<char>| piece.map_values(recase);
    if text.len() == 0 {
        assert(Seq::<char>::empty().map_values(recase) =~= Seq::<char>::empty());
        assert(mapped =~= text);
        assert(split_on(mapped, '+') =~= split_on(text, '+').map_values(each));
    } else {
        let before = split_on(text.drop_last(), '+');
        lemma_split_recased(text.drop_last(), recase);
        lemma_split_nonempty(text.drop_last(), '+');
        assert(mapped.drop_last() =~= text.drop_last().map_values(recase));
        assert(mapped.last() == recase(text.last()));
        assert(Seq::<char>::empty().map_values(recase) =~= Seq::<char>::empty());
        assert(before.last().push(text.last()).map_values(recase) =~= before.last().map_values(
            recase,
        ).push(recase(text.last())));
        assert(split_on(mapped, '+') =~= split_on(text, '+').map_values(each));
    }
}

proof fn lemma_trim_start_recased(text: Seq<char>, recase: spec_fn(char) -> char)
    requires
        only_recases(recase),
    ensures
        trim_start(text.map_values(recase)) == trim_start(text).map_values(recase),
    decreases text.len(),
{
    if text.len() > 0 && is_white_space(text.first()) {
        lemma_trim_start_recased(text.drop_first(), recase);
        assert(text.map_values(recase).drop_first() =~= text.drop_first().map_values(recase));
        assert(text.map_values(recase).first() == recase(text.first()));
    } else if text.len() > 0 {
        assert(text.map_values(recase).first() == recase(text.first()));
    }
}

proof fn lemma_trim_end_recased(text: Seq<char>, recase: spec_fn(char) -> char)
    requires
        only_recases(recase),
    ensures
        trim_end(text.map_values(recase)) == trim_end(text).map_values(recase),
    decreases text.len(),
{
    if text.len() > 0 && is_white_space(text.last()) {
        lemma_trim_end_recased(text.drop_last(), recase);
        assert(text.map_values(recase).drop_last() =~= text.drop_last().map_values(recase));
        assert(text.map_values(recase).last() == recase(text.last()));
    } else if text.len() > 0 {
        assert(text.map_values(recase).last() == recase(text.last()));
    }
}

/// The last ordinary key is the one that is bound, whatever else is named with it.
pub proof fn law_last_key_is_bound(parts: Seq<KeyPart>, i: int, code: u32)
    requires
        0 <= i < parts.len(),
        parts[i] == KeyPart::Key(code),
        forall|j: int| i < j < parts.len() ==> !((#[trigger] parts[j]) is Key),
    ensures
        binding(parts) matches Some((bound, _)) && bound == code,
{
    lemma_last_key_at(parts, i, code);
}

proof fn lemma_last_key_at(parts: Seq<KeyPart>, i: int, code: u32)
    requires
        0 <= i < parts.len(),
        parts[i] == KeyPart::Key(code),
        forall|j: int| i < j < parts.len() ==> !((#[trigger] parts[j]) is Key),
    ensures
        last_key(parts) == Some(code),
    decreases parts.len(),
{
    if i < parts.len() - 1 {
        assert(!(parts[parts.len() - 1] is Key));
        lemma_last_key_at(parts.drop_last(), i, code);
    }
}

/// Where only modifiers are named, the last of them is the key that is bound.
pub proof fn law_last_modifier_is_bound(parts: Seq<KeyPart>, i: int, mask: u32, key: u32)
    requires
        0 <= i < parts.len(),
        parts[i] == (KeyPart::Modifier { mask, key }),
        forall|j: int| 0 <= j < parts.len() ==> !((#[trigger] parts[j]) is Key),
        forall|j: int| i < j < parts.len() ==> !((#[trigger] parts[j]) is Modifier),
    ensures
        binding(parts) matches Some((bound, _)) && bound == key,
{
    lemma_no_last_key(parts);
    lemma_last_modifier_at(parts, i, mask, key);
}

proof fn lemma_no_last_key(parts: Seq<KeyPart>)
    requires
        forall|j: int| 0 <= j < parts.len() ==> !((#[trigger] parts[j]) is Key),
    ensures
        last_key(parts) is None,
    decreases parts.len(),
{
    if parts.len() > 0 {
        assert(!(parts[parts.len() - 1] is Key));
        lemma_no_last_key(parts.drop_last());
    }
}

proof fn lemma_last_modifier_at(parts: Seq<KeyPart>, i: int, mask: u32, key: u32)
    requires
        0 <= i < parts.len(),
        parts[i] == (KeyPart::Modifier { mask, key }),
        forall|j: int| i < j < parts.len() ==> !((#[trigger] parts[j]) is Modifier),
    ensures
        last_modifier(parts) == Some(key),
    decreases parts.len(),
{
    if i < parts.len() - 1 {
        assert(!(parts[parts.len() - 1] is Modifier));
        lemma_last_modifier_at(parts.drop_last(), i, mask, key);
    }
}

/// The modifier with this bit is named among the parts.
pub open spec fn is_named(parts: Seq<KeyPart>, bit: u32) -> bool {
    exists|i: int|
        0 <= i < parts.len() && ((#[trigger] parts[i]) matches KeyPart::Modifier { mask, .. }
            && mask == bit)
}

/// The mask has the bit of a modifier exactly where the modifier is named, for each of the
/// four separately, and no other bit.
pub proof fn law_mask_has_the_named_bits(parts: Seq<KeyPart>)
    ensures
        binding(parts) matches Some((_, mask)) ==> {
            &&& mask <= 15
            &&& mask & 1 != 0 <==> is_named(parts, 1)
            &&& mask & 2 != 0 <==> is_named(parts, 2)
            &&& mask & 4 != 0 <==> is_named(parts, 4)
            &&& mask & 8 != 0 <==> is_named(parts, 8)
        },
{
    lemma_named(parts, 1);
    lemma_named(parts, 2);
    lemma_named(parts, 4);
    lemma_named(parts, 8);
    let (a, b, c, d): (bool, bool, bool, bool) = (
        has_modifier(parts, 1),
        has_modifier(parts, 2),
        has_modifier(parts, 4),
        has_modifier(parts, 8),
    );
    let mask: u32 = modifier_mask(parts);
    assert(mask <= 15 && (mask & 1 != 0) == a && (mask & 2 != 0) == b && (mask & 4 != 0) == c && (
    mask & 8 != 0) == d) by (bit_vector)
        requires
            mask == (if a { 1u32 } else { 0u32 }) + (if b { 2u32 } else { 0u32 }) + (if c {
                4u32
            } else {
                0u32
            }) + (if d { 8u32 } else { 0u32 }),
    ;
}

proof fn lemma_named(parts: Seq<KeyPart>, bit: u32)
    ensures
        has_modifier(parts, bit) == is_named(parts, bit),
{
    if has_modifier(parts, bit) {
        let i = choose|i: int| 0 <= i < parts.len() && is_modifier(#[trigger] parts[i], bit);
        assert(parts[i] matches KeyPart::Modifier { mask, .. } && mask == bit);
    }
    if is_named(parts, bit) {
        let i = choose|i: int|
            0 <= i < parts.len() && ((#[trigger] parts[i]) matches KeyPart::Modifier { mask, .. }
                && mask == bit);
        assert(is_modifier(parts[i], bit));
    }
}

/// A keybind without a plus sign has one name: the text without the white space around it,
/// in upper case.
pub proof fn law_keybind_of_one_name(text: Seq<char>)
    requires
        !text.contains('+'),
    ensures
        names_in(text) == seq![unicode_uppercase(trimmed(text))],
        ascii_names_in(text) == seq![ascii_uppercase(trimmed(text))],
        keybind(text) == binding(seq![key_part(unicode_uppercase(trimmed(text)))]),
{
    law_split_without_separator(text, '+');
    assert(names_in(text) =~= seq![unicode_uppercase(trimmed(text))]);
    assert(ascii_names_in(text) =~= seq![ascii_uppercase(trimmed(text))]);
    assert(key_parts(names_in(text)) =~= seq![key_part(unicode_uppercase(trimmed(text)))]);
}

} // verus!
