//! Text helpers: splitting, trimming, searching, case mapping, UTF-16 decoding
//! and decimal numbers, all stated over sequences of characters.

use vstd::prelude::*;
use vstd::string::*;
use vstd::utf8::is_ascii_chars;

verus! {

// ---------------------------------------------------------------------------
// Building and comparing strings
// ---------------------------------------------------------------------------

/// Appends one character with `String::push`, which puts it at the end.
#[verifier::external_body]
pub(crate) fn push_char(text: &mut String, c: char)
    ensures
        final(text)@ == old(text)@.push(c),
{
    text.push(c)
}

/// Compares with the `==` of `str`: two slices are equal when they hold the same
/// characters.
#[verifier::external_body]
pub(crate) fn same_text(a: &str, b: &str) -> (same: bool)
    ensures
        same == (a@ == b@),
{
    a == b
}

/// Calls `char::from_u32`: a number is a character when it is a Unicode scalar
/// value, and the character then has that number.
#[verifier::external_body]
pub(crate) fn char_from_u32(code: u32) -> (c: Option<char>)
    ensures
        c is Some <==> (code < 0xD800 || 0xE000 <= code <= 0x10FFFF),
        c matches Some(c) ==> c == code as char,
{
    char::from_u32(code)
}

// ---------------------------------------------------------------------------
// White space and trimming
// ---------------------------------------------------------------------------

/// The characters with the Unicode property `White_Space`.
pub open spec fn is_white_space(c: char) -> bool {
    let code = c as u32;
    ||| 0x09 <= code <= 0x0D
    ||| code == 0x20
    ||| code == 0x85
    ||| code == 0xA0
    ||| code == 0x1680
    ||| 0x2000 <= code <= 0x200A
    ||| code == 0x2028
    ||| code == 0x2029
    ||| code == 0x202F
    ||| code == 0x205F
    ||| code == 0x3000
}

/// Tells whether a character is white space.
pub fn white_space(c: char) -> (r: bool)
    ensures
        r == is_white_space(c),
{
    let code: u32 = c as u32;
    (0x09 <= code && code <= 0x0D) || code == 0x20 || code == 0x85 || code == 0xA0 || code == 0x1680
        || (0x2000 <= code && code <= 0x200A) || code == 0x2028 || code == 0x2029 || code == 0x202F
        || code == 0x205F || code == 0x3000
}

/// `text` without its leading white space.
pub open spec fn trim_start(text: Seq<char>) -> Seq<char>
    decreases text.len(),
{
    if text.len() > 0 && is_white_space(text.first()) {
        trim_start(text.drop_first())
    } else {
        text
    }
}

/// `text` without its trailing white space.
pub open spec fn trim_end(text: Seq<char>) -> Seq<char>
    decreases text.len(),
{
    if text.len() > 0 && is_white_space(text.last()) {
        trim_end(text.drop_last())
    } else {
        text
    }
}

/// `text` without the white space at its two ends.
pub open spec fn trimmed(text: Seq<char>) -> Seq<char> {
    trim_end(trim_start(text))
}

/// Removes the white space at the two ends of `text`.
pub fn trim(text: &str) -> (r: String)
    ensures
        r@ == trimmed(text@),
{
    let chars: Vec<char> = chars_of(text);
    let n: usize = chars.len();
    let mut start: usize = 0;
    assert(chars@.skip(0) == chars@);
    while start < n && white_space(chars[start])
        invariant
            n == chars@.len(),
            start <= n,
            trim_start(chars@.skip(start as int)) == trim_start(chars@),
        decreases n - start,
    {
        assert(chars@.skip(start as int).first() == chars@[start as int]);
        assert(chars@.skip(start as int).drop_first() == chars@.skip(start + 1));
        start = start + 1;
    }
    let ghost head = chars@.skip(start as int);
    proof {
        if start < n {
            assert(head.first() == chars@[start as int]);
        }
    }
    assert(trim_start(chars@) == head);
    let mut end: usize = n;
    assert(head.take(end - start) == head);
    while start < end && white_space(chars[end - 1])
        invariant
            n == chars@.len(),
            start <= end <= n,
            head == chars@.skip(start as int),
            trim_end(head.take(end - start)) == trim_end(head),
        decreases end,
    {
        assert(head.take(end - start).last() == chars@[end - 1]);
        assert(head.take(end - start).drop_last() == head.take(end - 1 - start));
        end = end - 1;
    }
    proof {
        let kept = head.take(end - start);
        if start < end {
            assert(kept.last() == chars@[end - 1]);
        }
        assert(trim_end(kept) == kept);
        assert(kept == chars@.subrange(start as int, end as int));
    }
    string_of(&chars, start, end)
}

/// The characters of `text`.
pub fn chars_of(text: &str) -> (r: Vec<char>)
    ensures
        r@ == text@,
{
    let mut chars: Vec<char> = Vec::new();
    for c in rest: text.chars()
        invariant
            rest.seq() == text@,
            chars@ == text@.take(rest.index()),
    {
        chars.push(c);
        assert(text@.take(rest.index()).push(c) == text@.take(rest.index() + 1));
    }
    assert(text@.take(text@.len() as int) == text@);
    chars
}

/// The string made of `chars[start..end]`.
pub fn string_of(chars: &Vec<char>, start: usize, end: usize) -> (r: String)
    requires
        start <= end <= chars@.len(),
    ensures
        r@ == chars@.subrange(start as int, end as int),
{
    let mut text = String::new();
    let mut i: usize = start;
    while i < end
        invariant
            start <= i <= end <= chars@.len(),
            text@ == chars@.subrange(start as int, i as int),
        decreases end - i,
    {
        push_char(&mut text, chars[i]);
        assert(chars@.subrange(start as int, i as int).push(chars@[i as int]) == chars@.subrange(
            start as int,
            i + 1,
        ));
        i = i + 1;
    }
    text
}

// ---------------------------------------------------------------------------
// Splitting
// ---------------------------------------------------------------------------

/// The pieces of `text` between the occurrences of `separator`: always one more
/// piece than there are separators, empty pieces included.
pub open spec fn split_on(text: Seq<char>, separator: char) -> Seq<Seq<char>>
    decreases text.len(),
{
    if text.len() == 0 {
        seq![Seq::<char>::empty()]
    } else {
        let before = split_on(text.drop_last(), separator);
        if text.last() == separator {
            before.push(Seq::empty())
        } else {
            before.drop_last().push(before.last().push(text.last()))
        }
    }
}

/// The views of a list of strings.
pub open spec fn views(list: Seq<String>) -> Seq<Seq<char>> {
    list.map_values(|s: String| s@)
}

/// A split has at least one piece.
pub proof fn lemma_split_nonempty(text: Seq<char>, separator: char)
    ensures
        split_on(text, separator).len() >= 1,
    decreases text.len(),
{
    if text.len() > 0 {
        lemma_split_nonempty(text.drop_last(), separator);
    }
}

/// Splits `text` at every `separator`.
pub fn split(text: &str, separator: char) -> (pieces: Vec<String>)
    ensures
        views(pieces@) == split_on(text@, separator),
{
    let chars: Vec<char> = chars_of(text);
    let mut pieces: Vec<String> = Vec::new();
    let mut piece = String::new();
    let mut i: usize = 0;
    assert(views(pieces@).push(piece@) =~= split_on(chars@.take(0), separator));
    while i < chars.len()
        invariant
            i <= chars@.len(),
            views(pieces@).push(piece@) == split_on(chars@.take(i as int), separator),
        decreases chars@.len() - i,
    {
        let c: char = chars[i];
        let ghost before = views(pieces@);
        let ghost done = chars@.take(i + 1);
        assert(done.drop_last() == chars@.take(i as int));
        assert(before.push(piece@).drop_last() == before);
        if c == separator {
            pieces.push(piece);
            piece = String::new();
            assert(views(pieces@) =~= before.push(split_on(chars@.take(i as int), separator).last()));
        } else {
            push_char(&mut piece, c);
        }
        i = i + 1;
    }
    assert(chars@.take(i as int) == text@);
    let ghost before = views(pieces@);
    let ghost last = piece@;
    pieces.push(piece);
    assert(views(pieces@) =~= before.push(last));
    pieces
}

/// Joining two texts with the separator joins their pieces: nothing is lost and
/// nothing is merged.
pub proof fn law_split_of_joined(left: Seq<char>, right: Seq<char>, separator: char)
    ensures
        split_on(left.push(separator) + right, separator) == split_on(left, separator) + split_on(
            right,
            separator,
        ),
    decreases right.len(),
{
    let whole = left.push(separator) + right;
    if right.len() == 0 {
        assert(whole == left.push(separator));
        assert(whole.drop_last() == left);
        assert(split_on(whole, separator) =~= split_on(left, separator) + split_on(right, separator));
    } else {
        assert(whole.drop_last() == left.push(separator) + right.drop_last());
        assert(whole.last() == right.last());
        law_split_of_joined(left, right.drop_last(), separator);
        lemma_split_nonempty(right.drop_last(), separator);
        assert(split_on(whole, separator) =~= split_on(left, separator) + split_on(right, separator));
    }
}

/// No piece of a split holds the separator.
pub proof fn law_pieces_hold_no_separator(text: Seq<char>, separator: char)
    ensures
        forall|i: int|
            0 <= i < split_on(text, separator).len() ==> !(#[trigger] split_on(
                text,
                separator,
            )[i]).contains(separator),
    decreases text.len(),
{
    if text.len() > 0 {
        let before = split_on(text.drop_last(), separator);
        law_pieces_hold_no_separator(text.drop_last(), separator);
        lemma_split_nonempty(text.drop_last(), separator);
        assert forall|i: int| 0 <= i < split_on(text, separator).len() implies !(#[trigger] split_on(
            text,
            separator,
        )[i]).contains(separator) by {
            if i < before.len() - 1 || text.last() == separator {
                if i < before.len() {
                    assert(split_on(text, separator)[i] == before[i]);
                }
            } else {
                assert(!before[before.len() - 1].contains(separator));
                let piece = before.last().push(text.last());
                assert(split_on(text, separator)[i] == piece);
                assert forall|k: int| 0 <= k < piece.len() implies piece[k] != separator by {
                    if k < piece.len() - 1 {
                        assert(before.last()[k] == piece[k]);
                    }
                }
            }
        }
    }
}

// ---------------------------------------------------------------------------
// Searching
// ---------------------------------------------------------------------------

/// `needle` stands in `haystack` at position `at`.
pub open spec fn occurs_at(haystack: Seq<char>, needle: Seq<char>, at: int) -> bool {
    &&& 0 <= at
    &&& at + needle.len() <= haystack.len()
    &&& haystack.subrange(at, at + needle.len()) == needle
}

/// `needle` stands somewhere in `haystack`.
pub open spec fn occurs_in(haystack: Seq<char>, needle: Seq<char>) -> bool {
    exists|at: int| occurs_at(haystack, needle, at)
}

/// Tells whether `needle` occurs in `haystack`.
pub fn contains_text(haystack: &str, needle: &str) -> (found: bool)
    ensures
        found == occurs_in(haystack@, needle@),
{
    let hay: Vec<char> = chars_of(haystack);
    let pin: Vec<char> = chars_of(needle);
    if pin.len() > hay.len() {
        return false;
    }
    let last: usize = hay.len() - pin.len();
    let mut at: usize = 0;
    while at <= last
        invariant
            hay@ == haystack@,
            pin@ == needle@,
            last + pin@.len() == hay@.len(),
            hay@.len() <= usize::MAX,
            at <= last + 1,
            forall|k: int| 0 <= k < at ==> !occurs_at(hay@, pin@, k),
        decreases last + 1 - at,
    {
        let mut k: usize = 0;
        while k < pin.len() && hay[at + k] == pin[k]
            invariant
                at <= last,
                last + pin@.len() == hay@.len(),
                hay@.len() <= usize::MAX,
                k <= pin@.len(),
                hay@.subrange(at as int, at + k) == pin@.take(k as int),
            decreases pin@.len() - k,
        {
            assert(hay@.subrange(at as int, at + k).push(hay@[at + k]) == hay@.subrange(
                at as int,
                at + k + 1,
            ));
            assert(pin@.take(k as int).push(pin@[k as int]) == pin@.take(k + 1));
            k = k + 1;
        }
        if k == pin.len() {
            assert(pin@.take(k as int) == pin@);
            assert(occurs_at(haystack@, needle@, at as int));
            return true;
        }
        assert(hay@.subrange(at as int, at + pin@.len())[k as int] == hay@[at + k]);
        assert(!occurs_at(hay@, pin@, at as int));
        if at == last {
            assert(forall|j: int| !occurs_at(hay@, pin@, j));
            return false;
        }
        at = at + 1;
    }
    false
}

// ---------------------------------------------------------------------------
// Letter case
// ---------------------------------------------------------------------------

/// The upper-case letter of an ASCII lower-case letter; any other character
/// unchanged.
pub open spec fn ascii_upper(c: char) -> char {
    if 'a' <= c <= 'z' {
        (c as u32 - 32) as char
    } else {
        c
    }
}

/// The lower-case letter of an ASCII upper-case letter; any other character
/// unchanged.
pub open spec fn ascii_lower(c: char) -> char {
    if 'A' <= c <= 'Z' {
        (c as u32 + 32) as char
    } else {
        c
    }
}

/// Every character of `text` through `ascii_upper`.
pub open spec fn ascii_uppercase(text: Seq<char>) -> Seq<char> {
    text.map_values(|c: char| ascii_upper(c))
}

/// Every character of `text` through `ascii_lower`.
pub open spec fn ascii_lowercase(text: Seq<char>) -> Seq<char> {
    text.map_values(|c: char| ascii_lower(c))
}

/// What `str::to_uppercase` makes of a text.
pub uninterp spec fn unicode_uppercase(text: Seq<char>) -> Seq<char>;

/// Calls `str::to_uppercase`. Its result depends on the text alone; on ASCII text
/// it upper-cases the letters `a` to `z` and changes nothing else.
#[verifier::external_body]
pub(crate) fn to_uppercase(text: &str) -> (r: String)
    ensures
        r@ == unicode_uppercase(text@),
        is_ascii_chars(text@) ==> r@ == ascii_uppercase(text@),
{
    text.to_uppercase()
}

/// What `str::to_lowercase` makes of a text.
pub uninterp spec fn unicode_lowercase(text: Seq<char>) -> Seq<char>;

/// Calls `str::to_lowercase`. Its result depends on the text alone; on ASCII text
/// it lower-cases the letters `A` to `Z` and changes nothing else.
#[verifier::external_body]
pub(crate) fn to_lowercase(text: &str) -> (r: String)
    ensures
        r@ == unicode_lowercase(text@),
        is_ascii_chars(text@) ==> r@ == ascii_lowercase(text@),
{
    text.to_lowercase()
}

// ---------------------------------------------------------------------------
// UTF-16
// ---------------------------------------------------------------------------

/// The first unit of a surrogate pair.
pub open spec fn is_high_surrogate(unit: u16) -> bool {
    0xD800 <= unit < 0xDC00
}

/// The second unit of a surrogate pair.
pub open spec fn is_low_surrogate(unit: u16) -> bool {
    0xDC00 <= unit < 0xE000
}

/// The character that a surrogate pair stands for.
pub open spec fn surrogate_pair(high: u16, low: u16) -> char {
    (0x10000 + (high - 0xD800) * 0x400 + (low - 0xDC00)) as char
}

/// The text of UTF-16 `units`; each surrogate that is not part of a pair reads as
/// U+FFFD.
pub open spec fn utf16_lossy(units: Seq<u16>) -> Seq<char>
    decreases units.len(),
{
    if units.len() == 0 {
        Seq::empty()
    } else if !is_high_surrogate(units[0]) && !is_low_surrogate(units[0]) {
        seq![units[0] as char] + utf16_lossy(units.skip(1))
    } else if is_high_surrogate(units[0]) && units.len() > 1 && is_low_surrogate(units[1]) {
        seq![surrogate_pair(units[0], units[1])] + utf16_lossy(units.skip(2))
    } else {
        seq!['\u{FFFD}'] + utf16_lossy(units.skip(1))
    }
}

/// Decodes UTF-16 `units`, with U+FFFD for each unpaired surrogate.
pub fn decode_utf16(units: &Vec<u16>) -> (r: String)
    ensures
        r@ == utf16_lossy(units@),
{
    let mut text = String::new();
    let n: usize = units.len();
    let mut i: usize = 0;
    assert(units@.skip(0) == units@);
    while i < n
        invariant
            n == units@.len(),
            i <= n,
            text@ + utf16_lossy(units@.skip(i as int)) == utf16_lossy(units@),
        decreases n - i,
    {
        let unit: u16 = units[i];
        let ghost rest = units@.skip(i as int);
        let ghost before = text@;
        assert(rest[0] == unit);
        let high: bool = 0xD800 <= unit && unit < 0xDC00;
        let low: bool = 0xDC00 <= unit && unit < 0xE000;
        let mut step: usize = 1;
        let mut code: u32 = 0xFFFD;
        if !high && !low {
            code = unit as u32;
        } else if high && i + 1 < n {
            let next: u16 = units[i + 1];
            assert(rest[1] == next);
            if 0xDC00 <= next && next < 0xE000 {
                code = 0x10000 + (unit as u32 - 0xD800) * 0x400 + (next as u32 - 0xDC00);
                step = 2;
            }
        }
        if let Some(c) = char_from_u32(code) {
            push_char(&mut text, c);
            assert(c == code as char);
            assert(text@ =~= before + seq![code as char]);
        }
        assert(rest.skip(step as int) == units@.skip(i + step));
        assert(utf16_lossy(rest) == seq![code as char] + utf16_lossy(rest.skip(step as int)));
        assert(text@ + utf16_lossy(units@.skip(i + step)) =~= before + utf16_lossy(rest));
        i = i + step;
    }
    assert(units@.skip(n as int).len() == 0);
    assert(text@ + Seq::<char>::empty() =~= text@);
    text
}

// ---------------------------------------------------------------------------
// Decimal numbers
// ---------------------------------------------------------------------------

/// The decimal digit `d`.
pub open spec fn digit(d: int) -> char {
    (48 + d) as char
}

/// `n` in decimal, without leading zeros.
pub open spec fn decimal(n: nat) -> Seq<char>
    decreases n,
{
    if n < 10 {
        seq![digit(n as int)]
    } else {
        decimal(n / 10).push(digit((n % 10) as int))
    }
}

/// `n` in decimal, with a minus sign in front where it is negative.
pub open spec fn signed_decimal(n: int) -> Seq<char> {
    if n < 0 {
        seq!['-'] + decimal((-n) as nat)
    } else {
        decimal(n as nat)
    }
}

/// Writes `n` in decimal.
pub fn decimal_text(n: u128) -> (r: String)
    ensures
        r@ == decimal(n as nat),
    decreases n,
{
    let mut text = if n < 10 {
        String::new()
    } else {
        decimal_text(n / 10)
    };
    let d: u8 = (n % 10) as u8;
    let c: char = (48 + d) as char;
    push_char(&mut text, c);
    assert(text@ =~= decimal(n as nat));
    text
}

/// Writes `n` in decimal, with its sign.
pub fn signed_decimal_text(n: i128) -> (r: String)
    ensures
        r@ == signed_decimal(n as int),
{
    if n < 0 {
        let mut text = String::new();
        push_char(&mut text, '-');
        let magnitude: u128 = (-(n + 1)) as u128 + 1;
        text.append(decimal_text(magnitude).as_str());
        assert(text@ =~= signed_decimal(n as int));
        text
    } else {
        decimal_text(n as u128)
    }
}

/// The number that a text of decimal digits stands for; none where it is empty or holds
/// anything else.
pub open spec fn number_in(text: Seq<char>) -> Option<nat>
    decreases text.len(),
{
    if text.len() == 0 || !('0' <= text.last() <= '9') {
        None
    } else {
        let d: nat = (text.last() as u32 - 48) as nat;
        if text.len() == 1 {
            Some(d)
        } else {
            match number_in(text.drop_last()) {
                Some(n) => Some(10 * n + d),
                None => None,
            }
        }
    }
}

/// The number that a text of decimal digits, with a minus sign or without, stands for.
pub open spec fn signed_number_in(text: Seq<char>) -> Option<int> {
    if text.len() > 0 && text.first() == '-' {
        match number_in(text.drop_first()) {
            Some(n) => Some(-(n as int)),
            None => None,
        }
    } else {
        match number_in(text) {
            Some(n) => Some(n as int),
            None => None,
        }
    }
}

/// A number in the range of an `i128`.
pub open spec fn in_i128(n: Option<int>) -> Option<i128> {
    match n {
        Some(n) => if i128::MIN <= n <= i128::MAX {
            Some(n as i128)
        } else {
            None
        },
        None => None,
    }
}

/// The start of a number is a number, and no larger one.
proof fn lemma_number_grows(text: Seq<char>, n: int)
    requires
        0 < n <= text.len(),
        number_in(text) is Some,
    ensures
        number_in(text.take(n)) is Some,
        number_in(text.take(n))->0 <= number_in(text)->0,
    decreases text.len(),
{
    if n == text.len() {
        assert(text.take(n) =~= text);
    } else {
        lemma_number_grows(text.drop_last(), n);
        assert(text.drop_last().take(n) =~= text.take(n));
    }
}

/// The largest magnitude of an `i128`.
const MAX_MAGNITUDE: u128 = 0x8000_0000_0000_0000_0000_0000_0000_0000;

/// Reads `chars[start..]` as a number, as long as it is no larger than the magnitude of
/// an `i128`.
fn read_magnitude(chars: &Vec<char>, start: usize) -> (n: Option<u128>)
    requires
        start <= chars@.len(),
    ensures
        match number_in(chars@.skip(start as int)) {
            Some(k) => if k <= MAX_MAGNITUDE {
                n == Some(k as u128)
            } else {
                n is None
            },
            None => n is None,
        },
{
    let ghost text = chars@.skip(start as int);
    if start == chars.len() {
        return None;
    }
    let mut value: u128 = 0;
    let mut i: usize = start;
    while i < chars.len()
        invariant
            start <= i <= chars@.len(),
            text == chars@.skip(start as int),
            value <= MAX_MAGNITUDE,
            i == start ==> value == 0,
            i > start ==> number_in(text.take(i - start)) == Some(value as nat),
        decreases chars@.len() - i,
    {
        let c: char = chars[i];
        let ghost seen = text.take(i + 1 - start);
        assert(seen.last() == c);
        assert(seen.drop_last() =~= text.take(i - start));
        proof {
            if number_in(text) is Some {
                lemma_number_grows(text, i + 1 - start);
            }
        }
        if c < '0' || '9' < c {
            return None;
        }
        let d: u128 = (c as u32 - 48) as u128;
        if value > (MAX_MAGNITUDE - d) / 10 {
            return None;
        }
        value = 10 * value + d;
        i = i + 1;
    }
    assert(text.take(i - start) =~= text);
    Some(value)
}

/// Reads a number in decimal, with its sign; `None` where the text is no number, or one
/// that an `i128` cannot hold.
pub fn read_signed_decimal(text: &str) -> (n: Option<i128>)
    ensures
        n == in_i128(signed_number_in(text@)),
{
    let chars: Vec<char> = chars_of(text);
    assert(chars@.skip(0) =~= chars@);
    if chars.len() > 0 && chars[0] == '-' {
        assert(chars@.skip(1) =~= chars@.drop_first());
        match read_magnitude(&chars, 1) {
            Some(k) => {
                if k == 0 {
                    Some(0)
                } else {
                    Some(-((k - 1) as i128) - 1)
                }
            },
            None => None,
        }
    } else {
        match read_magnitude(&chars, 0) {
            Some(k) => {
                if k < MAX_MAGNITUDE {
                    Some(k as i128)
                } else {
                    None
                }
            },
            None => None,
        }
    }
}

/// A number that was written in decimal reads back.
pub proof fn law_decimals_read_back(n: i128)
    ensures
        in_i128(signed_number_in(signed_decimal(n as int))) == Some(n),
{
    if n < 0 {
        lemma_decimal_reads_back((-n) as nat);
        assert(signed_decimal(n as int).drop_first() =~= decimal((-n) as nat));
    } else {
        lemma_decimal_reads_back(n as nat);
    }
}

proof fn lemma_decimal_reads_back(n: nat)
    ensures
        number_in(decimal(n)) == Some(n),
        decimal(n).len() > 0,
        decimal(n).first() != '-',
    decreases n,
{
    if n >= 10 {
        lemma_decimal_reads_back(n / 10);
        assert(decimal(n).drop_last() =~= decimal(n / 10));
        assert(decimal(n).first() == decimal(n / 10).first());
    }
}

/// A text without the separator is its only piece.
pub proof fn law_split_without_separator(text: Seq<char>, separator: char)
    requires
        !text.contains(separator),
    ensures
        split_on(text, separator) == seq![text],
    decreases text.len(),
{
    if text.len() == 0 {
        assert(text =~= Seq::empty());
    } else {
        let init = text.drop_last();
        assert forall|i: int| 0 <= i < init.len() implies init[i] != separator by {
            assert(text[i] == init[i]);
        }
        law_split_without_separator(init, separator);
        assert(text[text.len() - 1] != separator);
        assert(init.push(text.last()) =~= text);
        assert(split_on(text, separator) =~= seq![text]);
    }
}

/// All characters of the text are white space.
pub open spec fn is_blank(text: Seq<char>) -> bool {
    forall|i: int| 0 <= i < text.len() ==> is_white_space(#[trigger] text[i])
}

/// To trim a text takes white space from its ends, all of it, and nothing else.
pub proof fn law_trimming_takes_the_white_space_around(text: Seq<char>)
    ensures
        exists|lead: Seq<char>, trail: Seq<char>|
            #![auto]
            is_blank(lead) && is_blank(trail) && text == lead + trimmed(text) + trail,
        trimmed(text).len() > 0 ==> !is_white_space(trimmed(text).first()) && !is_white_space(
            trimmed(text).last(),
        ),
{
    let lead = lemma_trim_start(text);
    let rest = trim_start(text);
    let trail = lemma_trim_end(rest);
    assert(text =~= lead + trimmed(text) + trail);
    if trimmed(text).len() > 0 {
        assert(rest.first() == trimmed(text).first());
    }
}

proof fn lemma_trim_start(text: Seq<char>) -> (lead: Seq<char>)
    ensures
        is_blank(lead),
        text == lead + trim_start(text),
        trim_start(text).len() > 0 ==> !is_white_space(trim_start(text).first()),
    decreases text.len(),
{
    if text.len() > 0 && is_white_space(text.first()) {
        let rest = lemma_trim_start(text.drop_first());
        let lead = seq![text.first()] + rest;
        assert(text =~= seq![text.first()] + text.drop_first());
        assert(text =~= lead + trim_start(text));
        lead
    } else {
        assert(text =~= Seq::<char>::empty() + text);
        Seq::empty()
    }
}

proof fn lemma_trim_end(text: Seq<char>) -> (trail: Seq<char>)
    ensures
        is_blank(trail),
        text == trim_end(text) + trail,
        trim_end(text).len() > 0 ==> !is_white_space(trim_end(text).last()),
    decreases text.len(),
{
    if text.len() > 0 && is_white_space(text.last()) {
        let rest = lemma_trim_end(text.drop_last());
        let trail = rest.push(text.last());
        assert(text =~= text.drop_last().push(text.last()));
        assert(text =~= trim_end(text) + trail);
        trail
    } else {
        assert(text =~= text + Seq::<char>::empty());
        Seq::empty()
    }
}

/// Units that are no surrogates are the characters with the same numbers, one for one.
pub proof fn law_plain_units_are_their_characters(units: Seq<u16>, i: int)
    requires
        forall|k: int|
            0 <= k < units.len() ==> (#[trigger] units[k]) < 0xD800 || units[k] >= 0xE000,
        0 <= i < units.len(),
    ensures
        utf16_lossy(units).len() == units.len(),
        utf16_lossy(units)[i] as u32 == units[i],
    decreases units.len(),
{
    let rest = units.skip(1);
    assert forall|k: int| 0 <= k < rest.len() implies (#[trigger] rest[k]) < 0xD800 || rest[k]
        >= 0xE000 by {
        assert(rest[k] == units[k + 1]);
    }
    if i > 0 {
        law_plain_units_are_their_characters(rest, i - 1);
    } else if rest.len() > 0 {
        law_plain_units_are_their_characters(rest, 0);
    } else {
        assert(utf16_lossy(rest).len() == 0);
    }
}

/// A pair of surrogates is one character; it stands for the 20 bits that they carry, past
/// the first 2^16 characters.
pub proof fn law_pairs_carry_twenty_bits(high: u16, low: u16)
    requires
        0xD800 <= high < 0xDC00,
        0xDC00 <= low < 0xE000,
    ensures
        utf16_lossy(seq![high, low]).len() == 1,
        utf16_lossy(seq![high, low])[0] as int - 0x10000 == (high - 0xD800) * 1024 + (low - 0xDC00),
{
    let units = seq![high, low];
    assert(units.skip(2) =~= Seq::<u16>::empty());
    assert(utf16_lossy(units.skip(2)).len() == 0);
}

/// Which characters are white space, one by one.
pub proof fn law_white_space_characters(c: char)
    ensures
        is_white_space(c) <==> set![
            '\t',
            '\n',
            '\u{B}',
            '\u{C}',
            '\r',
            ' ',
            '\u{85}',
            '\u{A0}',
            '\u{1680}',
            '\u{2000}',
            '\u{2001}',
            '\u{2002}',
            '\u{2003}',
            '\u{2004}',
            '\u{2005}',
            '\u{2006}',
            '\u{2007}',
            '\u{2008}',
            '\u{2009}',
            '\u{200A}',
            '\u{2028}',
            '\u{2029}',
            '\u{202F}',
            '\u{205F}',
            '\u{3000}',
        ].contains(c),
{
}

/// A text occurs in another exactly where the other is made of it and of something, or
/// nothing, on each side.
pub proof fn law_occurrences_have_two_sides(haystack: Seq<char>, needle: Seq<char>)
    ensures
        occurs_in(haystack, needle) <==> exists|before: Seq<char>, after: Seq<char>|
            haystack == #[trigger] (before + needle + after),
{
    if occurs_in(haystack, needle) {
        let at = choose|at: int| occurs_at(haystack, needle, at);
        let before = haystack.take(at);
        let after = haystack.skip(at + needle.len());
        assert(haystack =~= before + haystack.subrange(at, at + needle.len()) + after);
        assert(haystack == before + needle + after);
    }
    if exists|before: Seq<char>, after: Seq<char>|
        haystack == #[trigger] (before + needle + after) {
        let (before, after) = choose|before: Seq<char>, after: Seq<char>|
            haystack == #[trigger] (before + needle + after);
        let at = before.len() as int;
        assert(haystack.subrange(at, at + needle.len()) =~= needle);
        assert(occurs_at(haystack, needle, at));
    }
}

/// Units are decoded piece by piece: two pieces may be decoded one after the other, unless
/// the cut parts a pair of surrogates.
pub proof fn law_units_are_decoded_piece_by_piece(left: Seq<u16>, right: Seq<u16>)
    requires
        left.len() == 0 || right.len() == 0 || !(0xD800 <= left.last() < 0xDC00) || !(0xDC00
            <= right.first() < 0xE000),
    ensures
        utf16_lossy(left + right) == utf16_lossy(left) + utf16_lossy(right),
    decreases left.len(),
{
    let both = left + right;
    if left.len() == 0 {
        assert(both =~= right);
        assert(utf16_lossy(left) =~= Seq::empty());
    } else if is_high_surrogate(left[0]) && left.len() > 1 && is_low_surrogate(left[1]) {
        assert(both.skip(2) =~= left.skip(2) + right);
        law_units_are_decoded_piece_by_piece(left.skip(2), right);
        assert(utf16_lossy(both) =~= utf16_lossy(left) + utf16_lossy(right));
    } else {
        assert(both.skip(1) =~= left.skip(1) + right);
        law_units_are_decoded_piece_by_piece(left.skip(1), right);
        assert(utf16_lossy(both) =~= utf16_lossy(left) + utf16_lossy(right));
    }
}

/// A surrogate by itself is replaced.
pub proof fn law_lone_surrogates_are_replaced(unit: u16)
    requires
        0xD800 <= unit < 0xE000,
    ensures
        utf16_lossy(seq![unit]) == seq!['\u{FFFD}'],
{
    assert(utf16_lossy(seq![unit].skip(1)).len() == 0);
    assert(utf16_lossy(seq![unit]) =~= seq!['\u{FFFD}']);
}

/// A number is written with digits alone, with at least one of them, and every such text
/// is a number.
pub proof fn law_numbers_are_digits(text: Seq<char>)
    ensures
        number_in(text) is Some <==> text.len() > 0 && forall|i: int|
            0 <= i < text.len() ==> '0' <= #[trigger] text[i] <= '9',
    decreases text.len(),
{
    if text.len() > 0 {
        let init = text.drop_last();
        law_numbers_are_digits(init);
        if forall|i: int| 0 <= i < text.len() ==> '0' <= #[trigger] text[i] <= '9' {
            assert forall|i: int| 0 <= i < init.len() implies '0' <= #[trigger] init[i] <= '9' by {
                assert(init[i] == text[i]);
            }
            assert('0' <= text[text.len() - 1] <= '9');
        }
        if number_in(text) is Some {
            assert forall|i: int| 0 <= i < text.len() implies '0' <= #[trigger] text[i] <= '9' by {
                if i < init.len() {
                    assert(init[i] == text[i]);
                }
            }
        }
    }
}

/// Zeros in front of a number do not change it.
pub proof fn law_leading_zeros_do_not_count(text: Seq<char>)
    requires
        text.len() > 0,
    ensures
        number_in(seq!['0'] + text) == number_in(text),
    decreases text.len(),
{
    let longer = seq!['0'] + text;
    assert(longer.last() == text.last());
    assert(longer.drop_last() =~= seq!['0'] + text.drop_last());
    if text.len() > 1 {
        law_leading_zeros_do_not_count(text.drop_last());
    } else {
        assert(longer.drop_last() =~= seq!['0']);
        assert(number_in(seq!['0']) == Some(0nat));
    }
}

} // verus!
