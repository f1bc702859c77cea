//! Small operations on texts: trimming, searching, and decimal numbers.

use vstd::prelude::*;

verus! {

/// Whether a character is white space in the sense of Unicode.
pub open spec fn is_space(c: char) -> bool {
    let code = c as u32;
    ||| 0x09 <= code <= 0x0d
    ||| code == 0x20
    ||| code == 0x85
    ||| code == 0xa0
    ||| code == 0x1680
    ||| 0x2000 <= code <= 0x200a
    ||| code == 0x2028
    ||| code == 0x2029
    ||| code == 0x202f
    ||| code == 0x205f
    ||| code == 0x3000
}

/// What is stripped from the ends of a text.
#[derive(Clone, Copy, Debug, PartialEq, Eq, Structural)]
pub enum Strip {
    /// White space.
    Spaces,
    /// Double quotes.
    Quotes,
}

/// Whether a character is of the kind that is stripped.
pub open spec fn is_stripped(kind: Strip, c: char) -> bool {
    match kind {
        Strip::Spaces => is_space(c),
        Strip::Quotes => c == '"',
    }
}

/// The first position in `from..to` whose character is kept, or `to`.
pub open spec fn strip_start(text: Seq<char>, kind: Strip, from: int, to: int) -> int
    decreases to - from,
{
    if from >= to {
        to
    } else if is_stripped(kind, text[from]) {
        strip_start(text, kind, from + 1, to)
    } else {
        from
    }
}

/// The position after the last character in `from..to` that is kept, or `from`.
pub open spec fn strip_end(text: Seq<char>, kind: Strip, from: int, to: int) -> int
    decreases to - from,
{
    if to <= from {
        from
    } else if is_stripped(kind, text[to - 1]) {
        strip_end(text, kind, from, to - 1)
    } else {
        to
    }
}

/// The part of `from..to` that is left when the stripped kind is taken from
/// both ends.
pub open spec fn stripped(text: Seq<char>, kind: Strip, from: int, to: int) -> (int, int) {
    let start = strip_start(text, kind, from, to);
    (start, strip_end(text, kind, start, to))
}

/// The first position in `from..to` that holds `c`, or `to`.
pub open spec fn position_of(text: Seq<char>, c: char, from: int, to: int) -> int
    decreases to - from,
{
    if from >= to {
        to
    } else if text[from] == c {
        from
    } else {
        position_of(text, c, from + 1, to)
    }
}

/// Tells whether a character is white space.
pub fn is_whitespace(c: char) -> (yes: bool)
    ensures
        yes == is_space(c),
{
    let code: u32 = c as u32;
    (0x09 <= code && code <= 0x0d) || code == 0x20 || code == 0x85 || code == 0xa0 || code
        == 0x1680 || (0x2000 <= code && code <= 0x200a) || code == 0x2028 || code == 0x2029
        || code == 0x202f || code == 0x205f || code == 0x3000
}

/// Tells whether a character is of the kind that is stripped.
pub fn strips(kind: Strip, c: char) -> (yes: bool)
    ensures
        yes == is_stripped(kind, c),
{
    match kind {
        Strip::Spaces => is_whitespace(c),
        Strip::Quotes => c == '"',
    }
}

/// Strips a kind of character from both ends of a part of a text.
pub(crate) fn strip(text: &str, kind: Strip, from: usize, to: usize) -> (part: (usize, usize))
    requires
        from <= to <= text@.len(),
    ensures
        part.0 == stripped(text@, kind, from as int, to as int).0,
        part.1 == stripped(text@, kind, from as int, to as int).1,
        from <= part.0 <= part.1 <= to,
{
    let mut start: usize = from;
    while start < to && strips(kind, text.get_char(start))
        invariant
            from <= start <= to <= text@.len(),
            strip_start(text@, kind, start as int, to as int) == strip_start(
                text@,
                kind,
                from as int,
                to as int,
            ),
        decreases to - start,
    {
        start += 1;
    }
    let mut end: usize = to;
    while end > start && strips(kind, text.get_char(end - 1))
        invariant
            start <= end <= to <= text@.len(),
            strip_end(text@, kind, start as int, end as int) == strip_end(
                text@,
                kind,
                start as int,
                to as int,
            ),
        decreases end - start,
    {
        end -= 1;
    }
    (start, end)
}

/// Finds the first position in `from..to` that holds `c`; `to` if none does.
pub(crate) fn find_char(text: &str, c: char, from: usize, to: usize) -> (position: usize)
    requires
        from <= to <= text@.len(),
    ensures
        position == position_of(text@, c, from as int, to as int),
        from <= position <= to,
        position < to ==> text@[position as int] == c,
{
    let mut at: usize = from;
    while at < to && text.get_char(at) != c
        invariant
            from <= at <= to <= text@.len(),
            position_of(text@, c, at as int, to as int) == position_of(
                text@,
                c,
                from as int,
                to as int,
            ),
        decreases to - at,
    {
        at += 1;
    }
    at
}

/// Tells whether the part `from..to` of a text reads as `word`.
pub(crate) fn part_is(text: &str, from: usize, to: usize, word: &str) -> (same: bool)
    requires
        from <= to <= text@.len(),
    ensures
        same == (text@.subrange(from as int, to as int) == word@),
{
    let count: usize = word.unicode_len();
    if to - from != count {
        return false;
    }
    let mut index: usize = 0;
    while index < count
        invariant
            index <= count,
            count == word@.len(),
            from + count == to,
            to <= text@.len(),
            forall|i: int| 0 <= i < index ==> text@[from + i] == word@[i],
        decreases count - index,
    {
        if text.get_char(from + index) != word.get_char(index) {
            assert(text@.subrange(from as int, to as int)[index as int] != word@[index as int]);
            return false;
        }
        index += 1;
    }
    proof {
        assert(text@.subrange(from as int, to as int) =~= word@);
    }
    true
}

/// Whether a character is a decimal digit of ASCII.
pub open spec fn is_digit(c: char) -> bool {
    0x30 <= c as u32 <= 0x39
}

/// The number that a run of decimal digits spells.
pub open spec fn digits_value(digits: Seq<char>) -> int
    decreases digits.len(),
{
    if digits.len() == 0 {
        0
    } else {
        digits_value(digits.drop_last()) * 10 + (digits.last() as u32 - 0x30)
    }
}

/// Whether a text is one or more decimal digits.
pub open spec fn is_number(digits: Seq<char>) -> bool {
    digits.len() > 0 && forall|i: int| 0 <= i < digits.len() ==> is_digit(#[trigger] digits[i])
}

/// The 32-bit integer that a run of digits spells under a sign, if it spells
/// one: the run must be a number, and the integer in the 32-bit range.
pub open spec fn spelt_digits(digits: Seq<char>, negative: bool) -> Option<i32> {
    let value = if negative {
        -digits_value(digits)
    } else {
        digits_value(digits)
    };
    if is_number(digits) && i32::MIN <= value <= i32::MAX {
        Some(value as i32)
    } else {
        None
    }
}

/// The 32-bit integer that a text spells: an optional sign, then decimal
/// digits and nothing else. A number outside the 32-bit range is not spelt.
pub open spec fn spelt_i32(text: Seq<char>) -> Option<i32> {
    if text.len() > 0 && (text[0] == '-' || text[0] == '+') {
        spelt_digits(text.subrange(1, text.len() as int), text[0] == '-')
    } else {
        spelt_digits(text, false)
    }
}

/// The truth value that a text spells: `true` or `false`, exactly.
pub open spec fn spelt_bool(text: Seq<char>) -> Option<bool> {
    if text == "true"@ {
        Some(true)
    } else if text == "false"@ {
        Some(false)
    } else {
        None
    }
}

/// A run of digits spells at least what any of its beginnings spells.
proof fn lemma_digits_grow(digits: Seq<char>, shorter: int)
    requires
        0 <= shorter <= digits.len(),
        forall|i: int| 0 <= i < digits.len() ==> is_digit(#[trigger] digits[i]),
    ensures
        0 <= digits_value(digits.subrange(0, shorter)) <= digits_value(digits),
    decreases digits.len() - shorter,
{
    let head = digits.subrange(0, shorter);
    lemma_digits_nonnegative(head);
    if shorter == digits.len() {
        assert(head =~= digits);
    } else {
        let next = digits.subrange(0, shorter + 1);
        assert(next.drop_last() =~= head);
        assert(is_digit(digits[shorter]));
        assert(next.last() == digits[shorter]);
        lemma_digits_grow(digits, shorter + 1);
    }
}

/// A run of digits spells no negative number.
proof fn lemma_digits_nonnegative(digits: Seq<char>)
    requires
        forall|i: int| 0 <= i < digits.len() ==> is_digit(#[trigger] digits[i]),
    ensures
        0 <= digits_value(digits),
    decreases digits.len(),
{
    if digits.len() > 0 {
        lemma_digits_nonnegative(digits.drop_last());
        assert(is_digit(digits[digits.len() - 1]));
    }
}

/// Reads the 32-bit integer that the part `from..to` of a text spells.
pub(crate) fn parse_i32(text: &str, from: usize, to: usize) -> (value: Option<i32>)
    requires
        from <= to <= text@.len(),
    ensures
        value == spelt_i32(text@.subrange(from as int, to as int)),
{
    let ghost part = text@.subrange(from as int, to as int);
    if from == to {
        return None;
    }
    let first: char = text.get_char(from);
    let negative: bool = first == '-';
    let start: usize = if first == '-' || first == '+' {
        from + 1
    } else {
        from
    };
    let ghost digits = text@.subrange(start as int, to as int);
    proof {
        assert(part[0] == first);
        if start == from + 1 {
            assert(digits =~= part.subrange(1, part.len() as int));
        } else {
            assert(digits =~= part);
        }
    }
    assert(spelt_i32(part) == spelt_digits(digits, negative));
    if start == to {
        return None;
    }
    let mut at: usize = start;
    let mut total: i64 = 0;
    while at < to
        invariant
            start <= at <= to <= text@.len(),
            digits == text@.subrange(start as int, to as int),
            part == text@.subrange(from as int, to as int),
            spelt_i32(part) == spelt_digits(digits, negative),
            forall|i: int| 0 <= i < at - start ==> is_digit(#[trigger] digits[i]),
            total == digits_value(digits.subrange(0, at - start)),
            0 <= total <= 0x8000_0000,
        decreases to - at,
    {
        let code: u32 = text.get_char(at) as u32;
        if code < 0x30 || code > 0x39 {
            assert(!is_digit(digits[at - start]));
            return None;
        }
        let ghost before = digits.subrange(0, at - start);
        let ghost after = digits.subrange(0, at - start + 1);
        proof {
            assert(after.drop_last() =~= before);
            assert(after.last() == digits[at - start]);
        }
        let next: i64 = total * 10 + (code - 0x30) as i64;
        if next > 0x8000_0000 {
            proof {
                if is_number(digits) {
                    lemma_digits_grow(digits, at - start + 1);
                }
            }
            return None;
        }
        total = next;
        at += 1;
    }
    proof {
        assert(digits.subrange(0, at - start) =~= digits);
    }
    if negative {
        Some((-total) as i32)
    } else if total > 0x7fff_ffff {
        None
    } else {
        Some(total as i32)
    }
}

/// Reads the truth value that the part `from..to` of a text spells.
pub(crate) fn parse_bool(text: &str, from: usize, to: usize) -> (value: Option<bool>)
    requires
        from <= to <= text@.len(),
    ensures
        value == spelt_bool(text@.subrange(from as int, to as int)),
{
    if part_is(text, from, to, "true") {
        Some(true)
    } else if part_is(text, from, to, "false") {
        Some(false)
    } else {
        None
    }
}

/// The text of one decimal digit.
pub open spec fn digit_text(digit: int) -> Seq<char> {
    if digit == 0 {
        "0"@
    } else if digit == 1 {
        "1"@
    } else if digit == 2 {
        "2"@
    } else if digit == 3 {
        "3"@
    } else if digit == 4 {
        "4"@
    } else if digit == 5 {
        "5"@
    } else if digit == 6 {
        "6"@
    } else if digit == 7 {
        "7"@
    } else if digit == 8 {
        "8"@
    } else {
        "9"@
    }
}

/// The decimal digits of a natural number, without leading zeros.
pub open spec fn decimal_digits(n: nat) -> Seq<char>
    decreases n,
{
    if n < 10 {
        digit_text(n as int)
    } else {
        decimal_digits(n / 10) + digit_text((n % 10) as int)
    }
}

/// The decimal text of an integer: a minus sign for a negative one, then the
/// digits of its magnitude.
pub open spec fn decimal_text(n: int) -> Seq<char> {
    if n < 0 {
        "-"@ + decimal_digits((-n) as nat)
    } else {
        decimal_digits(n as nat)
    }
}

/// The text of a truth value.
pub open spec fn bool_text(value: bool) -> Seq<char> {
    if value {
        "true"@
    } else {
        "false"@
    }
}

/// Gives the text of one decimal digit.
pub(crate) fn digit_str(digit: u32) -> (text: &'static str)
    requires
        digit < 10,
    ensures
        text@ == digit_text(digit as int),
{
    match digit {
        0 => "0",
        1 => "1",
        2 => "2",
        3 => "3",
        4 => "4",
        5 => "5",
        6 => "6",
        7 => "7",
        8 => "8",
        _ => "9",
    }
}

/// Appends the decimal digits of a number to a text.
pub fn append_digits(out: &mut String, n: u32)
    ensures
        final(out)@ == old(out)@ + decimal_digits(n as nat),
    decreases n,
{
    if n >= 10 {
        append_digits(out, n / 10);
    }
    out.append(digit_str(n % 10));
    proof {
        if n >= 10 {
            assert(final(out)@ =~= old(out)@ + decimal_digits(n as nat));
        }
    }
}

/// Appends the decimal text of an integer to a text.
pub fn append_i32(out: &mut String, n: i32)
    ensures
        final(out)@ == old(out)@ + decimal_text(n as int),
{
    if n < 0 {
        out.append("-");
        let magnitude: u32 = (-(n as i64)) as u32;
        append_digits(out, magnitude);
        proof {
            assert(final(out)@ =~= old(out)@ + decimal_text(n as int));
        }
    } else {
        append_digits(out, n as u32);
    }
}

/// One decimal digit is a number, and spells itself.
proof fn lemma_digit_text(digit: int)
    requires
        0 <= digit < 10,
    ensures
        digit_text(digit).len() == 1,
        is_digit(digit_text(digit)[0]),
        digit_text(digit)[0] as u32 - 0x30 == digit,
{
    reveal_strlit("0");
    reveal_strlit("1");
    reveal_strlit("2");
    reveal_strlit("3");
    reveal_strlit("4");
    reveal_strlit("5");
    reveal_strlit("6");
    reveal_strlit("7");
    reveal_strlit("8");
    reveal_strlit("9");
}

/// The decimal digits of a number are a number, and spell it.
pub proof fn lemma_decimal_digits(n: nat)
    ensures
        is_number(decimal_digits(n)),
        digits_value(decimal_digits(n)) == n,
    decreases n,
{
    lemma_digit_text((n % 10) as int);
    let last = digit_text((n % 10) as int);
    if n < 10 {
        assert(decimal_digits(n).drop_last() =~= Seq::<char>::empty());
        assert(digits_value(decimal_digits(n).drop_last()) == 0);
    } else {
        lemma_decimal_digits(n / 10);
        let head = decimal_digits(n / 10);
        let all = decimal_digits(n);
        assert(all == head + last);
        assert(all.drop_last() =~= head);
        assert(all.last() == last[0]);
        assert forall|i: int| 0 <= i < all.len() implies is_digit(#[trigger] all[i]) by {
            if i < head.len() {
                assert(all[i] == head[i]);
            }
        }
    }
}

/// Reading the decimal text of a 32-bit integer gives that integer back.
pub proof fn decimal_round_trip(n: i32)
    ensures
        spelt_i32(decimal_text(n as int)) == Some(n),
{
    reveal_strlit("-");
    if n < 0 {
        let digits = decimal_digits((-n) as nat);
        let text = decimal_text(n as int);
        lemma_decimal_digits((-n) as nat);
        assert(text[0] == '-');
        assert(text.subrange(1, text.len() as int) =~= digits);
    } else {
        let digits = decimal_digits(n as nat);
        lemma_decimal_digits(n as nat);
        assert(is_digit(digits[0]));
    }
}

/// The two decimal digits of a number below a hundred.
pub open spec fn two_digits(n: int) -> Seq<char> {
    digit_text(n / 10) + digit_text(n % 10)
}

/// The four decimal digits of a number below ten thousand.
pub open spec fn four_digits(n: int) -> Seq<char> {
    two_digits(n / 100) + two_digits(n % 100)
}

/// Appends the two decimal digits of a number below a hundred to a text.
pub(crate) fn append_two_digits(out: &mut String, n: u32)
    requires
        n < 100,
    ensures
        final(out)@ == old(out)@ + two_digits(n as int),
{
    out.append(digit_str(n / 10));
    out.append(digit_str(n % 10));
    proof {
        assert(final(out)@ =~= old(out)@ + two_digits(n as int));
    }
}

/// Appends the four decimal digits of a number below ten thousand to a text.
pub(crate) fn append_four_digits(out: &mut String, n: u32)
    requires
        n < 10000,
    ensures
        final(out)@ == old(out)@ + four_digits(n as int),
{
    append_two_digits(out, n / 100);
    append_two_digits(out, n % 100);
    proof {
        assert(final(out)@ =~= old(out)@ + four_digits(n as int));
    }
}

/// The first position that holds a character is told by what stands before
/// it and at it.
pub proof fn lemma_position_of(text: Seq<char>, c: char, from: int, to: int, found: int)
    requires
        from <= found <= to,
        forall|i: int| from <= i < found ==> text[i] != c,
        found < to ==> text[found] == c,
    ensures
        position_of(text, c, from, to) == found,
    decreases found - from,
{
    if from < found {
        lemma_position_of(text, c, from + 1, to, found);
    }
}

/// Where the kept part of a text starts is told by what stands before it and
/// at it.
pub proof fn lemma_strip_start(text: Seq<char>, kind: Strip, from: int, to: int, found: int)
    requires
        from <= found <= to,
        forall|i: int| from <= i < found ==> is_stripped(kind, text[i]),
        found < to ==> !is_stripped(kind, text[found]),
    ensures
        strip_start(text, kind, from, to) == found,
    decreases found - from,
{
    if from < found {
        lemma_strip_start(text, kind, from + 1, to, found);
    }
}

/// Where the kept part of a text ends is told by what stands after it and
/// right before its end.
pub proof fn lemma_strip_end(text: Seq<char>, kind: Strip, from: int, to: int, found: int)
    requires
        from <= found <= to,
        forall|i: int| found <= i < to ==> is_stripped(kind, text[i]),
        found > from ==> !is_stripped(kind, text[found - 1]),
    ensures
        strip_end(text, kind, from, to) == found,
    decreases to - found,
{
    if found < to {
        lemma_strip_end(text, kind, from, to - 1, found);
    }
}

/// The decimal text of an integer is not empty and holds digits and at most a
/// minus sign: no white space and no line feed.
pub proof fn lemma_decimal_text_is_plain(n: int)
    ensures
        decimal_text(n).len() > 0,
        forall|i: int|
            0 <= i < decimal_text(n).len() ==> !is_space(#[trigger] decimal_text(n)[i])
                && decimal_text(n)[i] != '\n' && decimal_text(n)[i] != '"',
{
    reveal_strlit("-");
    let text = decimal_text(n);
    if n < 0 {
        let digits = decimal_digits((-n) as nat);
        lemma_decimal_digits((-n) as nat);
        assert forall|i: int| 0 <= i < text.len() implies !is_space(#[trigger] text[i]) && text[i]
            != '\n' && text[i] != '"' by {
            if i > 0 {
                assert(text[i] == digits[i - 1]);
                assert(is_digit(digits[i - 1]));
            }
        }
    } else {
        lemma_decimal_digits(n as nat);
        assert forall|i: int| 0 <= i < text.len() implies !is_space(#[trigger] text[i]) && text[i]
            != '\n' && text[i] != '"' by {
            assert(is_digit(text[i]));
        }
    }
}

} // verus!
