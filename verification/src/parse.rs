//! Reading a line of input as a guess.
//!
//! A line is a number if, once the white space around it is removed, it is a
//! non-empty run of the digits `0` to `9`, with at most one `+` in front, whose
//! decimal value fits in a `u32`.

use crate::error::GameError;
use vstd::prelude::*;

verus! {

/// The characters that count as white space: those with the Unicode property
/// `White_Space`.
pub open spec fn is_whitespace(c: char) -> bool {
    let n = c as int;
    ||| 0x09 <= n <= 0x0D
    ||| n == 0x20
    ||| n == 0x85
    ||| n == 0xA0
    ||| n == 0x1680
    ||| 0x2000 <= n <= 0x200A
    ||| n == 0x2028
    ||| n == 0x2029
    ||| n == 0x202F
    ||| n == 0x205F
    ||| n == 0x3000
}

/// The decimal digits `0` to `9`.
pub open spec fn is_digit(c: char) -> bool {
    '0' <= c <= '9'
}

/// The value of a decimal digit.
pub open spec fn digit_value(c: char) -> int {
    c as int - '0' as int
}

/// `s` without the white space at its start.
pub open spec fn trim_start(s: Seq<char>) -> Seq<char>
    decreases s.len(),
{
    if s.len() > 0 && is_whitespace(s[0]) {
        trim_start(s.skip(1))
    } else {
        s
    }
}

/// `s` without the white space at its end.
pub open spec fn trim_end(s: Seq<char>) -> Seq<char>
    decreases s.len(),
{
    if s.len() > 0 && is_whitespace(s.last()) {
        trim_end(s.drop_last())
    } else {
        s
    }
}

/// `s` without the white space around it.
pub open spec fn trimmed(s: Seq<char>) -> Seq<char> {
    trim_end(trim_start(s))
}

/// Whether `s` holds decimal digits only.
pub open spec fn all_digits(s: Seq<char>) -> bool {
    forall|i: int| 0 <= i < s.len() ==> is_digit(#[trigger] s[i])
}

/// The number that the digits of `s` denote in base ten; leading zeros count
/// for nothing.
pub open spec fn decimal_value(s: Seq<char>) -> int
    decreases s.len(),
{
    if s.len() == 0 {
        0
    } else {
        10 * decimal_value(s.drop_last()) + digit_value(s.last())
    }
}

/// `s` without a plus sign in front, if it has one.
pub open spec fn without_sign(s: Seq<char>) -> Seq<char> {
    if s.len() > 0 && s[0] == '+' {
        s.skip(1)
    } else {
        s
    }
}

/// The number that a line of text denotes, if it denotes one.
pub open spec fn parsed_number(text: Seq<char>) -> Option<u32> {
    let digits = without_sign(trimmed(text));
    if digits.len() > 0 && all_digits(digits) && decimal_value(digits) <= u32::MAX {
        Some(decimal_value(digits) as u32)
    } else {
        None
    }
}

/// The value of a run of digits is not negative.
pub proof fn lemma_decimal_value_nonnegative(s: Seq<char>)
    requires
        all_digits(s),
    ensures
        decimal_value(s) >= 0,
    decreases s.len(),
{
    if s.len() > 0 {
        assert(is_digit(s[s.len() - 1]));
        lemma_decimal_value_nonnegative(s.drop_last());
    }
}

/// A run of digits is worth at least as much as each of its prefixes.
pub proof fn lemma_decimal_value_grows(s: Seq<char>, k: int)
    requires
        all_digits(s),
        0 <= k <= s.len(),
    ensures
        decimal_value(s.take(k)) <= decimal_value(s),
    decreases s.len(),
{
    if k == s.len() {
        assert(s.take(k) =~= s);
    } else {
        assert(is_digit(s[s.len() - 1]));
        assert(s.take(k) =~= s.drop_last().take(k));
        lemma_decimal_value_grows(s.drop_last(), k);
        lemma_decimal_value_nonnegative(s.drop_last());
    }
}

/// White space in front of a text does not change what is left after
/// trimming.
pub proof fn lemma_trimmed_ignores_leading_blank(s: Seq<char>, c: char)
    requires
        is_whitespace(c),
    ensures
        trimmed(seq![c] + s) == trimmed(s),
{
    assert((seq![c] + s).skip(1) =~= s);
}

/// White space behind a text does not change what is left after trimming.
pub proof fn lemma_trimmed_ignores_trailing_blank(s: Seq<char>, c: char)
    requires
        is_whitespace(c),
    ensures
        trimmed(s.push(c)) == trimmed(s),
    decreases s.len(),
{
    if s.len() == 0 {
        assert(s.push(c).skip(1) =~= s);
    } else if is_whitespace(s[0]) {
        assert(s.push(c).skip(1) =~= s.skip(1).push(c));
        lemma_trimmed_ignores_trailing_blank(s.skip(1), c);
    } else {
        assert(s.push(c).drop_last() =~= s);
    }
}

/// White space around a line does not change the number that it denotes.
pub proof fn lemma_blank_ends_do_not_matter(s: Seq<char>, c: char)
    requires
        is_whitespace(c),
    ensures
        parsed_number(seq![c] + s) == parsed_number(s),
        parsed_number(s.push(c)) == parsed_number(s),
{
    lemma_trimmed_ignores_leading_blank(s, c);
    lemma_trimmed_ignores_trailing_blank(s, c);
}

/// A run of digits whose value fits in a `u32` denotes that value.
pub proof fn lemma_digits_denote_their_value(s: Seq<char>)
    requires
        s.len() > 0,
        all_digits(s),
        decimal_value(s) <= u32::MAX,
    ensures
        parsed_number(s) == Some(decimal_value(s) as u32),
{
    assert(is_digit(s[0]));
    assert(is_digit(s[s.len() - 1]));
}

/// Text that holds anything but digits, a plus sign in front and white space
/// around them denotes no number.
pub proof fn lemma_other_characters_denote_nothing(s: Seq<char>, i: int)
    requires
        0 <= i < s.len(),
        !is_digit(s[i]),
        !is_whitespace(s[i]),
        s[i] != '+',
    ensures
        parsed_number(s) is None,
{
    lemma_trim_start_keeps(s, i);
    let front = trim_start(s);
    let j = choose|j: int| 0 <= j < front.len() && front[j] == s[i];
    lemma_trim_end_keeps(front, j);
    let core = trimmed(s);
    let k = choose|k: int| 0 <= k < core.len() && core[k] == front[j];
    if core[0] == '+' {
        assert(without_sign(core)[k - 1] == core[k]);
    }
}

/// Trimming the start keeps every character that is no white space.
proof fn lemma_trim_start_keeps(s: Seq<char>, i: int)
    requires
        0 <= i < s.len(),
        !is_whitespace(s[i]),
    ensures
        exists|j: int| 0 <= j < trim_start(s).len() && trim_start(s)[j] == s[i],
    decreases s.len(),
{
    if is_whitespace(s[0]) {
        lemma_trim_start_keeps(s.skip(1), i - 1);
        let j = choose|j: int|
            0 <= j < trim_start(s.skip(1)).len() && trim_start(s.skip(1))[j] == s.skip(1)[i - 1];
        assert(trim_start(s)[j] == s[i]);
    } else {
        assert(trim_start(s)[i] == s[i]);
    }
}

/// Trimming the end keeps every character that is no white space.
proof fn lemma_trim_end_keeps(s: Seq<char>, i: int)
    requires
        0 <= i < s.len(),
        !is_whitespace(s[i]),
    ensures
        exists|j: int| 0 <= j < trim_end(s).len() && trim_end(s)[j] == s[i],
    decreases s.len(),
{
    if is_whitespace(s.last()) {
        lemma_trim_end_keeps(s.drop_last(), i);
        let j = choose|j: int|
            0 <= j < trim_end(s.drop_last()).len() && trim_end(s.drop_last())[j]
                == s.drop_last()[i];
        assert(trim_end(s)[j] == s[i]);
    } else {
        assert(trim_end(s)[i] == s[i]);
    }
}

/// Whether `c` is white space.
pub fn is_blank(c: char) -> (b: bool)
    ensures
        b == is_whitespace(c),
{
    let n: u32 = c as u32;
    (0x09 <= n && n <= 0x0D) || n == 0x20 || n == 0x85 || n == 0xA0 || n == 0x1680 || (0x2000 <= n
        && n <= 0x200A) || n == 0x2028 || n == 0x2029 || n == 0x202F || n == 0x205F || n == 0x3000
}

/// The characters of `text`, in order.
pub fn chars_of(text: &str) -> (chars: Vec<char>)
    ensures
        chars@ == text@,
{
    broadcast use vstd::string::group_string_axioms;

    let mut chars: Vec<char> = Vec::new();
    for c in it: text.chars()
        invariant
            it.seq() == text@,
            chars@ == text@.take(it.index()),
    {
        chars.push(c);
        assert(chars@ =~= text@.take(it.index() + 1));
    }
    assert(chars@ =~= text@);
    chars
}

/// Where the text starts and ends once the white space around it is left out:
/// from the first character that is no white space to the last, or nothing at
/// the very end of the text if there is none.
pub fn trim_bounds(chars: &Vec<char>) -> (bounds: (usize, usize))
    ensures
        bounds.0 <= bounds.1 <= chars.len(),
        chars@.subrange(bounds.0 as int, bounds.1 as int) == trimmed(chars@),
        forall|i: int| 0 <= i < bounds.0 ==> is_whitespace(#[trigger] chars[i]),
        forall|i: int| bounds.1 <= i < chars.len() ==> is_whitespace(#[trigger] chars[i]),
        bounds.0 < bounds.1 ==> !is_whitespace(chars[bounds.0 as int]) && !is_whitespace(
            chars[bounds.1 - 1],
        ),
{
    let n: usize = chars.len();
    let mut start: usize = 0;
    assert(chars@.skip(0) =~= chars@);
    while start < n && is_blank(chars[start])
        invariant
            n == chars.len(),
            start <= n,
            trim_start(chars@) == trim_start(chars@.skip(start as int)),
            forall|i: int| 0 <= i < start ==> is_whitespace(#[trigger] chars[i]),
        decreases n - start,
    {
        assert(chars@.skip(start as int).skip(1) =~= chars@.skip(start as int + 1));
        start += 1;
    }
    let ghost rest = chars@.skip(start as int);
    assert(trim_start(chars@) == rest);
    let mut end: usize = n;
    assert(rest =~= chars@.subrange(start as int, end as int));
    while end > start && is_blank(chars[end - 1])
        invariant
            n == chars.len(),
            start <= end <= n,
            trim_end(rest) == trim_end(chars@.subrange(start as int, end as int)),
            forall|i: int| end <= i < n ==> is_whitespace(#[trigger] chars[i]),
        decreases end - start,
    {
        assert(chars@.subrange(start as int, end as int).drop_last() =~= chars@.subrange(
            start as int,
            end as int - 1,
        ));
        end -= 1;
    }
    (start, end)
}

/// Reads the digits of `chars` between `from` and `to` as a decimal number.
pub fn parse_digits(chars: &Vec<char>, from: usize, to: usize) -> (value: Option<u32>)
    requires
        from <= to <= chars.len(),
    ensures
        ({
            let digits = chars@.subrange(from as int, to as int);
            value == if digits.len() > 0 && all_digits(digits) && decimal_value(digits)
                <= u32::MAX {
                Some(decimal_value(digits) as u32)
            } else {
                None
            }
        }),
{
    let ghost digits = chars@.subrange(from as int, to as int);
    if from == to {
        return None;
    }
    let mut value: u64 = 0;
    let mut i: usize = from;
    while i < to
        invariant
            from <= i <= to <= chars.len(),
            digits == chars@.subrange(from as int, to as int),
            all_digits(digits.take(i - from)),
            value == decimal_value(digits.take(i - from)),
            value <= u32::MAX,
        decreases to - i,
    {
        let c: char = chars[i];
        let ghost seen = digits.take(i - from + 1);
        assert(seen.drop_last() =~= digits.take(i - from));
        assert(seen.last() == c);
        if !(c >= '0' && c <= '9') {
            assert(!is_digit(digits[i - from]));
            return None;
        }
        value = value * 10 + (c as u64 - '0' as u64);
        assert(value == decimal_value(seen));
        assert(all_digits(seen)) by {
            assert forall|j: int| 0 <= j < seen.len() implies is_digit(#[trigger] seen[j]) by {
                if j < seen.len() - 1 {
                    assert(seen[j] == digits.take(i - from)[j]);
                }
            }
        }
        if value > 0xFFFF_FFFF {
            proof {
                if all_digits(digits) {
                    lemma_decimal_value_grows(digits, i - from + 1);
                }
            }
            return None;
        }
        i += 1;
    }
    assert(digits.take(i - from) =~= digits);
    Some(value as u32)
}

/// Reads a line of text as an unsigned number.
pub fn parse_unsigned(text: &str) -> (number: Option<u32>)
    ensures
        number == parsed_number(text@),
{
    let chars = chars_of(text);
    let (start, end) = trim_bounds(&chars);
    let ghost core = trimmed(text@);
    if start < end && chars[start] == '+' {
        assert(core.skip(1) =~= chars@.subrange(start as int + 1, end as int));
        parse_digits(&chars, start + 1, end)
    } else {
        parse_digits(&chars, start, end)
    }
}

/// Reads a line of text as a guess. Text that is no number is a parse error.
pub fn parse_guess(line: &str) -> (guess: Result<u32, GameError>)
    ensures
        match parsed_number(line@) {
            Some(n) => guess == Ok::<u32, GameError>(n),
            None => guess == Err::<u32, GameError>(GameError::Parse),
        },
{
    match parse_unsigned(line) {
        Some(n) => Ok(n),
        None => Err(GameError::Parse),
    }
}

} // verus!
