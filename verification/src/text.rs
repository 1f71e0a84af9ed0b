//! Reading what was typed: white space, a line without the white space
//! around it, and a number in decimal digits.

use vstd::prelude::*;
use vstd::string::*;

verus! {

/// Whether `c` is white space: a character that Unicode marks
/// `White_Space`.
pub open spec fn is_whitespace(c: char) -> bool {
    let n = c as u32;
    ||| 0x09 <= n <= 0x0D
    ||| n == 0x20
    ||| n == 0x85
    ||| n == 0xA0
    ||| n == 0x1680
    ||| 0x2000 <= n <= 0x200A
    ||| n == 0x2028
    ||| n == 0x2029
    ||| n == 0x202F
    ||| n == 0x205F
    ||| n == 0x3000
}

/// Whether a name is blank: empty, or white space throughout.
pub open spec fn is_blank(name: Seq<char>) -> bool {
    forall|i: int| 0 <= i < name.len() ==> is_whitespace(#[trigger] name[i])
}

/// Tells whether `c` is white space.
pub fn char_is_whitespace(c: char) -> (r: bool)
    ensures
        r == is_whitespace(c),
{
    let n: u32 = c as u32;
    (0x09 <= n && n <= 0x0D) || n == 0x20 || n == 0x85 || n == 0xA0 || n == 0x1680 || (0x2000 <= n
        && n <= 0x200A) || n == 0x2028 || n == 0x2029 || n == 0x202F || n == 0x205F || n == 0x3000
}

/// Tells whether a name is blank.
pub fn name_is_blank(name: &str) -> (r: bool)
    ensures
        r == is_blank(name@),
{
    for c in it: name.chars()
        invariant
            it.seq() == name@,
            forall|i: int| 0 <= i < it.index() ==> is_whitespace(#[trigger] name@[i]),
    {
        if !char_is_whitespace(c) {
            return false;
        }
    }
    true
}

/// A text without the white space at its start.
pub open spec fn trim_start(s: Seq<char>) -> Seq<char>
    decreases s.len(),
{
    if s.len() > 0 && is_whitespace(s.first()) {
        trim_start(s.drop_first())
    } else {
        s
    }
}

/// A text without the white space at its end.
pub open spec fn trim_end(s: Seq<char>) -> Seq<char>
    decreases s.len(),
{
    if s.len() > 0 && is_whitespace(s.last()) {
        trim_end(s.drop_last())
    } else {
        s
    }
}

/// A text without the white space at its start and at its end.
pub open spec fn trimmed(s: Seq<char>) -> Seq<char> {
    trim_end(trim_start(s))
}

/// Whether `c` is one of the digits `0` to `9`.
pub open spec fn is_digit(c: char) -> bool {
    '0' as u32 <= c as u32 <= '9' as u32
}

/// The number that digits write in base ten.
pub open spec fn decimal(digits: Seq<char>) -> nat
    decreases digits.len(),
{
    if digits.len() == 0 {
        0
    } else {
        (decimal(digits.drop_last()) * 10 + (digits.last() as u32 - '0' as u32)) as nat
    }
}

/// The digits of a text that may begin with a `+`.
pub open spec fn digits_of(s: Seq<char>) -> Seq<char> {
    if s.len() > 0 && s[0] == '+' {
        s.drop_first()
    } else {
        s
    }
}

/// The number that a text writes: one digit or more, after a `+` or after
/// nothing, for a number that fits 64 bits. Any other text writes none.
pub open spec fn parsed_number(s: Seq<char>) -> Option<u64> {
    let digits = digits_of(s);
    if digits.len() > 0 && (forall|i: int| 0 <= i < digits.len() ==> is_digit(#[trigger] digits[i]))
        && decimal(digits) <= u64::MAX {
        Some(decimal(digits) as u64)
    } else {
        None
    }
}

/// The text from place `k` on is what is left without the white space at the
/// start, where `k` is the place of the first character that is none.
proof fn lemma_trim_start(s: Seq<char>, k: int)
    requires
        0 <= k <= s.len(),
        forall|i: int| 0 <= i < k ==> is_whitespace(#[trigger] s[i]),
        k == s.len() || !is_whitespace(s[k]),
    ensures
        trim_start(s) == s.subrange(k, s.len() as int),
    decreases k,
{
    if k == 0 {
        assert(s.subrange(0, s.len() as int) =~= s);
    } else {
        let rest = s.drop_first();
        assert forall|i: int| 0 <= i < k - 1 implies is_whitespace(#[trigger] rest[i]) by {
            assert(rest[i] == s[i + 1]);
        }
        lemma_trim_start(rest, k - 1);
        assert(rest.subrange(k - 1, rest.len() as int) =~= s.subrange(k, s.len() as int));
    }
}

/// The text up to place `k` is what is left without the white space at the
/// end, where `k` is the place after the last character that is none.
proof fn lemma_trim_end(s: Seq<char>, k: int)
    requires
        0 <= k <= s.len(),
        forall|i: int| k <= i < s.len() ==> is_whitespace(#[trigger] s[i]),
        k == 0 || !is_whitespace(s[k - 1]),
    ensures
        trim_end(s) == s.subrange(0, k),
    decreases s.len() - k,
{
    if k == s.len() {
        assert(s.subrange(0, k) =~= s);
    } else {
        let rest = s.drop_last();
        lemma_trim_end(rest, k);
        assert(rest.subrange(0, k) =~= s.subrange(0, k));
    }
}

/// How many characters of white space a text begins with.
pub open spec fn leading(s: Seq<char>) -> nat
    decreases s.len(),
{
    if s.len() > 0 && is_whitespace(s.first()) {
        1 + leading(s.drop_first())
    } else {
        0
    }
}

/// How many characters of white space a text ends with.
pub open spec fn trailing(s: Seq<char>) -> nat
    decreases s.len(),
{
    if s.len() > 0 && is_whitespace(s.last()) {
        1 + trailing(s.drop_last())
    } else {
        0
    }
}

/// The white space at the start of a text ends before its first character
/// that is none.
proof fn lemma_leading(s: Seq<char>)
    ensures
        leading(s) <= s.len(),
        forall|i: int| 0 <= i < leading(s) ==> is_whitespace(#[trigger] s[i]),
        leading(s) == s.len() || !is_whitespace(s[leading(s) as int]),
    decreases s.len(),
{
    if s.len() > 0 && is_whitespace(s.first()) {
        let rest = s.drop_first();
        lemma_leading(rest);
        assert forall|i: int| 0 <= i < leading(s) implies is_whitespace(#[trigger] s[i]) by {
            if i > 0 {
                assert(s[i] == rest[i - 1]);
            }
        }
        if leading(s) < s.len() {
            assert(s[leading(s) as int] == rest[leading(rest) as int]);
        }
    }
}

/// The white space at the end of a text begins after its last character that
/// is none.
proof fn lemma_trailing(s: Seq<char>)
    ensures
        trailing(s) <= s.len(),
        forall|i: int| s.len() - trailing(s) <= i < s.len() ==> is_whitespace(#[trigger] s[i]),
        trailing(s) == s.len() || !is_whitespace(s[s.len() - trailing(s) - 1]),
    decreases s.len(),
{
    if s.len() > 0 && is_whitespace(s.last()) {
        let rest = s.drop_last();
        lemma_trailing(rest);
        assert forall|i: int| s.len() - trailing(s) <= i < s.len() implies is_whitespace(
            #[trigger] s[i],
        ) by {
            if i < s.len() - 1 {
                assert(s[i] == rest[i]);
            }
        }
        if trailing(s) < s.len() {
            assert(s[s.len() - trailing(s) - 1] == rest[rest.len() - trailing(rest) - 1]);
        }
    }
}

/// What is left of a text without the white space around it: the part from
/// its first character that is none to its last. A blank text leaves
/// nothing, and no other text does; what is left neither begins nor ends with
/// white space.
pub proof fn lemma_trimmed(s: Seq<char>)
    ensures
        is_blank(s) <==> trimmed(s).len() == 0,
        is_blank(s) <==> is_blank(trimmed(s)),
        trimmed(s).len() > 0 ==> !is_whitespace(trimmed(s).first()) && !is_whitespace(
            trimmed(s).last(),
        ),
        exists|from: int, to: int|
            0 <= from <= to <= s.len() && trimmed(s) == #[trigger] s.subrange(from, to),
{
    lemma_leading(s);
    let from = leading(s) as int;
    lemma_trim_start(s, from);
    let tail = s.subrange(from, s.len() as int);
    lemma_trailing(tail);
    let kept = tail.len() - trailing(tail);
    lemma_trim_end(tail, kept);
    assert(tail.subrange(0, kept) =~= s.subrange(from, from + kept));
    if from < s.len() {
        assert(tail[0] == s[from]);
        assert(!is_whitespace(tail[0]));
        assert(kept > 0);
        assert(trimmed(s).first() == s[from]);
        assert(trimmed(s).last() == tail[kept - 1]);
    }
}

/// A number does not get smaller by a further digit.
proof fn lemma_decimal_grows(digits: Seq<char>, n: int)
    requires
        0 <= n <= digits.len(),
        forall|i: int| 0 <= i < digits.len() ==> is_digit(#[trigger] digits[i]),
    ensures
        decimal(digits.take(n)) <= decimal(digits),
    decreases digits.len() - n,
{
    if n == digits.len() {
        assert(digits.take(n) =~= digits);
    } else {
        let front = digits.drop_last();
        assert(front.take(n) =~= digits.take(n));
        lemma_decimal_grows(front, n);
    }
}

/// The characters of a text.
pub fn chars_of(text: &str) -> (r: Vec<char>)
    ensures
        r@ == text@,
{
    let mut chars: Vec<char> = Vec::new();
    for c in it: text.chars()
        invariant
            it.seq() == text@,
            chars@ == text@.take(it.index() as int),
    {
        chars.push(c);
        assert(chars@ =~= text@.take(it.index() + 1));
    }
    assert(text@.take(text@.len() as int) =~= text@);
    chars
}

/// The line without the white space at its start and at its end.
pub fn trim(line: &str) -> (r: &str)
    ensures
        r@ == trimmed(line@),
{
    let chars = chars_of(line);
    let mut from: usize = 0;
    while from < chars.len() && char_is_whitespace(chars[from])
        invariant
            from <= chars.len(),
            forall|i: int| 0 <= i < from ==> is_whitespace(#[trigger] chars@[i]),
        decreases chars.len() - from,
    {
        from += 1;
    }
    let mut to: usize = chars.len();
    while to > from && char_is_whitespace(chars[to - 1])
        invariant
            from <= to <= chars.len(),
            forall|i: int| to <= i < chars.len() ==> is_whitespace(#[trigger] chars@[i]),
        decreases to,
    {
        to -= 1;
    }
    proof {
        let s = line@;
        lemma_trim_start(s, from as int);
        let tail = s.subrange(from as int, s.len() as int);
        lemma_trim_end(tail, to - from);
        assert(tail.subrange(0, to - from) =~= s.subrange(from as int, to as int));
    }
    line.substring_char(from, to)
}

/// Reads a number from a text, as `parsed_number` says.
pub fn parse_number(text: &str) -> (r: Option<u64>)
    ensures
        r == parsed_number(text@),
{
    let chars = chars_of(text);
    let start: usize = if chars.len() > 0 && chars[0] == '+' {
        1
    } else {
        0
    };
    let ghost digits = digits_of(text@);
    if start == chars.len() {
        return None;
    }
    let mut value: u64 = 0;
    let mut i: usize = start;
    assert(digits.take(0) =~= Seq::empty());
    while i < chars.len()
        invariant
            start <= i <= chars.len(),
            digits == digits_of(text@),
            digits.len() == chars.len() - start,
            forall|j: int| 0 <= j < digits.len() ==> digits[j] == chars@[j + start],
            forall|j: int| 0 <= j < i - start ==> is_digit(#[trigger] digits[j]),
            value == decimal(digits.take(i - start)),
        decreases chars.len() - i,
    {
        let c = chars[i];
        let n: u32 = c as u32;
        if n < 0x30 || n > 0x39 {
            assert(!is_digit(digits[i - start]));
            return None;
        }
        let d: u64 = (n - 0x30) as u64;
        assert(digits[i - start] == c);
        let ghost front = digits.take(i - start + 1);
        assert(front.drop_last() =~= digits.take(i - start));
        assert(front.last() == c);
        let next = match value.checked_mul(10) {
            Some(tens) => tens.checked_add(d),
            None => None,
        };
        match next {
            Some(v) => {
                value = v;
            },
            None => {
                assert(decimal(front) > u64::MAX);
                proof {
                    if forall|j: int| 0 <= j < digits.len() ==> is_digit(#[trigger] digits[j]) {
                        lemma_decimal_grows(digits, i - start + 1);
                    }
                }
                return None;
            },
        }
        i += 1;
    }
    assert(digits.take(i - start) =~= digits);
    Some(value)
}

} // verus!
