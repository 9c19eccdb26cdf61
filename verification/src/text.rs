//! Text helpers: the few string operations that the router needs, each with
//! its meaning stated over the characters of the text.

use vstd::prelude::*;
use vstd::string::{StrSliceExecFns, StringExecFns};

verus! {

/// `text` begins with `prefix`.
pub open spec fn begins_with(text: Seq<char>, prefix: Seq<char>) -> bool {
    prefix.is_prefix_of(text)
}

/// `needle` stands somewhere inside `text`.
pub open spec fn holds_text(text: Seq<char>, needle: Seq<char>) -> bool {
    exists|at: int| #[trigger] stands_at(text, needle, at)
}

/// `needle` stands inside `text` from position `at` on.
pub open spec fn stands_at(text: Seq<char>, needle: Seq<char>, at: int) -> bool {
    &&& 0 <= at <= text.len() - needle.len()
    &&& text.subrange(at, at + needle.len()) == needle
}

/// The part of `text` before its first `mark`, or all of it when there is none.
pub open spec fn before_mark(text: Seq<char>, mark: char) -> Seq<char> {
    match text.index_of_first(mark) {
        Some(at) => text.take(at),
        None => text,
    }
}

/// The characters of `s`, in order.
pub fn chars_of(s: &str) -> (chars: Vec<char>)
    ensures
        chars@ == s@,
{
    let mut chars: Vec<char> = Vec::new();
    for c in iter: s.chars()
        invariant
            iter.seq() == s@,
            chars@ == s@.take(iter.index()),
    {
        chars.push(c);
        assert(chars@ == s@.take(iter.index() + 1));
    }
    chars
}

/// Whether two texts hold the same characters.
pub fn text_eq(a: &str, b: &str) -> (same: bool)
    ensures
        same == (a@ == b@),
{
    a.to_owned() == b.to_owned()
}

/// Whether `needle` stands inside `text` from position `at` on.
fn found_at(text: &Vec<char>, needle: &Vec<char>, at: usize) -> (found: bool)
    requires
        at + needle@.len() <= text.len(),
    ensures
        found == stands_at(text@, needle@, at as int),
{
    let mut i: usize = 0;
    while i < needle.len()
        invariant
            i <= needle@.len(),
            at + needle@.len() <= text.len(),
            forall|j: int| 0 <= j < i ==> text@[at + j] == #[trigger] needle@[j],
        decreases needle@.len() - i,
    {
        if text[at + i] != needle[i] {
            assert(text@.subrange(at as int, at + needle@.len())[i as int] != needle@[i as int]);
            return false;
        }
        i += 1;
    }
    assert(text@.subrange(at as int, at + needle@.len()) =~= needle@);
    true
}

/// Whether `text` begins with `prefix`.
pub fn has_prefix(text: &str, prefix: &str) -> (found: bool)
    ensures
        found == begins_with(text@, prefix@),
{
    let whole = chars_of(text);
    let head = chars_of(prefix);
    if whole.len() < head.len() {
        return false;
    }
    found_at(&whole, &head, 0)
}

/// Whether `needle` stands somewhere inside `text`.
pub fn has_text(text: &str, needle: &str) -> (found: bool)
    ensures
        found == holds_text(text@, needle@),
{
    let whole = chars_of(text);
    let wanted = chars_of(needle);
    if whole.len() < wanted.len() {
        return false;
    }
    let last: usize = whole.len() - wanted.len();
    let mut at: usize = 0;
    while at <= last
        invariant
            at <= last + 1,
            last == whole@.len() - wanted@.len(),
            whole@ == text@,
            wanted@ == needle@,
            forall|k: int| 0 <= k < at ==> !#[trigger] stands_at(text@, needle@, k),
        decreases last + 1 - at,
    {
        if found_at(&whole, &wanted, at) {
            return true;
        }
        if at == last {
            return false;
        }
        at += 1;
    }
    false
}

/// The part of `text` before its first `mark`, or all of it when there is none.
pub fn cut_at(text: &str, mark: char) -> (head: &str)
    ensures
        head@ == before_mark(text@, mark),
{
    let whole = chars_of(text);
    proof {
        text@.index_of_first_ensures(mark);
    }
    let mut at: usize = 0;
    while at < whole.len()
        invariant
            at <= whole@.len(),
            whole@ == text@,
            forall|k: int| 0 <= k < at ==> text@[k] != mark,
        decreases whole@.len() - at,
    {
        if whole[at] == mark {
            let head = text.substring_char(0, at);
            proof {
                text@.index_of_first_ensures(mark);
                assert(head@ =~= text@.take(at as int));
            }
            return head;
        }
        at += 1;
    }
    proof {
        text@.index_of_first_ensures(mark);
    }
    text
}

/// `a` followed by `b`.
pub fn join(a: &str, b: &str) -> (joined: String)
    ensures
        joined@ == a@ + b@,
{
    a.to_owned().concat(b)
}

/// The character of a decimal digit.
pub open spec fn digit_char(d: nat) -> char {
    (('0' as u32 as nat + d) as u32) as char
}

/// `n` written in decimal, without leading zeros.
pub open spec fn decimal(n: nat) -> Seq<char>
    decreases n,
{
    if n < 10 {
        seq![digit_char(n)]
    } else {
        decimal(n / 10).push(digit_char(n % 10))
    }
}

/// One decimal digit as text.
fn digit_text(d: u64) -> (text: &'static str)
    requires
        d < 10,
    ensures
        text@ == seq![digit_char(d as nat)],
{
    proof {
        reveal_strlit("0");
        reveal_strlit("1");
        reveal_strlit("2");
        reveal_strlit("3");
        reveal_strlit("4");
        reveal_strlit("5");
        reveal_strlit("6");
        reveal_strlit("7");
        reveal_strlit("8");
        reveal_strlit("9");
    }
    let text = match d {
        0 => "0",
        1 => "1",
        2 => "2",
        3 => "3",
        4 => "4",
        5 => "5",
        6 => "6",
        7 => "7",
        8 => "8",
        _ => "9",
    };
    assert(text@ =~= seq![digit_char(d as nat)]);
    text
}

/// Write `n` in decimal.
pub fn to_decimal(n: u64) -> (text: String)
    ensures
        text@ == decimal(n as nat),
    decreases n,
{
    if n < 10 {
        digit_text(n).to_owned()
    } else {
        let head = to_decimal(n / 10);
        let tail = digit_text(n % 10);
        let text = head.concat(tail);
        assert(text@ =~= decimal(n as nat));
        text
    }
}

/// A decimal digit.
pub open spec fn is_digit(c: char) -> bool {
    '0' <= c <= '9'
}

/// The number that a sequence of decimal digits writes.
pub open spec fn digits_value(digits: Seq<char>) -> nat
    decreases digits.len(),
{
    if digits.len() == 0 {
        0
    } else {
        10 * digits_value(digits.drop_last()) + (digits.last() as nat - '0' as nat) as nat
    }
}

/// A number's text without the plus sign it may start with.
pub open spec fn without_plus(text: Seq<char>) -> Seq<char> {
    if text.len() > 0 && text[0] == '+' {
        text.skip(1)
    } else {
        text
    }
}

/// The number that a text writes: an optional plus sign, then decimal digits
/// only, at least one of them, for a value that 64 bits hold.
pub open spec fn written_u64(text: Seq<char>) -> Option<u64> {
    let digits = without_plus(text);
    if digits.len() > 0 && (forall|i: int| 0 <= i < digits.len() ==> is_digit(#[trigger] digits[i]))
        && digits_value(digits) <= u64::MAX {
        Some(digits_value(digits) as u64)
    } else {
        None
    }
}

/// More digits never write a smaller number.
proof fn digits_value_grows(digits: Seq<char>, n: int)
    requires
        0 <= n <= digits.len(),
    ensures
        digits_value(digits.take(n)) <= digits_value(digits),
    decreases digits.len(),
{
    if n == digits.len() {
        assert(digits.take(n) =~= digits);
    } else {
        digits_value_grows(digits.drop_last(), n);
        assert(digits.drop_last().take(n) =~= digits.take(n));
    }
}

/// Why a text writes no number.
#[derive(Debug, Clone, Copy, PartialEq, Eq, Structural)]
pub enum NumberFault {
    /// There is no text.
    Empty,
    /// There is something other than a digit, or no digit.
    InvalidDigit,
    /// The number does not fit 64 bits.
    TooLarge,
}

impl NumberFault {
    /// The fault in words.
    pub open spec fn label(self) -> Seq<char> {
        match self {
            NumberFault::Empty => "cannot parse integer from empty string"@,
            NumberFault::InvalidDigit => "invalid digit found in string"@,
            NumberFault::TooLarge => "number too large to fit in target type"@,
        }
    }

    /// The fault in words.
    pub fn as_str(self) -> (label: &'static str)
        ensures
            label@ == self.label(),
    {
        match self {
            NumberFault::Empty => "cannot parse integer from empty string",
            NumberFault::InvalidDigit => "invalid digit found in string",
            NumberFault::TooLarge => "number too large to fit in target type",
        }
    }
}

/// The first `n` characters are digits and write a number that does not fit 64
/// bits.
pub open spec fn too_large_at(chars: Seq<char>, n: int) -> bool {
    &&& 0 <= n <= chars.len()
    &&& forall|i: int| 0 <= i < n ==> is_digit(#[trigger] chars[i])
    &&& digits_value(chars.take(n)) > u64::MAX
}

/// Why a text that writes no number does not: reading from the left, its number
/// gets too large before anything but a digit comes, or it does not.
pub open spec fn number_fault(text: Seq<char>) -> NumberFault {
    if text.len() == 0 {
        NumberFault::Empty
    } else if exists|n: int| too_large_at(without_plus(text), n) {
        NumberFault::TooLarge
    } else {
        NumberFault::InvalidDigit
    }
}

/// A number that fits where something other than a digit comes, or the text
/// ends, is not too large before.
proof fn fits_so_far(chars: Seq<char>, at: int)
    requires
        0 <= at <= chars.len(),
        at < chars.len() ==> !is_digit(chars[at]),
        digits_value(chars.take(at)) <= u64::MAX,
    ensures
        forall|n: int| !too_large_at(chars, n),
{
    assert forall|n: int| !too_large_at(chars, n) by {
        if too_large_at(chars, n) {
            if n <= at {
                digits_value_grows(chars.take(at), n);
                assert(chars.take(at).take(n) =~= chars.take(n));
            } else {
                assert(is_digit(chars[at]));
            }
        }
    }
}

/// Read a number.
///
/// # Errors
///
/// Returns what is wrong with a text that writes no number of 64 bits.
pub fn parse_number(text: &str) -> (number: Result<u64, NumberFault>)
    ensures
        match number {
            Ok(n) => written_u64(text@) == Some(n),
            Err(fault) => written_u64(text@) is None && fault == number_fault(text@),
        },
{
    let chars = chars_of(text);
    if chars.len() == 0 {
        return Err(NumberFault::Empty);
    }
    let start: usize = if chars[0] == '+' {
        1
    } else {
        0
    };
    let ghost digits = without_plus(text@);
    if start == chars.len() {
        proof {
            assert(digits.take(0).len() == 0);
            fits_so_far(digits, 0);
        }
        return Err(NumberFault::InvalidDigit);
    }
    let mut value: u64 = 0;
    let mut i: usize = start;
    while i < chars.len()
        invariant
            start <= i <= chars@.len(),
            chars@ == text@,
            chars@.len() > 0,
            start == 0 || start == 1,
            digits == chars@.skip(start as int),
            digits == without_plus(text@),
            value == digits_value(digits.take(i - start)),
            forall|j: int| 0 <= j < i - start ==> is_digit(#[trigger] digits[j]),
        decreases chars@.len() - i,
    {
        let c = chars[i];
        assert(digits[i - start] == c);
        if c < '0' || c > '9' {
            proof {
                fits_so_far(digits, i - start);
            }
            return Err(NumberFault::InvalidDigit);
        }
        let digit: u64 = (c as u64) - ('0' as u64);
        proof {
            let next = digits.take(i - start + 1);
            assert(next.drop_last() =~= digits.take(i - start));
            assert(next.last() == c);
            digits_value_grows(digits, i - start + 1);
        }
        if value > 1844674407370955161 || (value == 1844674407370955161 && digit > 5) {
            assert(too_large_at(digits, i - start + 1));
            return Err(NumberFault::TooLarge);
        }
        value = value * 10 + digit;
        i += 1;
    }
    assert(digits.take(digits.len() as int) =~= digits);
    Ok(value)
}

/// The lower-case form of a character of the ASCII range.
pub open spec fn ascii_lower(c: char) -> char {
    if 'A' <= c <= 'Z' {
        ((c as u32 + 32) as u32) as char
    } else {
        c
    }
}

/// A text of ASCII characters only.
pub open spec fn is_ascii_text(text: Seq<char>) -> bool {
    forall|i: int| 0 <= i < text.len() ==> (#[trigger] text[i] as u32) < 128
}

/// A text with its ASCII letters lowered.
pub open spec fn ascii_lowered(text: Seq<char>) -> Seq<char> {
    text.map_values(|c: char| ascii_lower(c))
}

/// The lower-case form of a text, by Unicode's rules.
pub uninterp spec fn lowercase_of(text: Seq<char>) -> Seq<char>;

/// Calls `str::to_lowercase`. Its result depends on the text alone, and on a
/// text of ASCII characters it lowers the letters and changes nothing else.
#[verifier::external_body]
pub(crate) fn to_lowercase(text: &str) -> (lower: String)
    ensures
        lower@ == lowercase_of(text@),
        is_ascii_text(text@) ==> lower@ == ascii_lowered(text@),
{
    text.to_lowercase()
}

/// A text begins with another exactly when it is that text and something more.
pub proof fn prefixes(text: Seq<char>, prefix: Seq<char>)
    ensures
        begins_with(text, prefix) <==> exists|rest: Seq<char>| text == #[trigger] (prefix + rest),
{
    if begins_with(text, prefix) {
        assert(text =~= prefix + text.skip(prefix.len() as int));
    }
    if exists|rest: Seq<char>| text == #[trigger] (prefix + rest) {
        assert(text.subrange(0, prefix.len() as int) =~= prefix);
    }
}

/// A text stands inside another exactly when that one is something, the text,
/// and something more.
pub proof fn inner_texts(text: Seq<char>, needle: Seq<char>)
    ensures
        holds_text(text, needle) <==> exists|before: Seq<char>, after: Seq<char>|
            text == #[trigger] (before + needle + after),
{
    if holds_text(text, needle) {
        let at = choose|at: int| #[trigger] stands_at(text, needle, at);
        let before = text.take(at);
        let after = text.skip(at + needle.len());
        assert(text =~= before + text.subrange(at, at + needle.len()) + after);
    }
    if exists|before: Seq<char>, after: Seq<char>| text == #[trigger] (before + needle + after) {
        let (before, after) = choose|before: Seq<char>, after: Seq<char>|
            text == #[trigger] (before + needle + after);
        let at = before.len() as int;
        assert(text.subrange(at, at + needle.len()) =~= needle);
        assert(stands_at(text, needle, at));
    }
}

/// What stands before the first mark is what is cut off, whatever follows it; a
/// text without the mark is kept whole.
pub proof fn cut_before_first_mark(head: Seq<char>, mark: char, tail: Seq<char>)
    requires
        !head.contains(mark),
    ensures
        before_mark(head.push(mark) + tail, mark) == head,
        before_mark(head, mark) == head,
{
    let whole = head.push(mark) + tail;
    head.index_of_first_ensures(mark);
    whole.index_of_first_ensures(mark);
    assert(whole[head.len() as int] == mark);
    assert(whole.contains(mark));
    let at = whole.index_of_first(mark)->0;
    if at < head.len() {
        assert(head[at] == mark);
    }
    assert(whole.take(at) =~= head);
}

/// A number written in decimal has digits only, and they write the number.
proof fn decimal_digits(n: nat)
    ensures
        decimal(n).len() > 0,
        forall|i: int| 0 <= i < decimal(n).len() ==> '0' <= #[trigger] decimal(n)[i] <= '9',
        digits_value(decimal(n)) == n,
        n > 0 ==> decimal(n)[0] != '0',
    decreases n,
{
    if n < 10 {
        assert(digits_value(decimal(n).drop_last()) == 0);
        assert(decimal(n).last() == digit_char(n));
        assert(digits_value(decimal(n)) == n);
    } else {
        decimal_digits(n / 10);
        assert(decimal(n).drop_last() =~= decimal(n / 10));
        assert(decimal(n).last() == digit_char(n % 10));
        assert(digits_value(decimal(n)) == 10 * (n / 10) + n % 10);
    }
}

/// A number of 64 bits that is written in decimal is read back, with a plus sign
/// before it or without, and no zero leads it.
pub proof fn written_number_reads_back(n: u64)
    ensures
        written_u64(decimal(n as nat)) == Some(n),
        written_u64(seq!['+'] + decimal(n as nat)) == Some(n),
        n > 0 ==> decimal(n as nat)[0] != '0',
{
    decimal_digits(n as nat);
    let signed = seq!['+'] + decimal(n as nat);
    assert(signed.skip(1) =~= decimal(n as nat));
    assert(decimal(n as nat)[0] != '+');
}

/// The first digit of a number, behind a plus sign or not, writes its value;
/// neither an empty text nor a plus sign alone nor any other character writes a
/// number.
pub proof fn number_begins_with_a_digit(c: char)
    ensures
        '0' <= c <= '9' ==> written_u64(seq![c]) == Some((c as u64 - '0' as u64) as u64),
        '0' <= c <= '9' ==> written_u64(seq!['+', c]) == Some((c as u64 - '0' as u64) as u64),
        !('0' <= c <= '9') ==> written_u64(seq![c]) is None,
        !('0' <= c <= '9') ==> written_u64(seq!['+', c]) is None,
        written_u64(Seq::empty()) is None,
        written_u64(seq!['+']) is None,
{
    let bare = seq![c];
    let signed = seq!['+', c];
    assert(signed.skip(1) =~= bare);
    assert(bare.drop_last().len() == 0);
    assert(digits_value(bare.drop_last()) == 0);
    assert(bare.last() == c);
    assert(bare[0] == c && signed[0] == '+');
    assert(seq!['+'].skip(1).len() == 0);
    if c == '+' {
        assert(bare.skip(1).len() == 0);
    }
    if !('0' <= c <= '9') {
        assert(!is_digit(without_plus(signed)[0]));
    } else {
        assert(without_plus(bare) == bare);
        assert(without_plus(signed) == bare);
        assert(digits_value(bare) == (c as nat - '0' as nat) as nat);
        assert(forall|i: int| 0 <= i < bare.len() ==> is_digit(#[trigger] bare[i]));
    }
}

/// One more digit makes a number ten times as large, and adds the digit, as long
/// as 64 bits hold it; behind what is no number, and with any other character,
/// there is none.
pub proof fn number_grows_digit_by_digit(text: Seq<char>, c: char)
    requires
        text.len() > 0,
        text != seq!['+'],
    ensures
        written_u64(text.push(c)) == match written_u64(text) {
            Some(n) => if '0' <= c <= '9' && 10 * n + (c as u64 - '0' as u64) <= u64::MAX {
                Some((10 * n + (c as u64 - '0' as u64)) as u64)
            } else {
                None
            },
            None => None,
        },
{
    let digits = without_plus(text);
    let more = without_plus(text.push(c));
    if text.len() == 1 && text[0] == '+' {
        assert(text =~= seq!['+']);
    }
    assert(text.push(c)[0] == text[0]);
    assert(more =~= digits.push(c));
    assert(more.drop_last() =~= digits);
    assert(more.last() == c);
    assert(digits.len() > 0);
    if forall|i: int| 0 <= i < more.len() ==> is_digit(#[trigger] more[i]) {
        assert(is_digit(more[digits.len() as int]));
        assert forall|i: int| 0 <= i < digits.len() implies is_digit(#[trigger] digits[i]) by {
            assert(more[i] == digits[i]);
        }
    } else if written_u64(text) is Some {
        let i = choose|i: int| 0 <= i < more.len() && !is_digit(#[trigger] more[i]);
        if i < digits.len() {
            assert(is_digit(digits[i]));
        }
    }
}

/// A text whose number gets too large at some digit is refused for that,
/// whatever follows.
pub proof fn too_large_numbers_are_named(text: Seq<char>, n: u64, c: char, rest: Seq<char>)
    requires
        written_u64(text) == Some(n),
        '0' <= c <= '9',
        10 * n + (c as u64 - '0' as u64) > u64::MAX,
    ensures
        number_fault(text.push(c) + rest) == NumberFault::TooLarge,
        written_u64(text.push(c) + rest) is None,
{
    let digits = without_plus(text);
    let whole = text.push(c) + rest;
    let chars = without_plus(whole);
    let at = digits.len() as int + 1;
    assert(whole[0] == text[0]);
    assert(chars =~= digits.push(c) + rest);
    assert(chars.take(at) =~= digits.push(c));
    assert(digits.push(c).drop_last() =~= digits);
    assert forall|i: int| 0 <= i < at implies is_digit(#[trigger] chars[i]) by {
        if i < digits.len() {
            assert(chars[i] == digits[i]);
        }
    }
    assert(too_large_at(chars, at));
    digits_value_grows(chars, at);
}

/// A text whose number still fits where something other than a digit comes, or
/// that has no digit, is refused for that, whatever follows; an empty text is
/// refused as empty.
pub proof fn stray_characters_are_named(text: Seq<char>, c: char, rest: Seq<char>)
    requires
        written_u64(text) is Some || text == seq!['+'] || (text.len() == 0 && c != '+'),
        !('0' <= c <= '9'),
    ensures
        number_fault(text.push(c) + rest) == NumberFault::InvalidDigit,
        written_u64(text.push(c) + rest) is None,
        number_fault(seq!['+']) == NumberFault::InvalidDigit,
        number_fault(Seq::empty()) == NumberFault::Empty,
{
    let digits = without_plus(text);
    let whole = text.push(c) + rest;
    let chars = without_plus(whole);
    let at = digits.len() as int;
    if text.len() == 0 {
        assert(whole[0] == c);
        assert(digits.len() == 0);
    } else {
        assert(whole[0] == text[0]);
    }
    assert(chars =~= digits.push(c) + rest);
    assert(chars[at] == c);
    assert(chars.take(at) =~= digits);
    assert(digits_value(digits) <= u64::MAX);
    fits_so_far(chars, at);
    assert(!is_digit(chars[at]));
    let sign = seq!['+'];
    assert(sign.skip(1).len() == 0);
    assert(without_plus(sign).take(0).len() == 0);
    fits_so_far(without_plus(sign), 0);
}

}
