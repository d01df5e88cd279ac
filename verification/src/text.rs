//! Comparison and reading of short strings.
use vstd::prelude::*;

verus! {

/// Whether two strings hold the same characters.
pub fn same_text(a: &str, b: &str) -> (r: bool)
    ensures
        r == (a@ == b@),
{
    a.to_owned() == b.to_owned()
}

/// The value of a decimal digit.
pub open spec fn digit_value(c: char) -> nat {
    (c as int - '0' as int) as nat
}

/// A decimal digit of ASCII.
pub open spec fn is_digit(c: char) -> bool {
    '0' <= c <= '9'
}

/// The number that a sequence of decimal digits denotes.
pub open spec fn decimal_value(digits: Seq<char>) -> nat
    decreases digits.len(),
{
    if digits.len() == 0 {
        0
    } else {
        10 * decimal_value(digits.drop_last()) + digit_value(digits.last())
    }
}

/// The digits of a number that may be written with a plus sign.
pub open spec fn without_plus(text: Seq<char>) -> Seq<char> {
    if text.len() > 0 && text[0] == '+' {
        text.drop_first()
    } else {
        text
    }
}

/// A non-empty run of decimal digits, with or without a plus sign before it, that
/// denotes a number within the machine's word.
pub open spec fn is_usize_text(text: Seq<char>) -> bool {
    let digits = without_plus(text);
    &&& digits.len() > 0
    &&& forall|i: int| 0 <= i < digits.len() ==> is_digit(#[trigger] digits[i])
    &&& decimal_value(digits) <= usize::MAX
}

/// The number that `text` denotes, if it denotes one.
pub open spec fn usize_of_text(text: Seq<char>) -> Option<usize> {
    if is_usize_text(text) {
        Some(decimal_value(without_plus(text)) as usize)
    } else {
        None
    }
}

proof fn lemma_decimal_prefix(digits: Seq<char>, n: int)
    requires
        0 <= n <= digits.len(),
    ensures
        decimal_value(digits.take(n)) <= decimal_value(digits),
    decreases digits.len(),
{
    if n < digits.len() {
        lemma_decimal_prefix(digits.drop_last(), n);
        assert(digits.drop_last().take(n) =~= digits.take(n));
    } else {
        assert(digits.take(n) =~= digits);
    }
}

/// Reads a number from `text`.
pub fn parse_usize(text: &str) -> (r: Option<usize>)
    ensures
        r == usize_of_text(text@),
{
    let len: usize = text.unicode_len();
    let ghost digits = without_plus(text@);
    if len == 0 {
        return None;
    }
    let start: usize = if text.get_char(0) == '+' {
        1
    } else {
        0
    };
    if start == len {
        return None;
    }
    let mut value: usize = 0;
    let mut i: usize = start;
    assert(digits.take(0) =~= Seq::<char>::empty());
    while i < len
        invariant
            len == text@.len(),
            start <= i <= len,
            start <= 1,
            digits == without_plus(text@),
            digits == text@.skip(start as int),
            forall|j: int| 0 <= j < i - start ==> is_digit(#[trigger] digits[j]),
            value == decimal_value(digits.take(i - start)),
        decreases len - i,
    {
        let c: char = text.get_char(i);
        assert(c == digits[i - start]);
        let ghost next = digits.take(i - start + 1);
        proof {
            assert(next.drop_last() =~= digits.take(i - start));
            lemma_decimal_prefix(digits, i - start + 1);
        }
        if c < '0' || c > '9' {
            return None;
        }
        let digit: usize = c as usize - '0' as usize;
        if value > (usize::MAX - digit) / 10 {
            return None;
        }
        value = 10 * value + digit;
        i = i + 1;
    }
    assert(digits.take(len - start) =~= digits);
    Some(value)
}

/// Neither no character at all nor a lone plus sign is a number, and a single character is one
/// exactly if it is a digit, which then stands for its value.
pub proof fn lemma_shortest_numbers(c: char)
    ensures
        usize_of_text(Seq::empty()) is None,
        usize_of_text(seq!['+']) is None,
        '0' <= c <= '9' ==> usize_of_text(seq![c]) == Some((c as int - '0' as int) as usize),
        !('0' <= c <= '9') ==> usize_of_text(seq![c]) is None,
{
    let digits = without_plus(seq![c]);
    if '0' <= c <= '9' {
        assert(digits =~= seq![c]);
        assert(digits.drop_last() =~= Seq::<char>::empty());
        assert(decimal_value(digits.drop_last()) == 0);
        assert(decimal_value(digits) == digit_value(c));
    } else if c == '+' {
        assert(digits =~= Seq::<char>::empty());
    } else {
        assert(digits[0] == c);
    }
    assert(without_plus(seq!['+']) =~= Seq::<char>::empty());
}

/// A digit behind a number multiplies it by ten and adds its value, as long as the machine's
/// word holds the result. What is behind a number may be a digit only.
pub proof fn lemma_number_grows(text: Seq<char>, c: char, value: usize)
    requires
        usize_of_text(text) == Some(value),
    ensures
        !('0' <= c <= '9') ==> usize_of_text(text.push(c)) is None,
        '0' <= c <= '9' && 10 * value + (c as int - '0' as int) > usize::MAX ==> usize_of_text(
            text.push(c),
        ) is None,
        '0' <= c <= '9' && 10 * value + (c as int - '0' as int) <= usize::MAX ==> usize_of_text(
            text.push(c),
        ) == Some((10 * value + (c as int - '0' as int)) as usize),
{
    let digits = without_plus(text);
    let more = without_plus(text.push(c));
    assert(text.push(c)[0] == text[0]);
    assert(more =~= digits.push(c));
    assert(more.drop_last() =~= digits);
    assert(more[digits.len() as int] == c);
    assert(decimal_value(more) == 10 * decimal_value(digits) + digit_value(c));
    if '0' <= c <= '9' {
        assert forall|i: int| 0 <= i < more.len() implies is_digit(#[trigger] more[i]) by {
            if i < digits.len() {
                assert(more[i] == digits[i]);
            }
        }
    }
}

/// What begins with something that is not a number, and is more than a plus sign, is no
/// number: nothing behind it mends it.
pub proof fn lemma_no_number_stays_none(text: Seq<char>, c: char)
    requires
        usize_of_text(text) is None,
        text.len() > 0,
        text != seq!['+'],
    ensures
        usize_of_text(text.push(c)) is None,
{
    let digits = without_plus(text);
    let more = without_plus(text.push(c));
    assert(text.push(c)[0] == text[0]);
    assert(more =~= digits.push(c));
    assert(more.drop_last() =~= digits);
    if digits.len() == 0 {
        assert(text =~= seq!['+']);
    } else if exists|i: int| 0 <= i < digits.len() && !is_digit(#[trigger] digits[i]) {
        let i = choose|i: int| 0 <= i < digits.len() && !is_digit(#[trigger] digits[i]);
        assert(more[i] == digits[i]);
    } else {
        assert(decimal_value(digits) > usize::MAX);
    }
}

/// One plus sign before a number changes nothing, and a second one spoils it.
pub proof fn lemma_plus_sign(text: Seq<char>)
    requires
        text.len() > 0,
    ensures
        text[0] != '+' ==> usize_of_text(seq!['+'] + text) == usize_of_text(text),
        text[0] == '+' ==> usize_of_text(seq!['+'] + text) is None,
{
    let all = seq!['+'] + text;
    assert(all[0] == '+');
    assert(without_plus(all) =~= text);
    if text[0] == '+' {
        assert(!is_digit(without_plus(all)[0]));
    }
}

/// `parse_usize` reads what `usize_of_text` says, and `same_text` compares characters.
pub proof fn lemma_reading_gives(a: &str, b: &str, number: Option<usize>, same: bool)
    requires
        call_ensures(parse_usize, (a,), number),
        call_ensures(same_text, (a, b), same),
    ensures
        number == usize_of_text(a@),
        same <==> a@ == b@,
{
}

} // verus!
