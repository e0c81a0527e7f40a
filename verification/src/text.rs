//! Values written as text: flags, ports and lists.
//!
//! An environment variable holds text. These functions turn the text into
//! the value of a field, or find that it writes none.

use vstd::prelude::*;
use vstd::string::*;

verus! {

/// The flag that `text` writes: `true` or `false`, and nothing else.
pub open spec fn flag_named(text: Seq<char>) -> Option<bool> {
    if text == "true"@ {
        Some(true)
    } else if text == "false"@ {
        Some(false)
    } else {
        None
    }
}

/// The value of a decimal digit.
pub open spec fn digit(c: char) -> Option<nat> {
    if c == '0' {
        Some(0)
    } else if c == '1' {
        Some(1)
    } else if c == '2' {
        Some(2)
    } else if c == '3' {
        Some(3)
    } else if c == '4' {
        Some(4)
    } else if c == '5' {
        Some(5)
    } else if c == '6' {
        Some(6)
    } else if c == '7' {
        Some(7)
    } else if c == '8' {
        Some(8)
    } else if c == '9' {
        Some(9)
    } else {
        None
    }
}

/// The number that a run of decimal digits writes. The empty text, and a
/// text that holds anything but digits, write none.
pub open spec fn decimal(text: Seq<char>) -> Option<nat>
    decreases text.len(),
{
    if text.len() == 0 {
        None
    } else if text.len() == 1 {
        digit(text[0])
    } else {
        match (decimal(text.drop_last()), digit(text.last())) {
            (Some(high), Some(low)) => Some(10 * high + low),
            _ => None,
        }
    }
}

/// The digits of a number: the text without the one `+` that may lead it.
pub open spec fn unsigned(text: Seq<char>) -> Seq<char> {
    if text.len() > 0 && text[0] == '+' {
        text.drop_first()
    } else {
        text
    }
}

/// The port that `text` writes: decimal digits, after at most one `+`, that
/// write a number up to 65535. Leading zeros are accepted; blanks, a `-` and
/// an empty run of digits are not.
pub open spec fn port_named(text: Seq<char>) -> Option<u16> {
    match decimal(unsigned(text)) {
        Some(number) => if number <= u16::MAX {
            Some(number as u16)
        } else {
            None
        },
        None => None,
    }
}

/// The pieces of `text` between its commas. Every comma ends one piece and
/// starts the next, so a text with n commas has n + 1 pieces, some of which
/// may be empty.
pub open spec fn split(text: Seq<char>) -> Seq<Seq<char>>
    decreases text.len(),
{
    if text.len() == 0 {
        seq![Seq::<char>::empty()]
    } else {
        let before = split(text.drop_last());
        if text.last() == ',' {
            before.push(Seq::<char>::empty())
        } else {
            before.drop_last().push(before.last().push(text.last()))
        }
    }
}

/// The list that `text` writes: its pieces between commas. The empty text
/// writes the empty list.
pub open spec fn list_named(text: Seq<char>) -> Seq<Seq<char>> {
    if text.len() == 0 {
        Seq::<Seq<char>>::empty()
    } else {
        split(text)
    }
}

/// A number whose leading digits already write more than `bound` is itself
/// more than `bound`.
pub proof fn lemma_decimal_grows(text: Seq<char>, cut: int, bound: nat)
    requires
        0 < cut <= text.len(),
        decimal(text.subrange(0, cut)) matches Some(head) && head > bound,
    ensures
        decimal(text) matches Some(number) ==> number > bound,
    decreases text.len() - cut,
{
    if cut == text.len() {
        assert(text.subrange(0, cut) =~= text);
    } else {
        assert(text.len() > 1);
        assert(text.drop_last().subrange(0, cut) =~= text.subrange(0, cut));
        lemma_decimal_grows(text.drop_last(), cut, bound);
    }
}

/// A text with a character that is no digit writes no number.
pub proof fn lemma_decimal_needs_digits(text: Seq<char>, at: int)
    requires
        0 <= at < text.len(),
        digit(text[at]) is None,
    ensures
        decimal(text) is None,
    decreases text.len(),
{
    if text.len() > 1 && at < text.len() - 1 {
        lemma_decimal_needs_digits(text.drop_last(), at);
    }
}

/// No piece of a split text holds a comma, and there is always a piece.
pub proof fn lemma_split_pieces(text: Seq<char>)
    ensures
        split(text).len() >= 1,
        forall|piece: int, at: int|
            0 <= piece < split(text).len() && 0 <= at < split(text)[piece].len() ==> split(
                text,
            )[piece][at] != ',',
    decreases text.len(),
{
    if text.len() > 0 {
        lemma_split_pieces(text.drop_last());
    }
}

/// The flag that `text` writes.
pub fn parse_flag(text: &String) -> (flag: Option<bool>)
    ensures
        flag == flag_named(text@),
{
    if *text == String::from_str("true") {
        Some(true)
    } else if *text == String::from_str("false") {
        Some(false)
    } else {
        None
    }
}

/// The value of a decimal digit.
pub fn digit_value(c: char) -> (value: Option<u32>)
    ensures
        match value {
            Some(value) => digit(c) == Some(value as nat),
            None => digit(c) is None,
        },
{
    if c == '0' {
        Some(0)
    } else if c == '1' {
        Some(1)
    } else if c == '2' {
        Some(2)
    } else if c == '3' {
        Some(3)
    } else if c == '4' {
        Some(4)
    } else if c == '5' {
        Some(5)
    } else if c == '6' {
        Some(6)
    } else if c == '7' {
        Some(7)
    } else if c == '8' {
        Some(8)
    } else if c == '9' {
        Some(9)
    } else {
        None
    }
}

/// The port that `text` writes.
pub fn parse_port(text: &str) -> (port: Option<u16>)
    ensures
        port == port_named(text@),
{
    let len: usize = text.unicode_len();
    let start: usize = if len > 0 && text.get_char(0) == '+' {
        1
    } else {
        0
    };
    let ghost digits = unsigned(text@);
    assert(digits =~= text@.subrange(start as int, len as int));
    if start == len {
        return None;
    }
    let mut number: u32 = 0;
    let mut at: usize = start;
    while at < len
        invariant
            start <= at <= len,
            start < len,
            len == text@.len(),
            digits == text@.subrange(start as int, len as int),
            digits == unsigned(text@),
            number <= u16::MAX,
            at == start ==> number == 0,
            at > start ==> decimal(digits.subrange(0, at - start)) == Some(number as nat),
        decreases len - at,
    {
        let ghost seen = digits.subrange(0, at - start);
        let ghost next = digits.subrange(0, at - start + 1);
        assert(next.drop_last() =~= seen);
        assert(next.last() == text@[at as int]);
        match digit_value(text.get_char(at)) {
            None => {
                proof {
                    lemma_decimal_needs_digits(digits, at - start);
                }
                return None;
            },
            Some(low) => {
                number = 10 * number + low;
                assert(decimal(next) == Some(number as nat));
                if number > 65535 {
                    proof {
                        lemma_decimal_grows(digits, at - start + 1, u16::MAX as nat);
                    }
                    return None;
                }
            },
        }
        at = at + 1;
    }
    assert(digits.subrange(0, len - start) =~= digits);
    Some(number as u16)
}

/// The list that `text` writes.
pub fn split_list(text: &str) -> (list: Vec<String>)
    ensures
        list.deep_view() == list_named(text@),
{
    let len: usize = text.unicode_len();
    let mut list: Vec<String> = Vec::new();
    if len == 0 {
        assert(list.deep_view() =~= Seq::<Seq<char>>::empty());
        return list;
    }
    let mut start: usize = 0;
    let mut at: usize = 0;
    assert(text@.subrange(0, 0) =~= Seq::<char>::empty());
    assert(list.deep_view().push(text@.subrange(0, 0)) =~= split(text@.subrange(0, 0)));
    while at < len
        invariant
            start <= at <= len,
            len == text@.len(),
            split(text@.subrange(0, at as int)) == list.deep_view().push(
                text@.subrange(start as int, at as int),
            ),
        decreases len - at,
    {
        let ghost seen = text@.subrange(0, at as int);
        let ghost next = text@.subrange(0, at + 1);
        let ghost pieces = list.deep_view();
        assert(next.drop_last() =~= seen);
        assert(next.last() == text@[at as int]);
        if text.get_char(at) == ',' {
            let ghost current = text@.subrange(start as int, at as int);
            list.push(String::from_str(text.substring_char(start, at)));
            start = at + 1;
            assert(list.deep_view() =~= pieces.push(current));
            assert(text@.subrange(start as int, at + 1) =~= Seq::<char>::empty());
        } else {
            let ghost current = text@.subrange(start as int, at as int);
            assert(pieces.push(current).drop_last() =~= pieces);
            assert(current.push(text@[at as int]) =~= text@.subrange(start as int, at + 1));
        }
        at = at + 1;
    }
    assert(text@.subrange(0, len as int) =~= text@);
    list.push(String::from_str(text.substring_char(start, len)));
    assert(list.deep_view() =~= split(text@));
    list
}

} // verus!
