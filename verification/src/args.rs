//! Reading shaping parameters from the words of a command line.

use crate::config::Protocol;
use crate::text::chars_of;
use vstd::prelude::*;
use vstd::string::StringExecFns;

verus! {

/// The pieces of `text` between the occurrences of `separator`. A text
/// without the separator is one piece, and the empty text is one empty piece.
pub open spec fn split(text: Seq<char>, separator: char) -> Seq<Seq<char>>
    decreases text.len(),
{
    if text.len() == 0 {
        seq![Seq::empty()]
    } else {
        let pieces = split(text.drop_last(), separator);
        if text.last() == separator {
            pieces.push(Seq::empty())
        } else {
            pieces.drop_last().push(pieces.last().push(text.last()))
        }
    }
}

/// Whether the character is one of the ten digits.
pub open spec fn is_digit(c: char) -> bool {
    '0' <= c <= '9'
}

/// The number that a text of digits writes.
pub open spec fn value(digits: Seq<char>) -> nat
    decreases digits.len(),
{
    if digits.len() == 0 {
        0
    } else {
        value(digits.drop_last()) * 10 + (digits.last() as nat - '0' as nat) as nat
    }
}

/// Whether every character of the text is a digit.
pub open spec fn all_digits(text: Seq<char>) -> bool {
    forall|i: int| 0 <= i < text.len() ==> is_digit(#[trigger] text[i])
}

/// The number up to 65535 that a text writes with digits alone. Leading zeros
/// are accepted; the empty text writes no number.
pub open spec fn number(digits: Seq<char>) -> Option<u16> {
    if digits.len() > 0 && all_digits(digits) && value(digits) <= u16::MAX {
        Some(value(digits) as u16)
    } else {
        None
    }
}

/// The port that a text writes: a number, after one plus sign if there is
/// one. A sign alone, and anything else beside digits, writes none.
pub open spec fn port(text: Seq<char>) -> Option<u16> {
    if text.len() > 0 && text[0] == '+' {
        number(text.skip(1))
    } else {
        number(text)
    }
}

/// The range that a text of the form `start-end` writes, or why it writes
/// none.
pub open spec fn port_range(text: Seq<char>) -> Result<(u16, u16), Seq<char>> {
    let pieces = split(text, '-');
    if pieces.len() != 2 {
        Err("Port range must be in format: start-end"@)
    } else {
        match (port(pieces[0]), port(pieces[1])) {
            (None, _) => Err("Invalid start port number"@),
            (Some(_), None) => Err("Invalid end port number"@),
            (Some(start), Some(end)) => if start > end {
                Err("Start port must be less than or equal to end port"@)
            } else {
                Ok((start, end))
            },
        }
    }
}

/// A letter in lower case; any other character as it is.
pub open spec fn lower(c: char) -> char {
    if 'A' <= c <= 'Z' {
        ((c as u8) + 32) as char
    } else {
        c
    }
}

/// The text with its letters in lower case.
pub open spec fn lowered(text: Seq<char>) -> Seq<char> {
    Seq::new(text.len(), |i: int| lower(text[i]))
}

/// The protocol that a word names, whatever the case of its letters.
pub open spec fn protocol(word: Seq<char>) -> Option<Protocol> {
    if lowered(word) == seq!['t', 'c', 'p'] {
        Some(Protocol::Tcp)
    } else if lowered(word) == seq!['u', 'd', 'p'] {
        Some(Protocol::Udp)
    } else if lowered(word) == seq!['b', 'o', 't', 'h'] {
        Some(Protocol::Both)
    } else {
        None
    }
}

/// The texts of the pieces, in order.
pub open spec fn piece_views(pieces: Seq<Vec<char>>) -> Seq<Seq<char>> {
    Seq::new(pieces.len(), |i: int| pieces[i]@)
}

fn split_at(text: &Vec<char>, separator: char) -> (pieces: Vec<Vec<char>>)
    ensures
        piece_views(pieces@) == split(text@, separator),
{
    let mut done: Vec<Vec<char>> = Vec::new();
    let mut current: Vec<char> = Vec::new();
    let mut at: usize = 0;
    assert(text@.take(0) =~= Seq::<char>::empty());
    assert(piece_views(done@).push(current@) =~= split(text@.take(0), separator));
    while at < text.len()
        invariant
            at <= text.len(),
            piece_views(done@).push(current@) == split(text@.take(at as int), separator),
        decreases text.len() - at,
    {
        let c = text[at];
        let ghost before = text@.take(at as int);
        let ghost pieces = piece_views(done@).push(current@);
        assert(text@.take(at + 1).drop_last() =~= before);
        assert(text@.take(at + 1).last() == c);
        if c == separator {
            done.push(current);
            current = Vec::new();
            assert(piece_views(done@) =~= pieces);
        } else {
            current.push(c);
            assert(piece_views(done@).push(current@) =~= pieces.drop_last().push(
                pieces.last().push(c),
            ));
        }
        at += 1;
    }
    assert(text@.take(at as int) =~= text@);
    let ghost pieces = piece_views(done@).push(current@);
    done.push(current);
    assert(piece_views(done@) =~= pieces);
    done
}

proof fn lemma_value_push(digits: Seq<char>, c: char)
    ensures
        value(digits.push(c)) == value(digits) * 10 + (c as nat - '0' as nat) as nat,
{
    assert(digits.push(c).drop_last() =~= digits);
}

fn parse_number(text: &Vec<char>, start: usize) -> (parsed: Option<u16>)
    requires
        start <= text.len(),
    ensures
        parsed == number(text@.skip(start as int)),
{
    let ghost digits = text@.skip(start as int);
    if text.len() == start {
        return None;
    }
    let mut at: usize = start;
    // The value so far, or 65536 once it is beyond every port.
    let mut total: u32 = 0;
    assert(text@.subrange(start as int, start as int) =~= Seq::<char>::empty());
    while at < text.len()
        invariant
            start <= at <= text.len(),
            digits == text@.skip(start as int),
            all_digits(text@.subrange(start as int, at as int)),
            total <= 65536,
            total == if value(text@.subrange(start as int, at as int)) > u16::MAX {
                65536
            } else {
                value(text@.subrange(start as int, at as int))
            },
        decreases text.len() - at,
    {
        let c = text[at];
        let ghost before = text@.subrange(start as int, at as int);
        if c < '0' || c > '9' {
            assert(digits[at - start] == c);
            return None;
        }
        let digit: u32 = (c as u32) - ('0' as u32);
        proof {
            assert(text@.subrange(start as int, at + 1) =~= before.push(c));
            lemma_value_push(before, c);
        }
        total = if total >= 65536 {
            65536
        } else {
            let next: u32 = total * 10 + digit;
            if next > 65535 {
                65536
            } else {
                next
            }
        };
        at += 1;
    }
    assert(text@.subrange(start as int, at as int) =~= digits);
    if total > 65535 {
        None
    } else {
        Some(total as u16)
    }
}

fn parse_port(text: &Vec<char>) -> (parsed: Option<u16>)
    ensures
        parsed == port(text@),
{
    if text.len() > 0 && text[0] == '+' {
        parse_number(text, 1)
    } else {
        assert(text@.skip(0) =~= text@);
        parse_number(text, 0)
    }
}

/// Reads a port range of the form `start-end`, such as `80-8080`.
///
/// The text must have exactly one hyphen, with a port on each side of it, and
/// the first port may not be above the second.
pub fn parse_port_range(s: &str) -> (res: Result<(u16, u16), String>)
    ensures
        match (res, port_range(s@)) {
            (Ok(range), Ok(expected)) => range == expected,
            (Err(message), Err(expected)) => message@ == expected,
            _ => false,
        },
{
    let text = chars_of(s);
    let parts = split_at(&text, '-');
    assert(piece_views(parts@).len() == parts@.len());
    if parts.len() != 2 {
        return Err(String::from_str("Port range must be in format: start-end"));
    }
    assert(piece_views(parts@)[0] == parts@[0]@);
    assert(piece_views(parts@)[1] == parts@[1]@);
    let start = match parse_port(&parts[0]) {
        Some(port) => port,
        None => {
            return Err(String::from_str("Invalid start port number"));
        },
    };
    let end = match parse_port(&parts[1]) {
        Some(port) => port,
        None => {
            return Err(String::from_str("Invalid end port number"));
        },
    };
    if start > end {
        return Err(String::from_str("Start port must be less than or equal to end port"));
    }
    Ok((start, end))
}

fn lower_case(c: char) -> (l: char)
    ensures
        l == lower(c),
{
    if 'A' <= c && c <= 'Z' {
        ((c as u8) + 32) as char
    } else {
        c
    }
}

fn is_word(text: &Vec<char>, word: &Vec<char>) -> (same: bool)
    ensures
        same == (lowered(text@) == word@),
{
    if text.len() != word.len() {
        return false;
    }
    let mut at: usize = 0;
    while at < text.len()
        invariant
            at <= text.len(),
            text.len() == word.len(),
            forall|i: int| 0 <= i < at ==> lower(text@[i]) == word@[i],
        decreases text.len() - at,
    {
        if lower_case(text[at]) != word[at] {
            assert(lowered(text@)[at as int] != word@[at as int]);
            return false;
        }
        at += 1;
    }
    assert(lowered(text@) =~= word@);
    true
}

/// Reads a protocol: `tcp`, `udp` or `both`, in any case of the letters.
pub fn parse_protocol(s: &str) -> (res: Result<Protocol, String>)
    ensures
        match protocol(s@) {
            Some(expected) => res == Ok::<Protocol, String>(expected),
            None => res matches Err(message) && message@
                == "Protocol must be one of: tcp, udp, both"@,
        },
{
    let text = chars_of(s);
    if is_word(&text, &vec!['t', 'c', 'p']) {
        Ok(Protocol::Tcp)
    } else if is_word(&text, &vec!['u', 'd', 'p']) {
        Ok(Protocol::Udp)
    } else if is_word(&text, &vec!['b', 'o', 't', 'h']) {
        Ok(Protocol::Both)
    } else {
        Err(String::from_str("Protocol must be one of: tcp, udp, both"))
    }
}

} // verus!
