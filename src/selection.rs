//! The operator's selection: a signed decimal number, where `n` constructs
//! catalog entry `n` and `-n` removes live allocation `n`, both 1-based.

use vstd::prelude::*;
use vstd::string::*;

verus! {

/// A selection that can be carried out.
#[derive(Clone, Copy, Debug, PartialEq, Eq, Structural)]
pub enum Command {
    /// Construct the catalog entry at this 1-based index.
    Construct(usize),
    /// Remove the live allocation at this 1-based index.
    Remove(usize),
}

/// Why a selection was refused; nothing changes on either.
#[derive(Clone, Copy, Debug, PartialEq, Eq, Structural)]
pub enum SelectionError {
    /// The text is not a decimal integer in the range of `i32`.
    InvalidNumber,
    /// The number names no catalog entry and no live allocation.
    InvalidChoice,
}

pub open spec fn is_digit(c: char) -> bool {
    '0' <= c && c <= '9'
}

pub open spec fn digit_value(c: char) -> int {
    (c as u32) - ('0' as u32)
}

/// A nonempty run of ASCII digits.
pub open spec fn all_digits(s: Seq<char>) -> bool {
    s.len() > 0 && forall|i: int| 0 <= i < s.len() ==> is_digit(#[trigger] s[i])
}

/// The value of a run of decimal digits.
pub open spec fn digits_value(s: Seq<char>) -> int
    decreases s.len(),
{
    if s.len() == 0 {
        0
    } else {
        10 * digits_value(s.drop_last()) + digit_value(s.last())
    }
}

/// An optional `+` or `-` followed by digits, as an unbounded integer.
pub open spec fn signed_value(s: Seq<char>) -> Option<int> {
    if s.len() > 0 && (s[0] == '-' || s[0] == '+') {
        if all_digits(s.skip(1)) {
            Some(
                if s[0] == '-' {
                    -digits_value(s.skip(1))
                } else {
                    digits_value(s.skip(1))
                },
            )
        } else {
            None
        }
    } else if all_digits(s) {
        Some(digits_value(s))
    } else {
        None
    }
}

/// The `i32` that the text spells in decimal, if any.
pub open spec fn decimal_i32(s: Seq<char>) -> Option<i32> {
    match signed_value(s) {
        Some(v) => if i32::MIN <= v <= i32::MAX {
            Some(v as i32)
        } else {
            None
        },
        None => None,
    }
}

/// What a number selects, given the catalog's size and the number of live
/// allocations. Zero is never a valid choice.
pub open spec fn choice(v: int, catalog_len: int, active_len: int) -> Result<
    Command,
    SelectionError,
> {
    if 1 <= v <= catalog_len {
        Ok(Command::Construct(v as usize))
    } else if 1 <= -v <= active_len {
        Ok(Command::Remove((-v) as usize))
    } else {
        Err(SelectionError::InvalidChoice)
    }
}

/// What a text selects.
pub open spec fn interpretation(s: Seq<char>, catalog_len: int, active_len: int) -> Result<
    Command,
    SelectionError,
> {
    match decimal_i32(s) {
        Some(v) => choice(v as int, catalog_len, active_len),
        None => Err(SelectionError::InvalidNumber),
    }
}

/// The word that ends the session, in any ASCII case.
pub open spec fn is_quit_word(s: Seq<char>) -> bool {
    &&& s.len() == 4
    &&& (s[0] == 'q' || s[0] == 'Q')
    &&& (s[1] == 'u' || s[1] == 'U')
    &&& (s[2] == 'i' || s[2] == 'I')
    &&& (s[3] == 't' || s[3] == 'T')
}

/// Reads a decimal `i32`: an optional sign and at least one ASCII digit, and
/// nothing else.
pub fn parse_number(text: &str) -> (r: Option<i32>)
    ensures
        r == decimal_i32(text@),
{
    let ghost s = text@;
    let n = text.unicode_len();
    if n == 0 {
        return None;
    }
    let first = text.get_char(0);
    let negative = first == '-';
    let start: usize = if first == '-' || first == '+' {
        1
    } else {
        0
    };
    let ghost body = s.skip(start as int);
    if start == n {
        assert(body.len() == 0);
        return None;
    }
    let mut acc: i64 = 0;
    let mut over = false;
    let mut i: usize = start;
    while i < n
        invariant
            start <= i <= n,
            n == s.len(),
            s[0] == first,
            start == (if first == '-' || first == '+' {
                1usize
            } else {
                0usize
            }),
            negative == (first == '-'),
            s == text@,
            body == s.skip(start as int),
            forall|j: int| start <= j < i ==> is_digit(#[trigger] s[j]),
            !over ==> acc == digits_value(s.subrange(start as int, i as int)),
            !over ==> 0 <= acc <= 2147483648,
            over ==> digits_value(s.subrange(start as int, i as int)) > 2147483648,
        decreases n - i,
    {
        let c = text.get_char(i);
        if !(c >= '0' && c <= '9') {
            assert(body[i - start] == c);
            assert(!all_digits(body));
            if start == 0 {
                assert(body == s);
            }
            return None;
        }
        let d = (c as u32 - '0' as u32) as i64;
        let ghost prev = s.subrange(start as int, i as int);
        assert(s.subrange(start as int, i + 1).drop_last() == prev);
        assert(s.subrange(start as int, i + 1).last() == c);
        if !over {
            let next = acc * 10 + d;
            if next > 2147483648 {
                over = true;
            } else {
                acc = next;
            }
        }
        i = i + 1;
    }
    assert(s.subrange(start as int, n as int) == body);
    assert(all_digits(body));
    if start == 0 {
        assert(body == s);
    }
    if over {
        None
    } else if negative {
        Some((-acc) as i32)
    } else if acc <= 2147483647 {
        Some(acc as i32)
    } else {
        None
    }
}

/// What a number selects: `n` in `1..=catalog_len` constructs entry `n`,
/// `-n` with `n` in `1..=active_len` removes allocation `n`.
pub fn decide(selection: i32, catalog_len: usize, active_len: usize) -> (r: Result<
    Command,
    SelectionError,
>)
    ensures
        r == choice(selection as int, catalog_len as int, active_len as int),
{
    if selection > 0 {
        let v = selection as u64;
        if v <= catalog_len as u64 {
            return Ok(Command::Construct(v as usize));
        }
    } else if selection < 0 {
        let v = (-(selection as i64)) as u64;
        if v <= active_len as u64 {
            return Ok(Command::Remove(v as usize));
        }
    }
    Err(SelectionError::InvalidChoice)
}

/// What a text selects: `InvalidNumber` unless it is a decimal `i32`, then
/// as `decide` says.
pub fn interpret(text: &str, catalog_len: usize, active_len: usize) -> (r: Result<
    Command,
    SelectionError,
>)
    ensures
        r == interpretation(text@, catalog_len as int, active_len as int),
{
    match parse_number(text) {
        Some(v) => decide(v, catalog_len, active_len),
        None => Err(SelectionError::InvalidNumber),
    }
}

/// Whether the text is the word `quit`, in any ASCII case.
pub fn is_quit(text: &str) -> (r: bool)
    ensures
        r == is_quit_word(text@),
{
    if text.unicode_len() != 4 {
        return false;
    }
    let a = text.get_char(0);
    let b = text.get_char(1);
    let c = text.get_char(2);
    let d = text.get_char(3);
    (a == 'q' || a == 'Q') && (b == 'u' || b == 'U') && (c == 'i' || c == 'I') && (d == 't'
        || d == 'T')
}

} // verus!
