//! How long a move may be thought about.
//!
//! The host allows a time per turn and reports how long the previous
//! answer took to reach it. What is left after the reported latency and a
//! margin for safety is the budget of the turn, and never less than a
//! floor, so that every turn leaves time for one attempt at least.

use vstd::prelude::*;
use vstd::std_specs::iter::IteratorSpec;

verus! {

broadcast use vstd::string::group_string_axioms;

/// Latency taken where the host reports none that can be read.
pub const DEFAULT_LATENCY_MS: u64 = 150;

/// Time kept back from every turn.
pub const SAFETY_MARGIN_MS: u64 = 50;

/// The least budget a turn is given.
pub const MIN_BUDGET_MS: u64 = 100;

/// Whether `c` is one of the ten decimal digits.
pub open spec fn is_digit(c: char) -> bool {
    '0' <= c <= '9'
}

/// Whether `text` holds decimal digits only.
pub open spec fn all_digits(text: Seq<char>) -> bool {
    forall|i: int| 0 <= i < text.len() ==> is_digit(#[trigger] text[i])
}

/// The number that the digits of `text` spell, the last one counting least.
pub open spec fn decimal_value(text: Seq<char>) -> nat
    decreases text.len(),
{
    if text.len() == 0 {
        0
    } else {
        decimal_value(text.drop_last()) * 10 + (text.last() as nat - '0' as nat) as nat
    }
}

/// `text` without the plus sign that may stand in front of a number.
pub open spec fn unsigned_part(text: Seq<char>) -> Seq<char> {
    if text.len() > 0 && text[0] == '+' {
        text.skip(1)
    } else {
        text
    }
}

/// The number of milliseconds that `text` spells: one decimal digit or
/// more, with or without a plus sign in front and with nothing else before,
/// between or after, of a value that 64 bits hold. `None` for any other text.
pub open spec fn millis_in(text: Seq<char>) -> Option<u64> {
    let digits = unsigned_part(text);
    if digits.len() > 0 && all_digits(digits) && decimal_value(digits) <= u64::MAX {
        Some(decimal_value(digits) as u64)
    } else {
        None
    }
}

/// The latency to reckon with for a reported `text`.
pub open spec fn latency_of(text: Seq<char>) -> u64 {
    match millis_in(text) {
        Some(millis) => millis,
        None => DEFAULT_LATENCY_MS,
    }
}

/// The budget of a turn with `timeout_ms` allowed and `latency_ms` lost on
/// the way: what is left after latency and margin, and the floor where
/// less than the floor is left.
pub open spec fn budget_of(timeout_ms: u64, latency_ms: u64) -> u64 {
    if timeout_ms - latency_ms - SAFETY_MARGIN_MS >= MIN_BUDGET_MS {
        (timeout_ms - latency_ms - SAFETY_MARGIN_MS) as u64
    } else {
        MIN_BUDGET_MS
    }
}

/// A number does not shrink when digits are appended to it.
proof fn lemma_value_grows(text: Seq<char>, len: int)
    requires
        0 <= len <= text.len(),
        all_digits(text),
    ensures
        decimal_value(text.take(len)) <= decimal_value(text),
    decreases text.len() - len,
{
    if len == text.len() {
        assert(text.take(len) =~= text);
    } else {
        lemma_value_grows(text.drop_last(), len);
        assert(text.drop_last().take(len) =~= text.take(len));
        assert(is_digit(text.last()));
    }
}

/// Reads a number of milliseconds.
pub fn parse_millis(text: &str) -> (millis: Option<u64>)
    ensures
        millis == millis_in(text@),
{
    let mut chars = text.chars();
    let ghost digits = unsigned_part(text@);
    let ghost mut read: int = 0;
    let mut value: u64 = 0;
    let mut any = false;
    let mut first = true;
    loop
        invariant
            first ==> chars.remaining() == text@ && read == 0,
            !first ==> chars.remaining() == digits.skip(read),
            0 <= read <= digits.len(),
            digits == unsigned_part(text@),
            any <==> read > 0,
            all_digits(digits.take(read)),
            value == decimal_value(digits.take(read)),
        decreases digits.len() - read + if first { 1int } else { 0int },
    {
        let was_first = first;
        first = false;
        match chars.next() {
            None => {
                proof {
                    if !was_first || text@.len() == 0 {
                        assert(digits.take(read) =~= digits);
                    }
                }
                return if any { Some(value) } else { None };
            },
            Some(c) => {
                if was_first && c == '+' {
                    assert(text@.drop_first() =~= digits.skip(0));
                } else {
                    proof {
                        if was_first {
                            assert(digits == text@);
                            assert(text@ =~= digits.skip(0));
                        }
                        assert(c == digits[read]);
                        assert(digits.skip(read).drop_first() =~= digits.skip(read + 1));
                        assert(digits.take(read + 1).drop_last() =~= digits.take(read));
                        assert(digits.take(read + 1).last() == c);
                    }
                    if c < '0' || c > '9' {
                        assert(!is_digit(digits[read]));
                        return None;
                    }
                    let digit = (c as u32 - '0' as u32) as u64;
                    let next = match value.checked_mul(10) {
                        Some(tens) => tens.checked_add(digit),
                        None => None,
                    };
                    match next {
                        Some(n) => {
                            value = n;
                        },
                        None => {
                            proof {
                                if all_digits(digits) {
                                    lemma_value_grows(digits, read + 1);
                                }
                            }
                            return None;
                        },
                    }
                    proof {
                        read = read + 1;
                    }
                    any = true;
                }
            },
        }
    }
}

/// The latency to reckon with: the one reported, or the default where the
/// report cannot be read as a number.
pub fn latency_ms(reported: &str) -> (latency: u64)
    ensures
        latency == latency_of(reported@),
{
    match parse_millis(reported) {
        Some(millis) => millis,
        None => DEFAULT_LATENCY_MS,
    }
}

/// The budget of a turn, in milliseconds.
pub fn turn_budget_ms(timeout_ms: u64, latency_ms: u64) -> (budget: u64)
    ensures
        budget == budget_of(timeout_ms, latency_ms),
        budget >= MIN_BUDGET_MS,
        budget > MIN_BUDGET_MS ==> budget + latency_ms + SAFETY_MARGIN_MS == timeout_ms,
{
    let left = match timeout_ms.checked_sub(latency_ms) {
        Some(rest) => rest.checked_sub(SAFETY_MARGIN_MS),
        None => None,
    };
    match left {
        Some(rest) => if rest >= MIN_BUDGET_MS { rest } else { MIN_BUDGET_MS },
        None => MIN_BUDGET_MS,
    }
}

} // verus!
