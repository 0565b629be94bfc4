//! Work on text, character by character.

use vstd::prelude::*;
use vstd::std_specs::iter::IteratorSpec;
use vstd::string::StringExecFns;

verus! {

broadcast use vstd::string::group_string_axioms;

/// The characters of `text`, in order.
pub fn chars_of(text: &str) -> (chars: Vec<char>)
    ensures
        chars@ == text@,
{
    let mut rest = text.chars();
    let mut chars: Vec<char> = Vec::new();
    loop
        invariant
            chars@.len() <= text@.len(),
            rest.remaining() == text@.skip(chars@.len() as int),
            chars@ == text@.take(chars@.len() as int),
        decreases text@.len() - chars@.len(),
    {
        let ghost read = chars@.len() as int;
        match rest.next() {
            None => {
                assert(text@.take(read) =~= text@);
                return chars;
            },
            Some(c) => {
                chars.push(c);
                assert(text@.skip(read).drop_first() =~= text@.skip(read + 1));
                assert(text@.take(read + 1) =~= text@.take(read).push(c));
            },
        }
    }
}

/// Whether `a` and `b` hold the same characters.
pub fn same_text(a: &str, b: &str) -> (same: bool)
    ensures
        same == (a@ == b@),
{
    let mut left = a.chars();
    let mut right = b.chars();
    let ghost mut read: int = 0;
    loop
        invariant
            0 <= read <= a@.len(),
            read <= b@.len(),
            left.remaining() == a@.skip(read),
            right.remaining() == b@.skip(read),
            a@.take(read) == b@.take(read),
        decreases a@.len() - read,
    {
        let x = left.next();
        let y = right.next();
        match (x, y) {
            (None, None) => {
                assert(a@.take(read) =~= a@);
                assert(b@.take(read) =~= b@);
                return true;
            },
            (Some(c), Some(d)) => {
                assert(c == a@[read] && d == b@[read]);
                if c != d {
                    return false;
                }
                proof {
                    assert(a@.skip(read).drop_first() =~= a@.skip(read + 1));
                    assert(b@.skip(read).drop_first() =~= b@.skip(read + 1));
                    assert(a@.take(read + 1) =~= a@.take(read).push(c));
                    assert(b@.take(read + 1) =~= b@.take(read).push(d));
                    read = read + 1;
                }
            },
            _ => {
                assert(a@.len() != b@.len());
                return false;
            },
        }
    }
}

/// `before`, `name` and `after` in one text.
pub fn around(before: &str, name: &str, after: &str) -> (text: String)
    ensures
        text@ == before@ + name@ + after@,
{
    let mut text = String::from_str(before);
    text.append(name);
    text.append(after);
    text
}

} // verus!
