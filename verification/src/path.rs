//! The path of a request: the name of a snake, and behind a slash the
//! command for it. Slashes at either end of the path do not count.

use vstd::prelude::*;
use vstd::string::{StrSliceExecFns, StringExecFns};

use crate::text::chars_of;

verus! {

/// `path` without the slashes in front of it.
pub open spec fn trim_front(path: Seq<char>) -> Seq<char>
    decreases path.len(),
{
    if path.len() > 0 && path[0] == '/' {
        trim_front(path.skip(1))
    } else {
        path
    }
}

/// `path` without the slashes at its end.
pub open spec fn trim_back(path: Seq<char>) -> Seq<char>
    decreases path.len(),
{
    if path.len() > 0 && path.last() == '/' {
        trim_back(path.drop_last())
    } else {
        path
    }
}

/// `path` without the slashes at its two ends.
pub open spec fn trimmed(path: Seq<char>) -> Seq<char> {
    trim_back(trim_front(path))
}

/// Where the first slash of `text` stands, or the length of `text` where
/// it holds none.
pub open spec fn first_slash(text: Seq<char>) -> int
    decreases text.len(),
{
    if text.len() == 0 || text[0] == '/' {
        0
    } else {
        1 + first_slash(text.skip(1))
    }
}

/// The name of the snake that `path` speaks of: what stands before the
/// first slash inside the path.
pub open spec fn snake_in(path: Seq<char>) -> Seq<char> {
    let text = trimmed(path);
    text.take(first_slash(text))
}

/// The command in `path`: what stands behind the first slash inside the
/// path, and nothing where there is no such slash.
pub open spec fn command_in(path: Seq<char>) -> Seq<char> {
    let text = trimmed(path);
    if first_slash(text) < text.len() {
        text.skip(first_slash(text) + 1)
    } else {
        Seq::empty()
    }
}

/// A path taken apart.
pub struct Target {
    pub snake: String,
    pub command: String,
}

proof fn lemma_trim_front(path: Seq<char>, slashes: int)
    requires
        0 <= slashes <= path.len(),
        forall|i: int| 0 <= i < slashes ==> path[i] == '/',
        slashes < path.len() ==> path[slashes] != '/',
    ensures
        trim_front(path) == path.skip(slashes),
    decreases slashes,
{
    if slashes == 0 {
        assert(path.skip(0) =~= path);
    } else {
        let rest = path.skip(1);
        assert forall|i: int| 0 <= i < slashes - 1 implies rest[i] == '/' by {
            assert(rest[i] == path[i + 1]);
        }
        lemma_trim_front(rest, slashes - 1);
        assert(rest.skip(slashes - 1) =~= path.skip(slashes));
    }
}

proof fn lemma_trim_back(text: Seq<char>, kept: int)
    requires
        0 <= kept <= text.len(),
        forall|i: int| kept <= i < text.len() ==> text[i] == '/',
        kept > 0 ==> text[kept - 1] != '/',
    ensures
        trim_back(text) == text.take(kept),
    decreases text.len() - kept,
{
    if kept == text.len() {
        assert(text.take(kept) =~= text);
    } else {
        let rest = text.drop_last();
        lemma_trim_back(rest, kept);
        assert(rest.take(kept) =~= text.take(kept));
    }
}

proof fn lemma_first_slash(text: Seq<char>, at: int)
    requires
        0 <= at <= text.len(),
        forall|i: int| 0 <= i < at ==> text[i] != '/',
        at < text.len() ==> text[at] == '/',
    ensures
        first_slash(text) == at,
    decreases at,
{
    if at > 0 {
        let rest = text.skip(1);
        assert forall|i: int| 0 <= i < at - 1 implies rest[i] != '/' by {
            assert(rest[i] == text[i + 1]);
        }
        lemma_first_slash(rest, at - 1);
    }
}

/// Takes `path` apart into the name of a snake and a command. `None`
/// where the path holds nothing but slashes.
pub fn split_path(path: &str) -> (target: Option<Target>)
    ensures
        target is None <==> trimmed(path@).len() == 0,
        target matches Some(t) ==> t.snake@ == snake_in(path@) && t.command@ == command_in(path@),
{
    let chars = chars_of(path);
    let len = chars.len();
    let mut start: usize = 0;
    while start < len && chars[start] == '/'
        invariant
            start <= len == chars@.len(),
            forall|i: int| 0 <= i < start ==> chars@[i] == '/',
        decreases len - start,
    {
        start = start + 1;
    }
    let mut end: usize = len;
    while end > start && chars[end - 1] == '/'
        invariant
            start <= end <= len == chars@.len(),
            forall|i: int| end <= i < len ==> chars@[i] == '/',
        decreases end,
    {
        end = end - 1;
    }
    let mut slash: usize = start;
    while slash < end && chars[slash] != '/'
        invariant
            start <= slash <= end <= len == chars@.len(),
            forall|i: int| start <= i < slash ==> chars@[i] != '/',
        decreases end - slash,
    {
        slash = slash + 1;
    }
    let ghost front = path@.skip(start as int);
    let ghost text = path@.subrange(start as int, end as int);
    proof {
        lemma_trim_front(path@, start as int);
        assert forall|i: int| end - start <= i < front.len() implies front[i] == '/' by {
            assert(front[i] == path@[start + i]);
        }
        lemma_trim_back(front, end - start);
        assert(front.take(end - start) =~= text);
        assert(trimmed(path@) == text);
        assert forall|i: int| 0 <= i < slash - start implies text[i] != '/' by {
            assert(text[i] == path@[start + i]);
        }
        lemma_first_slash(text, slash - start);
        assert(text.take(slash - start) =~= path@.subrange(start as int, slash as int));
        if slash < end {
            assert(text.skip(slash - start + 1) =~= path@.subrange(slash + 1, end as int));
        }
    }
    if start == end {
        return None;
    }
    let snake = String::from_str(path.substring_char(start, slash));
    let command = if slash < end {
        String::from_str(path.substring_char(slash + 1, end))
    } else {
        String::new()
    };
    Some(Target { snake, command })
}

} // verus!
