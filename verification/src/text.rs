//! Small operations on text that the record keys need.

use vstd::prelude::*;
use vstd::string::*;

verus! {

/// Whether `text` begins with `prefix`.
pub fn starts_with(text: &str, prefix: &str) -> (res: bool)
    ensures
        res == prefix@.is_prefix_of(text@),
{
    let n = prefix.unicode_len();
    if text.unicode_len() < n {
        return false;
    }
    let mut i: usize = 0;
    while i < n
        invariant
            n == prefix@.len(),
            n <= text@.len(),
            0 <= i <= n,
            forall|j: int| 0 <= j < i ==> text@[j] == prefix@[j],
        decreases n - i,
    {
        if text.get_char(i) != prefix.get_char(i) {
            assert(text@.subrange(0, n as int)[i as int] != prefix@[i as int]);
            return false;
        }
        i = i + 1;
    }
    assert(text@.subrange(0, n as int) == prefix@);
    true
}

/// `first`, a colon, and `second`.
pub open spec fn joined(first: Seq<char>, second: Seq<char>) -> Seq<char> {
    first.push(':') + second
}

/// Joins two texts with a colon between them.
pub fn join(first: &str, second: &str) -> (res: String)
    ensures
        res@ == joined(first@, second@),
{
    let mut res = String::from_str(first);
    res.append(":");
    res.append(second);
    proof {
        reveal_strlit(":");
        assert(":"@ == seq![':']);
    }
    res
}

/// What follows `first` and a colon in `text`, if `text` begins with them.
pub open spec fn after_joined(first: Seq<char>, text: Seq<char>) -> Option<Seq<char>> {
    if first.push(':').is_prefix_of(text) {
        Some(text.skip(first.len() as int + 1))
    } else {
        None
    }
}

/// Splits `first` and a colon off the front of `text`: `None` unless `text`
/// begins with them.
pub fn split_joined(first: &str, text: &str) -> (res: Option<String>)
    ensures
        match res {
            Some(rest) => after_joined(first@, text@) == Some(rest@),
            None => after_joined(first@, text@) is None,
        },
{
    let n = first.unicode_len();
    let len = text.unicode_len();
    if len <= n || !starts_with(text, first) || text.get_char(n) != ':' {
        proof {
            let head = first@.push(':');
            if head.is_prefix_of(text@) {
                assert(text@.subrange(0, head.len() as int) == head);
                assert(text@.subrange(0, n as int) == head.subrange(0, n as int));
                assert(head.subrange(0, n as int) == first@);
                assert(text@[n as int] == head[n as int]);
            }
        }
        return None;
    }
    proof {
        let head = first@.push(':');
        assert(text@.subrange(0, n as int) == first@);
        assert(text@.subrange(0, n + 1) == head);
    }
    let rest = text.substring_char(n + 1, len);
    Some(String::from_str(rest))
}

/// Taking apart what `join` made gives the second text back.
pub proof fn lemma_join_splits(first: Seq<char>, second: Seq<char>)
    ensures
        after_joined(first, joined(first, second)) == Some(second),
{
    let text = joined(first, second);
    let head = first.push(':');
    assert(text.subrange(0, head.len() as int) == head);
    assert(text.skip(first.len() as int + 1) == second);
}

/// What was split off the front of a text, joined with the rest, is the
/// text.
pub proof fn lemma_split_joins(first: Seq<char>, text: Seq<char>)
    requires
        after_joined(first, text) is Some,
    ensures
        joined(first, after_joined(first, text)->0) == text,
{
    let head = first.push(':');
    assert(text.subrange(0, head.len() as int) == head);
    assert(joined(first, text.skip(first.len() as int + 1)) =~= text);
}

/// Two texts joined to one first text are the same only if they are.
pub proof fn lemma_joined_is_injective(first: Seq<char>, a: Seq<char>, b: Seq<char>)
    requires
        joined(first, a) == joined(first, b),
    ensures
        a == b,
{
    lemma_join_splits(first, a);
    lemma_join_splits(first, b);
}

} // verus!
