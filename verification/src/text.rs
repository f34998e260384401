//! Texts cut at dots: where the first dot of a text stands, what comes before it and what
//! comes after, with the verified functions that find it.

use vstd::prelude::*;
use vstd::string::*;

verus! {

/// How many characters of `host` come before its first `.`; all of them if it has none.
pub open spec fn label_len(host: Seq<char>) -> nat
    decreases host.len(),
{
    if host.len() == 0 || host[0] == '.' {
        0
    } else {
        1 + label_len(host.drop_first())
    }
}

/// The first dot-delimited label of `host`.
pub open spec fn first_label(host: Seq<char>) -> Seq<char> {
    host.take(label_len(host) as int)
}

/// What follows the first dot of `text`; nothing if it has no dot.
pub open spec fn after_dot(text: Seq<char>) -> Seq<char> {
    text.skip(label_len(text) as int + 1)
}

/// Whether `text` holds a dot.
pub open spec fn has_dot(text: Seq<char>) -> bool {
    label_len(text) < text.len()
}

/// `label_len` is the place of the first `.`: nothing before it is a dot, and it is either
/// the end of `host` or the position of a dot.
pub proof fn lemma_label_len(host: Seq<char>)
    ensures
        label_len(host) <= host.len(),
        forall|i: int| 0 <= i < label_len(host) ==> host[i] != '.',
        label_len(host) < host.len() ==> host[label_len(host) as int] == '.',
    decreases host.len(),
{
    if host.len() == 0 || host[0] == '.' {
    } else {
        let rest = host.drop_first();
        lemma_label_len(rest);
        assert forall|i: int| 0 <= i < label_len(host) implies host[i] != '.' by {
            if i > 0 {
                assert(host[i] == rest[i - 1]);
            }
        }
        if label_len(host) < host.len() {
            assert(host[label_len(host) as int] == rest[label_len(rest) as int]);
        }
    }
}

/// Any position that has no dot before it, and is the end of `host` or a dot, is
/// `label_len(host)`.
pub proof fn lemma_label_len_unique(host: Seq<char>, end: int)
    requires
        0 <= end <= host.len(),
        forall|i: int| 0 <= i < end ==> host[i] != '.',
        end < host.len() ==> host[end] == '.',
    ensures
        label_len(host) == end,
{
    lemma_label_len(host);
    let found = label_len(host) as int;
    if found < end {
        assert(host[found] == '.');
    } else if end < found {
        assert(host[end] == '.');
    }
}

/// A text without a dot is its own first label.
pub proof fn lemma_dot_free_label(text: Seq<char>)
    requires
        !text.contains('.'),
    ensures
        label_len(text) == text.len(),
{
    lemma_label_len(text);
    if label_len(text) < text.len() {
        assert(text.contains(text[label_len(text) as int]));
    }
}

/// In `head . tail` with a dot-free `head`, the first dot stands right after `head`.
pub proof fn lemma_label_before_dot(head: Seq<char>, tail: Seq<char>)
    requires
        !head.contains('.'),
    ensures
        label_len(head + seq!['.'] + tail) == head.len(),
        (head + seq!['.'] + tail).skip(head.len() as int + 1) == tail,
        (head + seq!['.'] + tail).take(head.len() as int) == head,
{
    let whole = head + seq!['.'] + tail;
    assert forall|i: int| 0 <= i < head.len() implies whole[i] != '.' by {
        assert(whole[i] == head[i]);
        assert(head.contains(head[i]));
    }
    assert(whole[head.len() as int] == '.');
    lemma_label_len_unique(whole, head.len() as int);
    assert(whole.skip(head.len() as int + 1) =~= tail);
    assert(whole.take(head.len() as int) =~= head);
}

/// Whether `text`, which has `total` characters, begins with `prefix`. Made for short
/// prefixes: each character is reached from the start of its text.
pub(crate) fn starts_with(text: &str, total: usize, prefix: &str) -> (yes: bool)
    requires
        total == text@.len(),
    ensures
        yes == prefix@.is_prefix_of(text@),
{
    let wanted = prefix.unicode_len();
    if wanted > total {
        return false;
    }
    let mut i: usize = 0;
    while i < wanted
        invariant
            i <= wanted <= total,
            wanted == prefix@.len(),
            total == text@.len(),
            forall|j: int| 0 <= j < i ==> text@[j] == prefix@[j],
        decreases wanted - i,
    {
        if text.get_char(i) != prefix.get_char(i) {
            assert(text@.subrange(0, wanted as int)[i as int] != prefix@[i as int]);
            return false;
        }
        i += 1;
    }
    assert(prefix@ =~= text@.subrange(0, wanted as int));
    true
}

/// The number of characters of `host` before its first `.`.
pub(crate) fn label_end(host: &str) -> (end: usize)
    ensures
        end == label_len(host@),
{
    let total = host.unicode_len();
    let mut end: usize = 0;
    let mut open = true;
    for c in it: host.chars()
        invariant
            total == host@.len(),
            it.seq() == host@,
            end <= it.index(),
            open ==> end == it.index(),
            forall|j: int| 0 <= j < end ==> host@[j] != '.',
            !open ==> end < host@.len() && host@[end as int] == '.',
    {
        if open {
            if c == '.' {
                open = false;
            } else {
                end += 1;
            }
        }
    }
    proof {
        lemma_label_len_unique(host@, end as int);
    }
    end
}

/// Whether two texts are the same, character for character.
pub(crate) fn same_text(left: &str, right: &str) -> (same: bool)
    ensures
        same == (left@ == right@),
{
    let total = left.unicode_len();
    if right.unicode_len() != total {
        return false;
    }
    let same = starts_with(left, total, right);
    assert(same ==> left@ =~= right@);
    assert(!same ==> left@ != right@) by {
        if left@ == right@ {
            assert(right@ =~= left@.subrange(0, right@.len() as int));
        }
    }
    same
}

} // verus!
