//! File name extensions, and lists of them.

use crate::text::{lowercased, to_lowercase};
use vstd::prelude::*;

verus! {

/// The place of the last dot in a name, or -1 where the name has none.
pub open spec fn last_dot(name: Seq<char>) -> int
    decreases name.len(),
{
    if name.len() == 0 {
        -1
    } else if name.last() == '.' {
        name.len() - 1
    } else {
        last_dot(name.drop_last())
    }
}

/// The extension of a file name: what follows its last dot. A name without a
/// dot has none, nor has one whose only dot comes first, nor the name `..`.
pub open spec fn extension_of(name: Seq<char>) -> Option<Seq<char>> {
    if last_dot(name) <= 0 || name =~= seq!['.', '.'] {
        None
    } else {
        Some(name.skip(last_dot(name) + 1))
    }
}

/// The text is one of the list.
pub open spec fn is_listed(extensions: Seq<String>, text: Seq<char>) -> bool {
    exists|i: int| 0 <= i < extensions.len() && (#[trigger] extensions[i])@ == text
}

/// The name has an extension that, in lower case, is one of the list.
pub open spec fn has_extension_in(name: Seq<char>, extensions: Seq<String>) -> bool {
    extension_of(name) matches Some(found) && is_listed(extensions, lowercased(found))
}

/// Behind the last dot of a name there is no other.
proof fn lemma_last_dot(name: Seq<char>, end: int)
    requires
        0 <= end <= name.len(),
        forall|i: int| end <= i < name.len() ==> name[i] != '.',
    ensures
        last_dot(name) == last_dot(name.take(end)),
        -1 <= last_dot(name) < end,
        last_dot(name) >= 0 ==> name[last_dot(name)] == '.',
        end > 0 && name[end - 1] == '.' ==> last_dot(name) == end - 1,
    decreases name.len() - end,
{
    if end == name.len() {
        assert(name.take(end) =~= name);
        lemma_last_dot_inside(name);
    } else {
        assert(name.drop_last().take(end) =~= name.take(end));
        lemma_last_dot(name.drop_last(), end);
    }
}

/// The last dot lies within the name and is a dot.
proof fn lemma_last_dot_inside(name: Seq<char>)
    ensures
        -1 <= last_dot(name) < name.len(),
        last_dot(name) >= 0 ==> name[last_dot(name)] == '.',
    decreases name.len(),
{
    if name.len() > 0 && name.last() != '.' {
        lemma_last_dot_inside(name.drop_last());
    }
}

/// The extension of a file name.
pub fn extension(name: &str) -> (out: Option<&str>)
    ensures
        match out {
            Some(found) => extension_of(name@) == Some(found@),
            None => extension_of(name@).is_none(),
        },
{
    let length: usize = name.unicode_len();
    let mut end: usize = length;
    while end > 0 && name.get_char(end - 1) != '.'
        invariant
            end <= length == name@.len(),
            forall|i: int| end <= i < length ==> name@[i] != '.',
        decreases end,
    {
        end -= 1;
    }
    proof {
        lemma_last_dot(name@, end as int);
        if end == 0 {
            assert(name@.take(0) =~= Seq::<char>::empty());
        }
    }
    if end <= 1 {
        return None;
    }
    if length == 2 && name.get_char(0) == '.' {
        return None;
    }
    let found = name.substring_char(end, length);
    assert(found@ =~= name@.skip(last_dot(name@) + 1));
    Some(found)
}

/// The text is one of the list.
pub fn listed(extensions: &Vec<String>, text: &String) -> (yes: bool)
    ensures
        yes == is_listed(extensions@, text@),
{
    let mut i: usize = 0;
    while i < extensions.len()
        invariant
            i <= extensions.len(),
            forall|j: int| 0 <= j < i ==> (#[trigger] extensions@[j])@ != text@,
        decreases extensions.len() - i,
    {
        if extensions[i] == *text {
            return true;
        }
        i += 1;
    }
    false
}

/// The name ends in one of the extensions, whatever the case of its letters.
pub fn matches_extension(name: &str, extensions: &Vec<String>) -> (yes: bool)
    ensures
        yes == has_extension_in(name@, extensions@),
{
    match extension(name) {
        Some(found) => {
            let lower = to_lowercase(found);
            listed(extensions, &lower)
        },
        None => false,
    }
}

} // verus!
