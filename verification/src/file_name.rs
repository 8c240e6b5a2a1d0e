//! How a file name divides into a stem and an extension.
//!
//! The rule is the usual one: the extension is what follows the last dot,
//! unless that dot is the first character of the name (a hidden file such as
//! `.profile` has no extension) or the name has no dot at all.

use vstd::prelude::*;

verus! {

/// Whether position `i` of `name` holds its last dot.
pub open spec fn is_last_dot(name: Seq<char>, i: int) -> bool {
    &&& 0 <= i < name.len()
    &&& name[i] == '.'
    &&& forall|j: int| i < j < name.len() ==> name[j] != '.'
}

/// Whether `name` has an extension: a last dot that does not start the name.
pub open spec fn has_extension(name: Seq<char>) -> bool {
    exists|i: int| 0 < i && is_last_dot(name, i)
}

/// The position of the dot that separates stem and extension.
pub open spec fn extension_dot(name: Seq<char>) -> int {
    choose|i: int| 0 < i && is_last_dot(name, i)
}

/// The part of `name` after its separating dot, if it has one.
pub open spec fn file_extension(name: Seq<char>) -> Option<Seq<char>> {
    if has_extension(name) {
        Some(name.subrange(extension_dot(name) + 1, name.len() as int))
    } else {
        None
    }
}

/// The part of `name` before its separating dot; the whole name if it has none.
pub open spec fn file_stem(name: Seq<char>) -> Seq<char> {
    if has_extension(name) {
        name.subrange(0, extension_dot(name))
    } else {
        name
    }
}

/// A name has at most one last dot.
pub proof fn lemma_last_dot_unique(name: Seq<char>, i: int, j: int)
    requires
        is_last_dot(name, i),
        is_last_dot(name, j),
    ensures
        i == j,
{
}

/// Divides `name` into its stem and its extension.
pub fn split_file_name(name: &str) -> (parts: (String, Option<String>))
    ensures
        parts.0@ == file_stem(name@),
        match parts.1 {
            Some(extension) => file_extension(name@) == Some(extension@),
            None => file_extension(name@) is None,
        },
{
    let length: usize = name.unicode_len();
    let mut end: usize = length;
    while end > 0 && name.get_char(end - 1) != '.'
        invariant
            end <= length,
            length == name@.len(),
            forall|j: int| end <= j < length ==> name@[j] != '.',
        decreases end,
    {
        end = end - 1;
    }
    if end >= 2 {
        let dot: usize = end - 1;
        proof {
            assert(is_last_dot(name@, dot as int));
            assert forall|i: int| 0 < i && is_last_dot(name@, i) implies i == dot by {
                lemma_last_dot_unique(name@, i, dot as int);
            }
            assert(has_extension(name@));
            assert(extension_dot(name@) == dot);
        }
        let stem = name.substring_char(0, dot).to_owned();
        let extension = name.substring_char(end, length).to_owned();
        (stem, Some(extension))
    } else {
        proof {
            assert forall|i: int| 0 < i implies !is_last_dot(name@, i) by {
                if is_last_dot(name@, i) {
                    if end == 1 {
                        lemma_last_dot_unique(name@, i, 0);
                    }
                }
            }
        }
        (name.to_owned(), None)
    }
}

} // verus!
