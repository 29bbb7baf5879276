//! Operations on text that the rest of the library is built from.
//!
//! Every function here is stated over the characters of its arguments:
//! a `&str` or `String` is seen as the `Seq<char>` that `@` gives.

use vstd::prelude::*;
use vstd::string::StrSliceExecFns;
use vstd::string::StringExecFns;

verus! {

/// `text` with every leading repetition of `prefix` taken off.
///
/// An empty `prefix` takes nothing off.
pub open spec fn without_leading(text: Seq<char>, prefix: Seq<char>) -> Seq<char>
    decreases text.len(),
{
    if prefix.len() > 0 && prefix.is_prefix_of(text) {
        without_leading(text.skip(prefix.len() as int), prefix)
    } else {
        text
    }
}

/// The words of `words` in order, with `separator` between each two.
pub open spec fn joined(words: Seq<Seq<char>>, separator: Seq<char>) -> Seq<char>
    decreases words.len(),
{
    if words.len() == 0 {
        Seq::empty()
    } else if words.len() == 1 {
        words[0]
    } else {
        joined(words.drop_last(), separator) + separator + words.last()
    }
}

/// Whether two texts hold the same characters.
pub fn same_text(left: &str, right: &str) -> (same: bool)
    ensures
        same == (left@ == right@),
{
    let left_owned = left.to_owned();
    let right_owned = right.to_owned();
    left_owned == right_owned
}

/// Whether `text` begins with `prefix`.
pub fn starts_with(text: &str, prefix: &str) -> (found: bool)
    ensures
        found == prefix@.is_prefix_of(text@),
{
    let wanted: usize = prefix.unicode_len();
    if text.unicode_len() < wanted {
        return false;
    }
    let mut at: usize = 0;
    while at < wanted
        invariant
            at <= wanted,
            wanted == prefix@.len(),
            wanted <= text@.len(),
            forall|k: int| 0 <= k < at ==> text@[k] == prefix@[k],
        decreases wanted - at,
    {
        if text.get_char(at) != prefix.get_char(at) {
            assert(text@.subrange(0, wanted as int)[at as int] != prefix@[at as int]);
            return false;
        }
        at = at + 1;
    }
    assert(text@.subrange(0, wanted as int) =~= prefix@);
    true
}

/// `text` without its first `count` characters.
pub(crate) fn after(text: &str, count: usize) -> (rest: String)
    requires
        count <= text@.len(),
    ensures
        rest@ == text@.skip(count as int),
{
    let whole: usize = text.unicode_len();
    text.substring_char(count, whole).to_owned()
}

/// `text` with every leading repetition of `prefix` taken off.
pub fn strip_leading(text: &str, prefix: &str) -> (rest: String)
    ensures
        rest@ == without_leading(text@, prefix@),
{
    let width: usize = prefix.unicode_len();
    let mut rest: String = text.to_owned();
    if width == 0 {
        return rest;
    }
    while starts_with(rest.as_str(), prefix)
        invariant
            width == prefix@.len(),
            width > 0,
            without_leading(rest@, prefix@) == without_leading(text@, prefix@),
        decreases rest@.len(),
    {
        rest = after(rest.as_str(), width);
    }
    rest
}

/// `left` followed by `right`.
pub fn appended(left: &str, right: &str) -> (both: String)
    ensures
        both@ == left@ + right@,
{
    left.to_owned().concat(right)
}

/// The words of `words` in order, with `separator` between each two.
pub fn join(words: &Vec<String>, separator: &str) -> (line: String)
    ensures
        line@ == joined(words.deep_view(), separator@),
{
    let mut line: String = String::new();
    let mut at: usize = 0;
    while at < words.len()
        invariant
            at <= words.len(),
            line@ == joined(words.deep_view().take(at as int), separator@),
        decreases words.len() - at,
    {
        let ghost before = words.deep_view().take(at as int);
        let ghost now = words.deep_view().take(at + 1);
        assert(now.drop_last() =~= before);
        assert(now.last() == words@[at as int]@);
        if at > 0 {
            line.append(separator);
        } else {
            assert(line@ + words@[at as int]@ =~= words@[at as int]@);
        }
        line.append(words[at].as_str());
        at = at + 1;
    }
    assert(words.deep_view().take(at as int) =~= words.deep_view());
    line
}

} // verus!
