//! Strings and sequences: the small vocabulary that the other modules share.

use vstd::prelude::*;
use vstd::string::StringExecFns;

verus! {

/// The element-wise views of a sequence of values.
pub open spec fn views<T: View>(s: Seq<T>) -> Seq<T::V> {
    Seq::new(s.len(), |i: int| s[i]@)
}

/// Appending a value appends its view.
pub proof fn lemma_views_push<T: View>(s: Seq<T>, x: T)
    ensures
        views(s.push(x)) == views(s).push(x@),
{
    assert(views(s.push(x)) =~= views(s).push(x@));
}

/// No value occurs at two places of the sequence.
pub open spec fn no_duplicates<A>(s: Seq<A>) -> bool {
    forall|i: int, j: int| 0 <= i < j < s.len() ==> s[i] != s[j]
}

/// The texts of a sequence, one after the other.
pub open spec fn concat_all(parts: Seq<Seq<char>>) -> Seq<char>
    decreases parts.len(),
{
    if parts.len() == 0 {
        Seq::empty()
    } else {
        concat_all(parts.drop_last()) + parts.last()
    }
}

/// Joining after one more part appends that part.
pub proof fn lemma_concat_all_push(parts: Seq<Seq<char>>, part: Seq<char>)
    ensures
        concat_all(parts.push(part)) == concat_all(parts) + part,
{
    assert(parts.push(part).drop_last() =~= parts);
}

/// Whether two string slices hold the same characters.
pub fn str_eq(a: &str, b: &str) -> (same: bool)
    ensures
        same == (a@ == b@),
{
    let left = String::from_str(a);
    let right = String::from_str(b);
    left == right
}

/// The text `a` followed by the text `b`.
pub fn concat(a: &str, b: &str) -> (joined: String)
    ensures
        joined@ == a@ + b@,
{
    String::from_str(a).concat(b)
}

/// Whether `needle` is one of the strings of `haystack`.
pub fn contains_str(haystack: &Vec<String>, needle: &str) -> (found: bool)
    ensures
        found == views(haystack@).contains(needle@),
{
    let mut i: usize = 0;
    while i < haystack.len()
        invariant
            i <= haystack.len(),
            forall|j: int| 0 <= j < i ==> views(haystack@)[j] != needle@,
        decreases haystack.len() - i,
    {
        if str_eq(haystack[i].as_str(), needle) {
            assert(views(haystack@)[i as int] == needle@);
            return true;
        }
        i += 1;
    }
    false
}

/// The texts of `parts`, one after the other.
pub fn concat_strings(parts: &Vec<String>) -> (joined: String)
    ensures
        joined@ == concat_all(views(parts@)),
{
    let mut joined = String::new();
    let mut i: usize = 0;
    while i < parts.len()
        invariant
            i <= parts.len(),
            joined@ == concat_all(views(parts@).take(i as int)),
        decreases parts.len() - i,
    {
        proof {
            let done = views(parts@).take(i as int);
            assert(views(parts@).take(i + 1) =~= done.push(parts@[i as int]@));
            lemma_concat_all_push(done, parts@[i as int]@);
        }
        joined.append(parts[i].as_str());
        i += 1;
    }
    assert(views(parts@).take(parts.len() as int) =~= views(parts@));
    joined
}

} // verus!
