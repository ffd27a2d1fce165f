//! Lists of path segments, and their comparison segment by segment.

use vstd::prelude::*;

verus! {

/// The segments that a list of strings holds, each as its characters.
pub open spec fn names(strings: Seq<String>) -> Seq<Seq<char>> {
    strings.map_values(|s: String| s@)
}

/// The segment that an optional string holds, if any.
pub open spec fn optional_name(string: Option<String>) -> Option<Seq<char>> {
    match string {
        Some(s) => Some(s@),
        None => None,
    }
}

/// Appending a string to a list appends its characters to the list's segments.
pub proof fn lemma_names_push(strings: Seq<String>, last: String)
    ensures
        names(strings.push(last)) == names(strings).push(last@),
{
    assert(names(strings.push(last)) =~= names(strings).push(last@));
}

/// Copies a list of segments.
pub(crate) fn copy_segments(segments: &Vec<String>) -> (copy: Vec<String>)
    ensures
        names(copy@) == names(segments@),
{
    let mut copy: Vec<String> = Vec::new();
    let mut i: usize = 0;
    while i < segments.len()
        invariant
            i <= segments.len(),
            names(copy@) == names(segments@.take(i as int)),
        decreases segments.len() - i,
    {
        let ghost before = copy@;
        copy.push(segments[i].clone());
        proof {
            assert(segments@.take(i + 1) =~= segments@.take(i as int).push(segments@[i as int]));
            lemma_names_push(before, copy@.last());
            lemma_names_push(segments@.take(i as int), segments@[i as int]);
        }
        i += 1;
    }
    assert(segments@.take(segments.len() as int) =~= segments@);
    copy
}

/// Whether two lists hold the same segments in the same order.
pub(crate) fn same_segments(left: &Vec<String>, right: &Vec<String>) -> (same: bool)
    ensures
        same == (names(left@) == names(right@)),
{
    if left.len() != right.len() {
        assert(names(left@).len() != names(right@).len());
        return false;
    }
    let mut i: usize = 0;
    while i < left.len()
        invariant
            i <= left.len(),
            left.len() == right.len(),
            forall|j: int| 0 <= j < i ==> names(left@)[j] == names(right@)[j],
        decreases left.len() - i,
    {
        if left[i] != right[i] {
            assert(names(left@)[i as int] != names(right@)[i as int]);
            return false;
        }
        i += 1;
    }
    assert(names(left@) =~= names(right@));
    true
}

/// Whether `prefix` holds the first segments of `full`, in the same order.
pub(crate) fn leading_segments(prefix: &Vec<String>, full: &Vec<String>) -> (leading: bool)
    ensures
        leading == names(prefix@).is_prefix_of(names(full@)),
{
    if prefix.len() > full.len() {
        return false;
    }
    let mut i: usize = 0;
    while i < prefix.len()
        invariant
            i <= prefix.len(),
            prefix.len() <= full.len(),
            forall|j: int| 0 <= j < i ==> names(prefix@)[j] == names(full@)[j],
        decreases prefix.len() - i,
    {
        if prefix[i] != full[i] {
            assert(names(full@).subrange(0, prefix.len() as int)[i as int] == names(full@)[i as int]);
            assert(names(prefix@)[i as int] != names(full@)[i as int]);
            return false;
        }
        i += 1;
    }
    assert(names(prefix@) =~= names(full@).subrange(0, prefix.len() as int));
    true
}

} // verus!
