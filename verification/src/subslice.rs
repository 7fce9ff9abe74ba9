//! Searching a byte string for a contiguous run of bytes.

use vstd::prelude::*;

verus! {

/// `needle` stands in `hay` starting at index `at`.
pub open spec fn occurs_at(hay: Seq<u8>, needle: Seq<u8>, at: int) -> bool {
    &&& 0 <= at
    &&& at + needle.len() <= hay.len()
    &&& hay.subrange(at, at + needle.len()) == needle
}

/// `needle` stands somewhere in `hay` as a contiguous run.
pub open spec fn contains_seq(hay: Seq<u8>, needle: Seq<u8>) -> bool {
    exists|at: int| occurs_at(hay, needle, at)
}

/// A byte string never contains a longer one.
pub proof fn lemma_contains_needs_room(hay: Seq<u8>, needle: Seq<u8>)
    requires
        contains_seq(hay, needle),
    ensures
        needle.len() <= hay.len(),
{
    let at = choose|at: int| occurs_at(hay, needle, at);
    assert(occurs_at(hay, needle, at));
}

/// Every byte string contains itself.
pub proof fn lemma_contains_itself(hay: Seq<u8>)
    ensures
        contains_seq(hay, hay),
{
    assert(hay.subrange(0, hay.len() as int) == hay);
    assert(occurs_at(hay, hay, 0));
}

/// What a byte string contains, it still contains with bytes written before
/// and after it.
pub proof fn lemma_contains_in_longer(
    before: Seq<u8>,
    hay: Seq<u8>,
    after: Seq<u8>,
    needle: Seq<u8>,
)
    requires
        contains_seq(hay, needle),
    ensures
        contains_seq(before + hay + after, needle),
{
    let at = choose|at: int| occurs_at(hay, needle, at);
    let longer = before + hay + after;
    assert(longer.subrange(before.len() + at, before.len() + at + needle.len())
        =~= hay.subrange(at, at + needle.len()));
    assert(occurs_at(longer, needle, before.len() + at));
}

/// Whether `needle` stands in `hay` at index `at`. A run that would reach
/// past the end of `hay` does not stand there.
pub fn matches_at(hay: &[u8], needle: &[u8], at: usize) -> (found: bool)
    ensures
        found == occurs_at(hay@, needle@, at as int),
{
    if needle.len() > hay.len() || at > hay.len() - needle.len() {
        return false;
    }
    let mut k: usize = 0;
    while k < needle.len()
        invariant
            k <= needle.len(),
            at + needle.len() <= hay.len(),
            forall|j: int| 0 <= j < k ==> hay@[at + j] == needle@[j],
        decreases needle.len() - k,
    {
        if hay[at + k] != needle[k] {
            assert(hay@.subrange(at as int, at + needle.len())[k as int] != needle@[k as int]);
            return false;
        }
        k += 1;
    }
    assert(hay@.subrange(at as int, at + needle.len()) =~= needle@);
    true
}

/// Whether `needle` stands somewhere in `hay`. The empty run stands in every
/// byte string.
pub fn contains(hay: &[u8], needle: &[u8]) -> (found: bool)
    ensures
        found == contains_seq(hay@, needle@),
{
    if needle.len() > hay.len() {
        assert forall|at: int| !occurs_at(hay@, needle@, at) by {}
        return false;
    }
    let last: usize = hay.len() - needle.len();
    let mut at: usize = 0;
    loop
        invariant
            last == hay.len() - needle.len(),
            needle.len() <= hay.len(),
            at <= last,
            forall|j: int| 0 <= j < at ==> !occurs_at(hay@, needle@, j),
        decreases last - at,
    {
        if matches_at(hay, needle, at) {
            return true;
        }
        if at == last {
            assert forall|j: int| !occurs_at(hay@, needle@, j) by {}
            return false;
        }
        at += 1;
    }
}

} // verus!
