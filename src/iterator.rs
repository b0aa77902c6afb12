use vstd::prelude::*;
use crate::commit_type::{CommitType, NUM_VARIANTS, all_variants};

verus! {

/// Iterator over the different commit types
///
/// A single-pass cursor: it stands at the commit type it yields next, or
/// holds nothing once the last type has been yielded.
pub struct CommitTypeIterator {
    current: Option<CommitType>,
}

/// What a cursor over the sequence `s` yields on its next step.
pub open spec fn pull(s: Seq<CommitType>) -> Option<CommitType> {
    if s.len() == 0 {
        None
    } else {
        Some(s[0])
    }
}

/// What a cursor over the sequence `s` has left after its next step.
pub open spec fn rest(s: Seq<CommitType>) -> Seq<CommitType> {
    if s.len() == 0 {
        s
    } else {
        s.drop_first()
    }
}

/// What a cursor over the sequence `s` has left after `n` steps.
pub open spec fn rest_after(s: Seq<CommitType>, n: nat) -> Seq<CommitType>
    decreases n,
{
    if n == 0 {
        s
    } else {
        rest(rest_after(s, (n - 1) as nat))
    }
}

impl View for CommitTypeIterator {
    /// The commit types still to be yielded, in the order they will come.
    type V = Seq<CommitType>;

    closed spec fn view(&self) -> Seq<CommitType> {
        match self.current {
            Some(c) => all_variants().subrange(c.position(), NUM_VARIANTS as int),
            None => Seq::empty(),
        }
    }
}

impl CommitType {
    /// Return an iterator over all commit types
    pub fn iter_variants() -> (r: CommitTypeIterator)
        ensures
            r@ == all_variants(),
    {
        let r = CommitTypeIterator { current: Some(CommitType::first_variant()) };
        assert(r@ =~= all_variants());
        r
    }
}

impl CommitTypeIterator {
    /// Yield the commit type the cursor stands at and move on to the next
    /// one; once every type has been yielded, every call yields nothing.
    pub fn next(&mut self) -> (r: Option<CommitType>)
        ensures
            r == pull(old(self)@),
            final(self)@ == rest(old(self)@),
    {
        match self.current {
            Some(c) => {
                self.current = c.next_variant();
                assert(self@ =~= rest(old(self)@));
                Some(c)
            },
            None => None,
        }
    }

    /// Bounds on the number of commit types still to be yielded; both are
    /// exact.
    pub fn size_hint(&self) -> (r: (usize, Option<usize>))
        ensures
            r.0 == self@.len(),
            r.1 == Some(self@.len() as usize),
    {
        match self.current {
            Some(CommitType::Breaking) => (5, Some(5)),
            Some(CommitType::Feature) => (4, Some(4)),
            Some(CommitType::Bugfix) => (3, Some(3)),
            Some(CommitType::Other) => (2, Some(2)),
            Some(CommitType::Meta) => (1, Some(1)),
            None => (0, Some(0)),
        }
    }

    /// The number of commit types still to be yielded.
    pub fn len(&self) -> (r: usize)
        ensures
            r == self@.len(),
    {
        let (lower, _) = self.size_hint();
        lower
    }
}

/// The cursor's view is always a tail of the canonical order.
pub proof fn lemma_view_is_tail(it: CommitTypeIterator)
    ensures
        it@.len() <= NUM_VARIANTS,
        it@ == all_variants().subrange(NUM_VARIANTS - it@.len(), NUM_VARIANTS as int),
{
}

/// A fresh cursor yields every commit type once, in canonical order, from
/// Breaking to Meta, and after those five steps yields nothing ever again.
pub proof fn lemma_fresh_iteration(n: nat)
    ensures
        all_variants() == seq![
            CommitType::Breaking,
            CommitType::Feature,
            CommitType::Bugfix,
            CommitType::Other,
            CommitType::Meta,
        ],
        n < NUM_VARIANTS ==> pull(rest_after(all_variants(), n)) == Some(all_variants()[n as int]),
        n >= NUM_VARIANTS ==> pull(rest_after(all_variants(), n)) is None,
{
    lemma_rest_after_is_skip(all_variants(), n);
}

proof fn lemma_rest_after_is_skip(s: Seq<CommitType>, n: nat)
    ensures
        n <= s.len() ==> rest_after(s, n) == s.skip(n as int),
        n > s.len() ==> rest_after(s, n).len() == 0,
    decreases n,
{
    if n > 0 {
        lemma_rest_after_is_skip(s, (n - 1) as nat);
        let prev = rest_after(s, (n - 1) as nat);
        if n <= s.len() {
            assert(rest(prev) =~= s.skip(n as int));
        }
    }
}

} // verus!
