use vstd::prelude::*;
use crate::bump_level::BumpLevel;

verus! {

/// A specific commit type
#[derive(PartialEq, Eq, Structural, Copy, Clone, Debug)]
pub enum CommitType {
    Breaking,
    Feature,
    Bugfix,
    Other,
    Meta,
}

/// Number of commit types.
pub const NUM_VARIANTS: usize = 5;

/// All commit types in canonical order, from the first to the last.
pub open spec fn all_variants() -> Seq<CommitType> {
    seq![
        CommitType::Breaking,
        CommitType::Feature,
        CommitType::Bugfix,
        CommitType::Other,
        CommitType::Meta,
    ]
}

impl CommitType {
    /// Position of a commit type in the canonical order.
    pub open spec fn position(self) -> int {
        match self {
            CommitType::Breaking => 0,
            CommitType::Feature => 1,
            CommitType::Bugfix => 2,
            CommitType::Other => 3,
            CommitType::Meta => 4,
        }
    }

    /// The commit type right after this one in canonical order, if any.
    pub open spec fn successor(self) -> Option<CommitType> {
        if self.position() + 1 < NUM_VARIANTS {
            Some(all_variants()[self.position() + 1])
        } else {
            None
        }
    }

    /// The commit type right before this one in canonical order, if any.
    pub open spec fn predecessor(self) -> Option<CommitType> {
        if self.position() > 0 {
            Some(all_variants()[self.position() - 1])
        } else {
            None
        }
    }

    /// The emoji that marks a commit of this type: a single glyph.
    pub open spec fn spec_emoji(self) -> Seq<char> {
        match self {
            CommitType::Breaking => seq!['💥'],
            CommitType::Feature => seq!['🎉'],
            CommitType::Bugfix => seq!['🐛'],
            CommitType::Other => seq!['🔥'],
            CommitType::Meta => seq!['🌹'],
        }
    }

    /// The human-readable label of this commit type.
    pub open spec fn spec_description(self) -> Seq<char> {
        match self {
            CommitType::Breaking => "Breaking change"@,
            CommitType::Feature => "New functionality"@,
            CommitType::Bugfix => "Bugfix"@,
            CommitType::Other => "Cleanup / Performance"@,
            CommitType::Meta => "Meta"@,
        }
    }

    /// The semver bump that a commit of this type calls for.
    pub open spec fn spec_bump_level(self) -> BumpLevel {
        match self {
            CommitType::Breaking => BumpLevel::Major,
            CommitType::Feature => BumpLevel::Minor,
            CommitType::Bugfix => BumpLevel::Patch,
            CommitType::Other => BumpLevel::Patch,
            CommitType::Meta => BumpLevel::NoBump,
        }
    }

    /// Return the first commit type (Breaking)
    pub fn first_variant() -> (r: CommitType)
        ensures
            r == CommitType::Breaking,
            r == all_variants()[0],
    {
        CommitType::Breaking
    }

    /// Return the last commit variant (Meta)
    pub fn last_variant() -> (r: CommitType)
        ensures
            r == CommitType::Meta,
            r == all_variants()[NUM_VARIANTS - 1],
    {
        CommitType::Meta
    }

    /// Given a commit type, return the next commit type
    pub fn next_variant(&self) -> (r: Option<CommitType>)
        ensures
            r == self.successor(),
    {
        match *self {
            CommitType::Breaking => Some(CommitType::Feature),
            CommitType::Feature => Some(CommitType::Bugfix),
            CommitType::Bugfix => Some(CommitType::Other),
            CommitType::Other => Some(CommitType::Meta),
            CommitType::Meta => None,
        }
    }

    /// Given a commit type, return the previous commit type
    pub fn prev_variant(&self) -> (r: Option<CommitType>)
        ensures
            r == self.predecessor(),
    {
        match *self {
            CommitType::Breaking => None,
            CommitType::Feature => Some(CommitType::Breaking),
            CommitType::Bugfix => Some(CommitType::Feature),
            CommitType::Other => Some(CommitType::Bugfix),
            CommitType::Meta => Some(CommitType::Other),
        }
    }

    /// Return the emoji for this commit type
    pub fn emoji(&self) -> (r: &'static str)
        ensures
            r@ == self.spec_emoji(),
    {
        proof {
            reveal_strlit("💥");
            reveal_strlit("🎉");
            reveal_strlit("🐛");
            reveal_strlit("🔥");
            reveal_strlit("🌹");
        }
        match *self {
            CommitType::Breaking => "💥",
            CommitType::Feature => "🎉",
            CommitType::Bugfix => "🐛",
            CommitType::Other => "🔥",
            CommitType::Meta => "🌹",
        }
    }

    /// Return the bump level for this commit type
    pub fn bump_level(&self) -> (r: BumpLevel)
        ensures
            r == self.spec_bump_level(),
    {
        match *self {
            CommitType::Breaking => BumpLevel::Major,
            CommitType::Feature => BumpLevel::Minor,
            CommitType::Bugfix => BumpLevel::Patch,
            CommitType::Other => BumpLevel::Patch,
            CommitType::Meta => BumpLevel::NoBump,
        }
    }

    /// Return the description for this commit type
    pub fn description(&self) -> (r: &'static str)
        ensures
            r@ == self.spec_description(),
    {
        match *self {
            CommitType::Breaking => "Breaking change",
            CommitType::Feature => "New functionality",
            CommitType::Bugfix => "Bugfix",
            CommitType::Other => "Cleanup / Performance",
            CommitType::Meta => "Meta",
        }
    }
}

/// The canonical order lists each commit type exactly once: a type stands
/// at its own position, and no two types share a position.
pub proof fn lemma_canonical_order(c: CommitType, d: CommitType)
    ensures
        0 <= c.position() < NUM_VARIANTS,
        all_variants().len() == NUM_VARIANTS,
        all_variants()[c.position()] == c,
        c.position() == d.position() <==> c == d,
{
}

/// Stepping forward and then back, or back and then forward, returns to the
/// commit type one started from, wherever the first step exists.
pub proof fn lemma_next_prev_inverse(c: CommitType)
    ensures
        c.predecessor() is Some ==> c.predecessor()->0.successor() == Some(c),
        c.successor() is Some ==> c.successor()->0.predecessor() == Some(c),
{
}

/// Only the last type has no successor, and only the first has no predecessor.
pub proof fn lemma_ends_of_order(c: CommitType)
    ensures
        c.successor() is None <==> c == CommitType::Meta,
        c.predecessor() is None <==> c == CommitType::Breaking,
{
}

/// Each commit type has its own emoji: no two types share one.
pub proof fn lemma_emoji_identifies_type(c: CommitType, d: CommitType)
    ensures
        c.spec_emoji() == d.spec_emoji() <==> c == d,
{
    if c.spec_emoji() == d.spec_emoji() {
        assert(c.spec_emoji()[0] == d.spec_emoji()[0]);
    }
}

/// Breaking is the one commit type that calls for a major bump; Bugfix and
/// Other both call for a patch bump.
pub proof fn lemma_bump_levels(c: CommitType)
    ensures
        c.spec_bump_level() == BumpLevel::Major <==> c == CommitType::Breaking,
        c.spec_bump_level() == BumpLevel::Patch <==> (c == CommitType::Bugfix
            || c == CommitType::Other),
{
}

} // verus!
