use vstd::prelude::*;

verus! {

/// A semver bump level
#[derive(PartialEq, Eq, Structural, Copy, Clone, Debug)]
pub enum BumpLevel {
    Major,
    Minor,
    Patch,
    /// No release is called for; its name is "None".
    NoBump,
}

impl BumpLevel {
    /// The name of a bump level: its own identifier.
    pub open spec fn spec_name(self) -> Seq<char> {
        match self {
            BumpLevel::Major => "Major"@,
            BumpLevel::Minor => "Minor"@,
            BumpLevel::Patch => "Patch"@,
            BumpLevel::NoBump => "None"@,
        }
    }

    /// Return the name of this bump level
    pub fn name(&self) -> (r: &'static str)
        ensures
            r@ == self.spec_name(),
    {
        match *self {
            BumpLevel::Major => "Major",
            BumpLevel::Minor => "Minor",
            BumpLevel::Patch => "Patch",
            BumpLevel::NoBump => "None",
        }
    }
}

/// Distinct bump levels have distinct names, so a name identifies its level.
pub proof fn lemma_name_identifies_level(a: BumpLevel, b: BumpLevel)
    ensures
        a.spec_name() == b.spec_name() <==> a == b,
{
    reveal_strlit("Major");
    reveal_strlit("Minor");
    reveal_strlit("Patch");
    reveal_strlit("None");
    if a.spec_name() == b.spec_name() {
        // the first two characters already tell the four names apart
        assert(a.spec_name()[0] == b.spec_name()[0]);
        assert(a.spec_name()[1] == b.spec_name()[1]);
    }
}

} // verus!
