use vstd::prelude::*;

verus! {

/// A nucleotide: the helix it lies on, its signed offset along the helix axis and the
/// strand direction it belongs to.
#[derive(Debug, Clone, Copy, PartialEq, Eq, Hash, Structural)]
pub struct Nucl {
    pub helix: usize,
    pub position: isize,
    pub forward: bool,
}

impl Nucl {
    /// The nucleotide on the other strand at the same place of the same helix.
    pub open spec fn spec_compl(self) -> Nucl {
        Nucl { helix: self.helix, position: self.position, forward: !self.forward }
    }

    pub fn new(helix: usize, position: isize, forward: bool) -> (r: Nucl)
        ensures
            r.helix == helix,
            r.position == position,
            r.forward == forward,
    {
        Nucl { helix, position, forward }
    }

    /// The Watson-Crick complement of `self`.
    pub fn compl(&self) -> (r: Nucl)
        ensures
            r == self.spec_compl(),
            r.helix == self.helix,
            r.position == self.position,
            r.forward == !self.forward,
    {
        Nucl { helix: self.helix, position: self.position, forward: !self.forward }
    }

    /// The nucleotide one step towards lower positions on the same strand.
    pub fn left(&self) -> (r: Nucl)
        requires
            self.position > isize::MIN,
        ensures
            r.helix == self.helix,
            r.position == self.position - 1,
            r.forward == self.forward,
    {
        Nucl { helix: self.helix, position: self.position - 1, forward: self.forward }
    }

    /// The nucleotide one step towards higher positions on the same strand.
    pub fn right(&self) -> (r: Nucl)
        requires
            self.position < isize::MAX,
        ensures
            r.helix == self.helix,
            r.position == self.position + 1,
            r.forward == self.forward,
    {
        Nucl { helix: self.helix, position: self.position + 1, forward: self.forward }
    }
}

/// Taking the complement keeps the helix and the position, flips the direction, and
/// taking it twice gives back the nucleotide one started from.
pub proof fn lemma_compl_involution(n: Nucl)
    ensures
        n.spec_compl().helix == n.helix,
        n.spec_compl().position == n.position,
        n.spec_compl().forward == !n.forward,
        n.spec_compl().spec_compl() == n,
        n.spec_compl() != n,
{
}

} // verus!
