//! The 2D view: its nucleotides, which name helices by their place in the view as well
//! as by their identifier in the design, and the edits that its controller asks for.
use vstd::prelude::*;

use crate::design::{Design, UndoableOp};
use crate::nucl::Nucl;
use crate::strands::{holds, xover_pair, Strand, StrandView};

verus! {

/// A helix of the 2D view: its row in the view and its identifier in the design.
#[derive(Debug, Clone, Copy, PartialEq, Eq, Hash, Structural)]
pub struct FlatHelix {
    pub flat: usize,
    pub real: usize,
}

/// A nucleotide as the 2D view names it.
#[derive(Debug, Clone, Copy, PartialEq, Eq, Hash, Structural)]
pub struct FlatNucl {
    pub helix: FlatHelix,
    pub position: isize,
    pub forward: bool,
}

impl FlatNucl {
    pub open spec fn spec_to_real(self) -> Nucl {
        Nucl { helix: self.helix.real, position: self.position, forward: self.forward }
    }

    /// The same nucleotide named by the design's helix identifier.
    pub fn to_real(&self) -> (r: Nucl)
        ensures
            r == self.spec_to_real(),
    {
        Nucl { helix: self.helix.real, position: self.position, forward: self.forward }
    }
}

impl FlatNucl {
    /// The next nucleotide towards the 3' end of its strand.
    pub fn prime3(&self) -> (r: FlatNucl)
        requires
            self.forward ==> self.position < isize::MAX,
            !self.forward ==> self.position > isize::MIN,
        ensures
            r.helix == self.helix,
            r.forward == self.forward,
            r.position == if self.forward {
                self.position + 1
            } else {
                self.position - 1
            },
    {
        let position = if self.forward { self.position + 1 } else { self.position - 1 };
        FlatNucl { helix: self.helix, position, forward: self.forward }
    }

    /// The next nucleotide towards the 5' end of its strand.
    pub fn prime5(&self) -> (r: FlatNucl)
        requires
            self.forward ==> self.position > isize::MIN,
            !self.forward ==> self.position < isize::MAX,
        ensures
            r.helix == self.helix,
            r.forward == self.forward,
            r.position == if self.forward {
                self.position - 1
            } else {
                self.position + 1
            },
    {
        let position = if self.forward { self.position - 1 } else { self.position + 1 };
        FlatNucl { helix: self.helix, position, forward: self.forward }
    }
}

/// Whether both neighbours used by a double suggestion exist as positions.
pub open spec fn has_neighbours(n: FlatNucl, m: FlatNucl) -> bool {
    (n.forward ==> n.position < isize::MAX) && (!n.forward ==> n.position > isize::MIN) && (m.forward
        ==> m.position > isize::MIN) && (!m.forward ==> m.position < isize::MAX)
}

/// The next nucleotide towards the 3' end of `n`'s strand.
pub open spec fn spec_prime3(n: FlatNucl) -> FlatNucl {
    FlatNucl {
        helix: n.helix,
        position: if n.forward {
            (n.position + 1) as isize
        } else {
            (n.position - 1) as isize
        },
        forward: n.forward,
    }
}

/// The next nucleotide towards the 5' end of `n`'s strand.
pub open spec fn spec_prime5(n: FlatNucl) -> FlatNucl {
    FlatNucl {
        helix: n.helix,
        position: if n.forward {
            (n.position - 1) as isize
        } else {
            (n.position + 1) as isize
        },
        forward: n.forward,
    }
}

/// The cross-overs to request, between nucleotides named by their design helix, when
/// a suggested cross-over from `nucl` to `suggestion` is followed: that one, and with
/// `double` also the one between the next nucleotide towards the 3' end of `nucl` and
/// the next towards the 5' end of `suggestion`. No suggestion, no request.
pub open spec fn suggestion_requests(nucl: FlatNucl, suggestion: Option<FlatNucl>, double: bool) -> Seq<
    (Nucl, Nucl),
> {
    match suggestion {
        None => seq![],
        Some(m) => if double && has_neighbours(nucl, m) {
            seq![
                (nucl.spec_to_real(), m.spec_to_real()),
                (spec_prime3(nucl).spec_to_real(), spec_prime5(m).spec_to_real()),
            ]
        } else {
            seq![(nucl.spec_to_real(), m.spec_to_real())]
        },
    }
}

pub fn following_suggestion(nucl: FlatNucl, suggestion: Option<FlatNucl>, double: bool) -> (r: Vec<
    (Nucl, Nucl),
>)
    ensures
        r@ == suggestion_requests(nucl, suggestion, double),
{
    let mut r: Vec<(Nucl, Nucl)> = Vec::new();
    match suggestion {
        Some(other) => {
            r.push((nucl.to_real(), other.to_real()));
            if double {
                let fits = (if nucl.forward { nucl.position < isize::MAX } else { nucl.position > isize::MIN })
                    && (if other.forward { other.position > isize::MIN } else { other.position < isize::MAX });
                if fits {
                    let a = nucl.prime3();
                    let b = other.prime5();
                    assert(a == spec_prime3(nucl));
                    assert(b == spec_prime5(other));
                    r.push((a.to_real(), b.to_real()));
                }
            }
        },
        None => {},
    }
    assert(r@ =~= suggestion_requests(nucl, suggestion, double));
    r
}

/// What a click in the 2D view lands on.
#[derive(Debug, Clone, Copy, PartialEq, Eq, Structural)]
pub enum ClickResult {
    Nucl(FlatNucl),
    CircleWidget { translation_pivot: FlatNucl },
    Nothing,
}

/// The requests of the 2D controller that edit strands.
#[derive(Debug, Clone, Copy, PartialEq, Eq, Structural)]
pub enum Consequence {
    Xover(FlatNucl, FlatNucl),
    Cut(FlatNucl),
    RmStrand(FlatNucl),
    CutCross(FlatNucl, FlatNucl),
    FollowingSuggestion(FlatNucl, bool),
}

/// What the view sends on for a request.
pub enum FlatOperation {
    Nothing,
    Undoable(UndoableOp),
    /// Ask for these cross-overs, each from its first nucleotide to its second.
    XoverRequests(Vec<(Nucl, Nucl)>),
}

/// Strand `s_id` is the first strand that holds `n`.
pub open spec fn strand_holding(st: Seq<Option<StrandView>>, n: Nucl, s_id: int) -> bool {
    &&& 0 <= s_id < st.len() && st[s_id] is Some && holds(st[s_id]->0.domains, n)
    &&& forall|j: int| 0 <= j < s_id && (#[trigger] st[j]) is Some ==> !holds(st[j]->0.domains, n)
}

pub open spec fn no_strand_holds(st: Seq<Option<StrandView>>, n: Nucl) -> bool {
    forall|j: int| 0 <= j < st.len() && (#[trigger] st[j]) is Some ==> !holds(st[j]->0.domains, n)
}

/// Turn a request of the 2D controller into the operation to record. `cross_cut` is
/// what the design found for a cross-cut between the two nucleotides of a `CutCross`:
/// the source strand, the target strand and whether the target keeps its 3' half.
/// A cross-cut between two nucleotides of one helix is refused. `suggestion` is the
/// cross-over partner suggested for the nucleotide of a `FollowingSuggestion`.
pub fn read_consequence(
    consequence: Consequence,
    design: &Design,
    cross_cut: Option<(usize, usize, bool)>,
    suggestion: Option<FlatNucl>,
) -> (r: FlatOperation)
    ensures
        consequence matches Consequence::FollowingSuggestion(n, double) ==> (r matches FlatOperation::XoverRequests(
            v,
        ) && v@ == suggestion_requests(n, suggestion, double)),
        consequence matches Consequence::Xover(a, b) ==> (r is Nothing || (r matches FlatOperation::Undoable(
            UndoableOp::Xover { strand_5prime, strand_3prime, prime5_id, prime3_id, undo },
        ) && !undo && xover_pair(design.strands@, a.spec_to_real(), b.spec_to_real(), (prime5_id, prime3_id))
            && Some(strand_5prime@) == design.strands@[prime5_id as int] && Some(strand_3prime@)
            == design.strands@[prime3_id as int])),
        consequence matches Consequence::Xover(a, b) ==> (design.strands.spec_can_cross_to(
            a.spec_to_real(),
            b.spec_to_real(),
        ) ==> r is Undoable),
        consequence matches Consequence::Cut(n) ==> {
            &&& no_strand_holds(design.strands@, n.spec_to_real()) ==> r is Nothing
            &&& !no_strand_holds(design.strands@, n.spec_to_real()) ==> (r matches FlatOperation::Undoable(
                UndoableOp::Cut { nucl, strand, undo, s_id },
            ) && nucl == n.spec_to_real() && !undo && strand_holding(
                design.strands@,
                nucl,
                s_id as int,
            ) && Some(strand@) == design.strands@[s_id as int])
        },
        consequence matches Consequence::RmStrand(n) ==> {
            &&& no_strand_holds(design.strands@, n.spec_to_real()) ==> r is Nothing
            &&& !no_strand_holds(design.strands@, n.spec_to_real()) ==> (r matches FlatOperation::Undoable(
                UndoableOp::RmStrand { strand, strand_id, undo },
            ) && !undo && strand_holding(design.strands@, n.spec_to_real(), strand_id as int)
                && Some(strand@) == design.strands@[strand_id as int])
        },
        consequence matches Consequence::CutCross(from, to) ==> {
            &&& from.helix == to.helix ==> r is Nothing
            &&& !(r matches FlatOperation::Undoable(op) && !(op is CrossCut)) 
            &&& cross_cut is None ==> r is Nothing
            &&& (from.helix != to.helix && cross_cut is Some && (cross_cut->0).0 < design.strands@.len()
                && (cross_cut->0).1 < design.strands@.len() && design.strands@[(cross_cut->0).0 as int] is Some
                && design.strands@[(cross_cut->0).1 as int] is Some) ==> (r matches FlatOperation::Undoable(
                UndoableOp::CrossCut {
                    source_strand,
                    target_strand,
                    source_id,
                    target_id,
                    target_3prime,
                    nucl,
                    undo,
                },
            ) && !undo && source_id == (cross_cut->0).0 && target_id == (cross_cut->0).1 && target_3prime == (
            cross_cut->0).2 && nucl == to.spec_to_real() && Some(source_strand@)
                == design.strands@[source_id as int] && Some(target_strand@)
                == design.strands@[target_id as int])
        },
{
    match consequence {
        Consequence::FollowingSuggestion(n, double) => FlatOperation::XoverRequests(
            following_suggestion(n, suggestion, double),
        ),
        Consequence::Xover(a, b) => {
            match design.strands.xover_ends(&a.to_real(), &b.to_real()) {
                Some((prime5_id, prime3_id)) => {
                    match (design.strands.get_strand(prime5_id), design.strands.get_strand(prime3_id)) {
                        (Some(strand_5prime), Some(strand_3prime)) => FlatOperation::Undoable(
                            UndoableOp::Xover {
                                strand_5prime,
                                strand_3prime,
                                prime5_id,
                                prime3_id,
                                undo: false,
                            },
                        ),
                        _ => FlatOperation::Nothing,
                    }
                },
                None => FlatOperation::Nothing,
            }
        },
        Consequence::Cut(n) => {
            let nucl = n.to_real();
            match design.strands.get_strand_id(&nucl) {
                Some(s_id) => match design.strands.get_strand(s_id) {
                    Some(strand) => FlatOperation::Undoable(
                        UndoableOp::Cut { nucl, strand, undo: false, s_id },
                    ),
                    None => FlatOperation::Nothing,
                },
                None => FlatOperation::Nothing,
            }
        },
        Consequence::RmStrand(n) => {
            let nucl = n.to_real();
            match design.strands.get_strand_id(&nucl) {
                Some(strand_id) => match design.strands.get_strand(strand_id) {
                    Some(strand) => FlatOperation::Undoable(
                        UndoableOp::RmStrand { strand, strand_id, undo: false },
                    ),
                    None => FlatOperation::Nothing,
                },
                None => FlatOperation::Nothing,
            }
        },
        Consequence::CutCross(from, to) => {
            if from.helix != to.helix {
                match cross_cut {
                    Some((source_id, target_id, target_3prime)) => {
                        match (design.strands.get_strand(source_id), design.strands.get_strand(target_id)) {
                            (Some(source_strand), Some(target_strand)) => FlatOperation::Undoable(
                                UndoableOp::CrossCut {
                                    source_strand,
                                    target_strand,
                                    source_id,
                                    target_id,
                                    target_3prime,
                                    nucl: to.to_real(),
                                    undo: false,
                                },
                            ),
                            _ => FlatOperation::Nothing,
                        }
                    },
                    None => FlatOperation::Nothing,
                }
            } else {
                FlatOperation::Nothing
            }
        },
    }
}

} // verus!
