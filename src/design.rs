//! A design's strands and the undoable operations applied to them, with the small
//! descriptors that travel between the design and its views.
use vstd::prelude::*;

use crate::nucl::Nucl;
use crate::strands::{
    cross_cut_result, cut_result, cycle_result, merge_result, put_result, undo_cross_cut_result,
    undo_cut_result, Strand, StrandState, StrandView,
};

verus! {

/// The referential in which one wants to get an element's coordinates.
#[derive(Debug, Clone, Copy, PartialEq, Eq, Structural)]
pub enum Referential {
    World,
    Model,
}

impl Referential {
    pub fn is_world(&self) -> (r: bool)
        ensures
            r == (*self == Referential::World),
    {
        match self {
            Referential::World => true,
            _ => false,
        }
    }
}

/// A helix placed on a grid, at lattice cell `(x, y)`.
#[derive(Debug, Clone, Copy, PartialEq, Eq, Structural)]
pub struct GridHelixDescriptor {
    pub grid_id: usize,
    pub x: isize,
    pub y: isize,
}

/// An element on which an isometry must be applied.
#[derive(Debug, Clone, Copy, PartialEq, Eq, Structural)]
pub enum IsometryTarget {
    /// The view of the whole design
    Design,
    /// A helix of the design
    Helix(u32, bool),
    /// A grid of the design
    Grid(u32),
}

/// What the scaffold of a design is.
#[derive(Debug, Clone, Copy, PartialEq, Eq, Structural)]
pub struct ScaffoldInfo {
    pub id: usize,
    pub shift: Option<usize>,
    pub length: usize,
    pub starting_nucl: Option<Nucl>,
}

/// What applying an operation did: for the edits that change which nucleotides belong
/// to which strand, the strands before and after, which the undo history restores.
#[derive(Debug)]
pub enum OperationResult {
    BigChange(StrandState, StrandState),
    UndoableChange,
    NoChange,
}

/// The undoable edits of strand topology. Each carries what is needed to replay it
/// backwards with `undo` set.
#[derive(Debug)]
pub enum UndoableOp {
    /// Cut strand `s_id`, which was `strand`, right after `nucl`.
    Cut { nucl: Nucl, strand: Strand, undo: bool, s_id: usize },
    /// Join the strand `prime3_id` after the strand `prime5_id`, or close the strand on
    /// itself when both are the same.
    Xover {
        strand_5prime: Strand,
        strand_3prime: Strand,
        prime5_id: usize,
        prime3_id: usize,
        undo: bool,
    },
    /// Cut strand `target_id`, which was `target_strand`, at `nucl` and join strand
    /// `source_id`, which was `source_strand`, to one of its parts in the same step.
    CrossCut {
        source_strand: Strand,
        target_strand: Strand,
        source_id: usize,
        target_id: usize,
        target_3prime: bool,
        nucl: Nucl,
        undo: bool,
    },
    /// Remove strand `strand_id`, which was `strand`.
    RmStrand { strand: Strand, strand_id: usize, undo: bool },
    /// Replace every strand.
    NewStrandState(StrandState),
}

/// A change of a design that its views must hear of. The caller attaches the model
/// matrix to `ModelChanged`.
#[derive(Debug, Clone, Copy, PartialEq, Eq, Structural)]
pub enum DesignNotificationContent {
    /// The model matrix of the design has been modified
    ModelChanged,
    /// The design was modified
    InstanceChanged,
    /// The design was modified so that the views must rebuild what they hold of it
    ViewNeedReset,
}

#[derive(Debug, Clone, Copy, PartialEq, Eq, Structural)]
pub struct DesignNotification {
    pub design_id: usize,
    pub content: DesignNotificationContent,
}

/// What changed since the views last asked.
#[derive(Debug, Clone, Copy, PartialEq, Eq, Structural)]
pub struct UpdateStatus {
    pub view_updated: bool,
    pub view_need_reset: bool,
    pub data_updated: bool,
}

/// One nanostructure: its identifier, its strands and what changed in it since the
/// views last asked.
pub struct Design {
    pub id: usize,
    pub strands: StrandState,
    pub status: UpdateStatus,
    /// The strand that is the scaffold, if one was chosen.
    pub scaffold_id: Option<usize>,
}

impl Design {
    pub fn new(id: usize) -> (r: Design)
        ensures
            r.id == id,
            r.strands@ == Seq::<Option<StrandView>>::empty(),
            r.status == (UpdateStatus { view_updated: false, view_need_reset: false, data_updated: false }),
            r.scaffold_id is None,
    {
        Design {
            id,
            strands: StrandState::new(),
            status: UpdateStatus { view_updated: false, view_need_reset: false, data_updated: false },
            scaffold_id: None,
        }
    }

    /// A notification if the model matrix changed since the last call, which then
    /// reports it no more.
    pub fn view_was_updated(&mut self) -> (r: Option<DesignNotification>)
        ensures
            old(self).status.view_updated ==> r == Some(
                DesignNotification { design_id: old(self).id, content: DesignNotificationContent::ModelChanged },
            ),
            !old(self).status.view_updated ==> r is None,
            final(self).status == (UpdateStatus { view_updated: false, ..old(self).status }),
            final(self).id == old(self).id,
            final(self).strands@ == old(self).strands@,
    {
        if self.status.view_updated {
            self.status.view_updated = false;
            Some(DesignNotification { design_id: self.id, content: DesignNotificationContent::ModelChanged })
        } else {
            None
        }
    }

    /// A notification if the design changed since the last call: a needed reset, which
    /// covers any plain change, or else a plain change. Each change is reported once: a
    /// reset clears both flags.
    pub fn data_was_updated(&mut self) -> (r: Option<DesignNotification>)
        ensures
            old(self).status.view_need_reset ==> r == Some(
                DesignNotification { design_id: old(self).id, content: DesignNotificationContent::ViewNeedReset },
            ) && final(self).status == (UpdateStatus {
                view_need_reset: false,
                data_updated: false,
                ..old(self).status
            }),
            !old(self).status.view_need_reset && old(self).status.data_updated ==> r == Some(
                DesignNotification { design_id: old(self).id, content: DesignNotificationContent::InstanceChanged },
            ) && final(self).status == (UpdateStatus { data_updated: false, ..old(self).status }),
            !old(self).status.view_need_reset && !old(self).status.data_updated ==> r is None
                && final(self).status == old(self).status,
            !final(self).status.view_need_reset && !final(self).status.data_updated,
            final(self).id == old(self).id,
            final(self).strands@ == old(self).strands@,
    {
        if self.status.view_need_reset {
            self.status.view_need_reset = false;
            self.status.data_updated = false;
            Some(DesignNotification { design_id: self.id, content: DesignNotificationContent::ViewNeedReset })
        } else if self.status.data_updated {
            self.status.data_updated = false;
            Some(DesignNotification { design_id: self.id, content: DesignNotificationContent::InstanceChanged })
        } else {
            None
        }
    }

    pub fn get_id(&self) -> (r: usize)
        ensures
            r == self.id,
    {
        self.id
    }

    /// A snapshot of the strands.
    pub fn get_strand_state(&self) -> (r: StrandState)
        ensures
            r@ == self.strands@,
    {
        self.strands.snapshot()
    }

    /// A copy of strand `s_id`, if there is one.
    pub fn get_raw_strand(&self, s_id: usize) -> (r: Option<Strand>)
        ensures
            s_id < self.strands@.len() ==> crate::strands::view_slot(r) == self.strands@[s_id as int],
            s_id >= self.strands@.len() ==> r is None,
    {
        self.strands.get_strand(s_id)
    }

    /// Apply an undoable operation. The edits of strand topology report the strands
    /// before and after; replacing every strand is a plain undoable change.
    pub fn apply_operation(&mut self, op: UndoableOp) -> (r: OperationResult)
        requires
            old(self).strands@.len() < usize::MAX,
        ensures
            final(self).id == old(self).id,
            final(self).scaffold_id == old(self).scaffold_id,
            final(self).status == (UpdateStatus { view_need_reset: true, data_updated: true, ..old(self).status }),
            !(op is NewStrandState) ==> (r matches OperationResult::BigChange(init, after) && init@
                == old(self).strands@ && after@ == final(self).strands@),
            op is NewStrandState ==> r is UndoableChange,
            op matches UndoableOp::Cut { nucl, strand, undo, s_id } ==> final(self).strands@ == if undo {
                undo_cut_result(old(self).strands@, strand@, s_id as int, nucl)
            } else {
                cut_result(old(self).strands@, s_id as int, nucl)
            },
            op matches UndoableOp::Xover { strand_5prime, strand_3prime, prime5_id, prime3_id, undo }
                ==> final(self).strands@ == if prime5_id == prime3_id {
                cycle_result(old(self).strands@, prime5_id as int, !undo)
            } else if undo {
                put_result(
                    put_result(old(self).strands@, prime5_id as int, Some(strand_5prime@)),
                    prime3_id as int,
                    Some(strand_3prime@),
                )
            } else {
                merge_result(old(self).strands@, prime5_id as int, prime3_id as int)
            },
            op matches UndoableOp::CrossCut {
                source_strand,
                target_strand,
                source_id,
                target_id,
                target_3prime,
                nucl,
                undo,
            } ==> final(self).strands@ == if undo {
                undo_cross_cut_result(
                    old(self).strands@,
                    source_strand@,
                    target_strand@,
                    source_id as int,
                    target_id as int,
                    nucl,
                    target_3prime,
                )
            } else {
                cross_cut_result(old(self).strands@, source_id as int, target_id as int, nucl, target_3prime)
            },
            op matches UndoableOp::RmStrand { strand, strand_id, undo } ==> final(self).strands@
                == put_result(
                old(self).strands@,
                strand_id as int,
                if undo {
                    Some(strand@)
                } else {
                    None
                },
            ),
            op matches UndoableOp::NewStrandState(state) ==> final(self).strands@ == state@,
    {
        let init = self.strands.snapshot();
        match op {
            UndoableOp::Cut { nucl, strand, undo, s_id } => {
                if undo {
                    self.strands.undo_split(strand, s_id, &nucl);
                } else {
                    self.strands.split_strand(s_id, &nucl);
                }
            },
            UndoableOp::Xover { strand_5prime, strand_3prime, prime5_id, prime3_id, undo } => {
                if prime5_id == prime3_id {
                    self.strands.make_cycle(prime5_id, !undo);
                } else if undo {
                    self.strands.undo_merge(strand_5prime, strand_3prime, prime5_id, prime3_id);
                } else {
                    self.strands.merge_strands(prime5_id, prime3_id);
                }
            },
            UndoableOp::CrossCut {
                source_strand,
                target_strand,
                source_id,
                target_id,
                target_3prime,
                nucl,
                undo,
            } => {
                if undo {
                    self.strands.undo_cross_cut(
                        source_strand,
                        target_strand,
                        source_id,
                        target_id,
                        &nucl,
                        target_3prime,
                    );
                } else {
                    self.strands.cross_cut(source_id, target_id, &nucl, target_3prime);
                }
            },
            UndoableOp::RmStrand { strand, strand_id, undo } => {
                self.strands.undoable_rm_strand(strand, strand_id, undo);
            },
            UndoableOp::NewStrandState(state) => {
                self.strands = state;
                self.status.view_need_reset = true;
                self.status.data_updated = true;
                return OperationResult::UndoableChange;
            },
        }
        self.status.view_need_reset = true;
        self.status.data_updated = true;
        let after = self.strands.snapshot();
        OperationResult::BigChange(init, after)
    }
}

impl Design {
    /// The color of strand `s_id`, if there is such a strand.
    pub fn get_strand_color(&self, s_id: usize) -> (r: Option<u32>)
        ensures
            s_id < self.strands@.len() && self.strands@[s_id as int] is Some ==> r == Some(
                self.strands@[s_id as int]->0.color,
            ),
            !(s_id < self.strands@.len() && self.strands@[s_id as int] is Some) ==> r is None,
    {
        if s_id < self.strands.strands.len() {
            match &self.strands.strands[s_id] {
                Some(s) => Some(s.color),
                None => None,
            }
        } else {
            None
        }
    }

    /// Give strand `s_id` the color `color`; nothing changes if there is no such strand.
    pub fn change_strand_color(&mut self, s_id: usize, color: u32)
        ensures
            final(self).id == old(self).id,
            final(self).scaffold_id == old(self).scaffold_id,
            s_id < old(self).strands@.len() && old(self).strands@[s_id as int] is Some ==> {
                &&& final(self).strands@ == old(self).strands@.update(
                    s_id as int,
                    Some(
                        StrandView {
                            domains: old(self).strands@[s_id as int]->0.domains,
                            color,
                            circular: old(self).strands@[s_id as int]->0.circular,
                        },
                    ),
                )
                &&& final(self).status == (UpdateStatus { data_updated: true, ..old(self).status })
            },
            !(s_id < old(self).strands@.len() && old(self).strands@[s_id as int] is Some) ==> {
                &&& final(self).strands@ == old(self).strands@
                &&& final(self).status == old(self).status
            },
    {
        if s_id < self.strands.strands.len() {
            let recolored = match &self.strands.strands[s_id] {
                Some(s) => Some(Strand { domains: s.domains.clone(), color, circular: s.circular }),
                None => None,
            };
            match recolored {
                Some(s) => {
                    let ghost before = self.strands@;
                    self.strands.strands.set(s_id, Some(s));
                    assert(self.strands@ =~= before.update(s_id as int, crate::strands::view_slot(Some(s))));
                    self.status.data_updated = true;
                },
                None => {},
            }
        }
    }

    /// The identifiers of the strands there are, in increasing order.
    pub fn get_all_strand_ids(&self) -> (r: Vec<usize>)
        ensures
            forall|i: int| 0 <= i < r@.len() ==> (#[trigger] r@[i]) < self.strands@.len()
                && self.strands@[r@[i] as int] is Some,
            forall|s: int| 0 <= s < self.strands@.len() && (#[trigger] self.strands@[s]) is Some ==> r@.contains(
                s as usize,
            ),
            forall|i: int, j: int| 0 <= i < j < r@.len() ==> r@[i] < r@[j],
    {
        let mut r: Vec<usize> = Vec::new();
        let mut k: usize = 0;
        while k < self.strands.strands.len()
            invariant
                k <= self.strands@.len(),
                forall|i: int| 0 <= i < r@.len() ==> (#[trigger] r@[i]) < k && self.strands@[r@[i] as int] is Some,
                forall|s: int| 0 <= s < k && (#[trigger] self.strands@[s]) is Some ==> r@.contains(s as usize),
                forall|i: int, j: int| 0 <= i < j < r@.len() ==> r@[i] < r@[j],
            decreases self.strands@.len() - k,
        {
            if self.strands.strands[k].is_some() {
                let ghost before = r@;
                r.push(k);
                assert forall|s: int| 0 <= s < k + 1 && (#[trigger] self.strands@[s]) is Some implies r@.contains(
                    s as usize,
                ) by {
                    if s < k {
                        let i = choose|i: int| 0 <= i < before.len() && before[i] == s as usize;
                        assert(r@[i] == s as usize);
                    } else {
                        assert(r@[r@.len() - 1] == s as usize);
                    }
                }
            }
            k = k + 1;
        }
        r
    }

    /// Choose the scaffold strand, or none.
    pub fn set_scaffold_id(&mut self, scaffold_id: Option<usize>)
        ensures
            final(self).scaffold_id == scaffold_id,
            final(self).id == old(self).id,
            final(self).strands@ == old(self).strands@,
            final(self).status == (UpdateStatus { data_updated: true, ..old(self).status }),
    {
        self.scaffold_id = scaffold_id;
        self.status.data_updated = true;
    }

    pub fn scaffold_is_set(&self) -> (r: bool)
        ensures
            r == self.scaffold_id is Some,
    {
        self.scaffold_id.is_some()
    }

    /// Whether strand `s_id` is the scaffold.
    pub fn is_scaffold(&self, s_id: usize) -> (r: bool)
        ensures
            r == (self.scaffold_id == Some(s_id)),
    {
        match self.scaffold_id {
            Some(id) => id == s_id,
            None => false,
        }
    }

    /// The strand whose 3' end is `n`.
    pub fn prime3_of(&self, n: Nucl) -> (r: Option<usize>)
        ensures
            r is Some ==> crate::strands::end_at(self.strands@, r->0 as int, n, true),
            r is None ==> crate::strands::no_end_at(self.strands@, n, true),
    {
        self.strands.prime3_of(&n)
    }

    /// The strand whose 5' end is `n`.
    pub fn prime5_of(&self, n: Nucl) -> (r: Option<usize>)
        ensures
            r is Some ==> crate::strands::end_at(self.strands@, r->0 as int, n, false),
            r is None ==> crate::strands::no_end_at(self.strands@, n, false),
    {
        self.strands.prime5_of(&n)
    }

    /// Identifier of the first strand that holds `n`.
    pub fn get_strand_nucl(&self, n: &Nucl) -> (r: Option<usize>)
        ensures
            r is Some ==> r->0 < self.strands@.len() && self.strands@[r->0 as int] is Some
                && crate::strands::holds(self.strands@[r->0 as int]->0.domains, *n),
            r is None ==> forall|j: int|
                0 <= j < self.strands@.len() && (#[trigger] self.strands@[j]) is Some ==> !crate::strands::holds(
                    self.strands@[j]->0.domains,
                    *n,
                ),
    {
        self.strands.get_strand_id(n)
    }
}

} // verus!
