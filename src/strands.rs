//! Strand topology: which nucleotides belong to which strand, and the undoable edits
//! that cut, join, close and remove strands.
use vstd::prelude::*;

use crate::nucl::Nucl;

verus! {

/// A run of a strand: the nucleotides `start..end` of one direction of a helix, or an
/// unpaired loop-out of a given number of bases.
#[derive(Debug, Clone, Copy, PartialEq, Eq, Structural)]
pub enum Domain {
    HelixDomain { helix: usize, start: isize, end: isize, forward: bool },
    Insertion(usize),
}

impl Domain {
    pub open spec fn spec_contains(self, n: Nucl) -> bool {
        match self {
            Domain::HelixDomain { helix, start, end, forward } => helix == n.helix && forward
                == n.forward && start <= n.position && n.position < end,
            Domain::Insertion(_) => false,
        }
    }

    pub fn contains(&self, n: &Nucl) -> (r: bool)
        ensures
            r == self.spec_contains(*n),
    {
        match self {
            Domain::HelixDomain { helix, start, end, forward } => *helix == n.helix && *forward
                == n.forward && *start <= n.position && n.position < *end,
            Domain::Insertion(_) => false,
        }
    }

    /// The part of the domain from its 5' end up to and including `n`.
    pub open spec fn prime5_part(self, n: Nucl) -> Domain {
        match self {
            Domain::HelixDomain { helix, start, end, forward } => if forward {
                Domain::HelixDomain { helix, start, end: (n.position + 1) as isize, forward }
            } else {
                Domain::HelixDomain { helix, start: n.position, end, forward }
            },
            Domain::Insertion(l) => Domain::Insertion(l),
        }
    }

    /// Whether anything of the domain lies past `n` towards its 3' end.
    pub open spec fn has_prime3_part(self, n: Nucl) -> bool {
        match self {
            Domain::HelixDomain { start, end, forward, .. } => if forward {
                n.position + 1 < end
            } else {
                start < n.position
            },
            Domain::Insertion(_) => false,
        }
    }

    /// The part of the domain strictly past `n` towards its 3' end.
    pub open spec fn prime3_part(self, n: Nucl) -> Domain {
        match self {
            Domain::HelixDomain { helix, start, end, forward } => if forward {
                Domain::HelixDomain { helix, start: (n.position + 1) as isize, end, forward }
            } else {
                Domain::HelixDomain { helix, start, end: n.position, forward }
            },
            Domain::Insertion(l) => Domain::Insertion(l),
        }
    }

    fn split_at(&self, n: &Nucl) -> (r: (Domain, Option<Domain>))
        requires
            self.spec_contains(*n),
        ensures
            r.0 == self.prime5_part(*n),
            self.has_prime3_part(*n) ==> r.1 == Some(self.prime3_part(*n)),
            !self.has_prime3_part(*n) ==> r.1 == None::<Domain>,
    {
        match self {
            Domain::HelixDomain { helix, start, end, forward } => {
                if *forward {
                    let left = Domain::HelixDomain {
                        helix: *helix,
                        start: *start,
                        end: n.position + 1,
                        forward: *forward,
                    };
                    let right = if n.position + 1 < *end {
                        Some(
                            Domain::HelixDomain {
                                helix: *helix,
                                start: n.position + 1,
                                end: *end,
                                forward: *forward,
                            },
                        )
                    } else {
                        None
                    };
                    (left, right)
                } else {
                    let left = Domain::HelixDomain {
                        helix: *helix,
                        start: n.position,
                        end: *end,
                        forward: *forward,
                    };
                    let right = if *start < n.position {
                        Some(
                            Domain::HelixDomain {
                                helix: *helix,
                                start: *start,
                                end: n.position,
                                forward: *forward,
                            },
                        )
                    } else {
                        None
                    };
                    (left, right)
                }
            },
            Domain::Insertion(l) => (Domain::Insertion(*l), None),
        }
    }
}

/// A strand: its domains from 5' to 3', its display color, and whether its 3' end is
/// joined to its own 5' end.
#[derive(Debug)]
pub struct Strand {
    pub domains: Vec<Domain>,
    pub color: u32,
    pub circular: bool,
}

pub struct StrandView {
    pub domains: Seq<Domain>,
    pub color: u32,
    pub circular: bool,
}

impl View for Strand {
    type V = StrandView;

    open spec fn view(&self) -> StrandView {
        StrandView { domains: self.domains@, color: self.color, circular: self.circular }
    }
}

/// Index of the first domain of `ds` that holds `n`.
pub open spec fn is_first_domain(ds: Seq<Domain>, n: Nucl, i: int) -> bool {
    0 <= i < ds.len() && ds[i].spec_contains(n) && forall|j: int|
        0 <= j < i ==> !(#[trigger] ds[j]).spec_contains(n)
}

pub open spec fn holds(ds: Seq<Domain>, n: Nucl) -> bool {
    exists|i: int| 0 <= i < ds.len() && (#[trigger] ds[i]).spec_contains(n)
}

/// The domains of the 5' half of a cut after `n`, which lies in domain `i`.
pub open spec fn prime5_half(ds: Seq<Domain>, i: int, n: Nucl) -> Seq<Domain> {
    ds.subrange(0, i).push(ds[i].prime5_part(n))
}

/// The domains of the 3' half of a cut after `n`, which lies in domain `i`.
pub open spec fn prime3_half(ds: Seq<Domain>, i: int, n: Nucl) -> Seq<Domain> {
    if ds[i].has_prime3_part(n) {
        seq![ds[i].prime3_part(n)] + ds.subrange(i + 1, ds.len() as int)
    } else {
        ds.subrange(i + 1, ds.len() as int)
    }
}

impl Strand {
    /// Whether cutting this strand after `n` makes a new strand.
    pub fn cut_adds(&self, n: &Nucl) -> (r: bool)
        ensures
            r == cut_adds_strand(self@, *n),
    {
        if self.circular {
            false
        } else {
            match self.domain_of(n) {
                Some(i) => {
                    proof {
                        lemma_first_domain_unique(self.domains@, *n, i as int);
                    }
                    let (_, d3) = self.domains[i].split_at(n);
                    d3.is_some() || i < self.domains.len() - 1
                },
                None => false,
            }
        }
    }

    /// A copy with the same domains, color and circularity.
    pub fn duplicate(&self) -> (r: Strand)
        ensures
            r@ == self@,
    {
        Strand { domains: self.domains.clone(), color: self.color, circular: self.circular }
    }

    /// Index of the first domain that holds `n`.
    pub fn domain_of(&self, n: &Nucl) -> (r: Option<usize>)
        ensures
            r is Some ==> is_first_domain(self.domains@, *n, r->0 as int),
            r is None <==> !holds(self.domains@, *n),
    {
        let mut i: usize = 0;
        while i < self.domains.len()
            invariant
                i <= self.domains@.len(),
                forall|j: int| 0 <= j < i ==> !(#[trigger] self.domains@[j]).spec_contains(*n),
            decreases self.domains@.len() - i,
        {
            if self.domains[i].contains(n) {
                return Some(i);
            }
            i = i + 1;
        }
        None
    }
}

fn copy_range(ds: &Vec<Domain>, from: usize, to: usize, out: &mut Vec<Domain>)
    requires
        from <= to <= ds@.len(),
    ensures
        final(out)@ == old(out)@ + ds@.subrange(from as int, to as int),
{
    let mut k: usize = from;
    while k < to
        invariant
            from <= k <= to <= ds@.len(),
            out@ == old(out)@ + ds@.subrange(from as int, k as int),
        decreases to - k,
    {
        out.push(ds[k]);
        assert(ds@.subrange(from as int, k + 1) == ds@.subrange(from as int, k as int).push(
            ds@[k as int],
        ));
        k = k + 1;
    }
}

pub open spec fn view_slot(o: Option<Strand>) -> Option<StrandView> {
    match o {
        Some(s) => Some(s@),
        None => None,
    }
}

/// All strands of a design, by identifier: slot `i` holds strand `i`, or nothing once
/// that strand has been removed or merged into another.
#[derive(Debug)]
pub struct StrandState {
    pub strands: Vec<Option<Strand>>,
}

impl View for StrandState {
    type V = Seq<Option<StrandView>>;

    open spec fn view(&self) -> Seq<Option<StrandView>> {
        self.strands@.map_values(|o: Option<Strand>| view_slot(o))
    }
}

/// The strands after cutting strand `s_id`, which holds `n` in domain `i`, right after `n`.
/// A linear strand keeps its 5' half and its 3' half becomes a new strand of the same
/// color; a circular strand is opened into one linear strand that starts right after
/// `n`. Cutting a linear strand at its 3' end changes nothing.
pub open spec fn cut_spec(st: Seq<Option<StrandView>>, s_id: int, i: int, n: Nucl) -> Seq<
    Option<StrandView>,
> {
    let s = st[s_id]->0;
    let left = prime5_half(s.domains, i, n);
    let right = prime3_half(s.domains, i, n);
    if s.circular {
        st.update(s_id, Some(StrandView { domains: right + left, color: s.color, circular: false }))
    } else if right.len() == 0 {
        st
    } else {
        st.update(s_id, Some(StrandView { domains: left, color: s.color, circular: false })).push(
            Some(StrandView { domains: right, color: s.color, circular: false }),
        )
    }
}



/// The first domain of `ds` that holds `n`.
pub open spec fn first_domain(ds: Seq<Domain>, n: Nucl) -> int {
    choose|i: int| is_first_domain(ds, n, i)
}

pub proof fn lemma_first_domain_unique(ds: Seq<Domain>, n: Nucl, i: int)
    requires
        is_first_domain(ds, n, i),
    ensures
        first_domain(ds, n) == i,
{
    let k = first_domain(ds, n);
    assert(is_first_domain(ds, n, k));
    if k < i {
        assert(!ds[k].spec_contains(n));
    } else if i < k {
        assert(!ds[i].spec_contains(n));
    }
}

proof fn lemma_first_below(ds: Seq<Domain>, n: Nucl, w: int)
    requires
        0 <= w < ds.len(),
        ds[w].spec_contains(n),
    ensures
        exists|i: int| is_first_domain(ds, n, i),
    decreases w,
{
    if forall|j: int| 0 <= j < w ==> !(#[trigger] ds[j]).spec_contains(n) {
        assert(is_first_domain(ds, n, w));
    } else {
        let j = choose|j: int| 0 <= j < w && (#[trigger] ds[j]).spec_contains(n);
        lemma_first_below(ds, n, j);
    }
}

pub proof fn lemma_holds_first_domain(ds: Seq<Domain>, n: Nucl)
    requires
        holds(ds, n),
    ensures
        is_first_domain(ds, n, first_domain(ds, n)),
{
    let w = choose|i: int| 0 <= i < ds.len() && (#[trigger] ds[i]).spec_contains(n);
    lemma_first_below(ds, n, w);
}

pub open spec fn strand_holds(st: Seq<Option<StrandView>>, s_id: int, n: Nucl) -> bool {
    0 <= s_id < st.len() && st[s_id] is Some && holds(st[s_id]->0.domains, n)
}

/// The strands after the cut of strand `s_id` after `n`: see `cut_spec`; nothing changes
/// when that strand does not hold `n`.
pub open spec fn cut_result(st: Seq<Option<StrandView>>, s_id: int, n: Nucl) -> Seq<
    Option<StrandView>,
> {
    if strand_holds(st, s_id, n) {
        cut_spec(st, s_id, first_domain(st[s_id]->0.domains, n), n)
    } else {
        st
    }
}

/// Whether cutting `s` after `n` makes a new strand.
pub open spec fn cut_adds_strand(s: StrandView, n: Nucl) -> bool {
    !s.circular && holds(s.domains, n) && prime3_half(
        s.domains,
        first_domain(s.domains, n),
        n,
    ).len() > 0
}

/// The strands after undoing a cut after `n` of the strand `strand`, which had the
/// identifier `s_id`: the strand that the cut made, the last one, goes, and `strand`
/// takes its slot back.
pub open spec fn undo_cut_result(
    st: Seq<Option<StrandView>>,
    strand: StrandView,
    s_id: int,
    n: Nucl,
) -> Seq<Option<StrandView>> {
    let st1 = if cut_adds_strand(strand, n) && st.len() > 0 {
        st.drop_last()
    } else {
        st
    };
    if 0 <= s_id < st1.len() {
        st1.update(s_id, Some(strand))
    } else {
        st1
    }
}

/// Strand `s_id` made circular (`cycle`) or linear; nothing else changes.
pub open spec fn cycle_result(st: Seq<Option<StrandView>>, s_id: int, cycle: bool) -> Seq<
    Option<StrandView>,
> {
    if 0 <= s_id < st.len() && st[s_id] is Some {
        let s = st[s_id]->0;
        st.update(s_id, Some(StrandView { domains: s.domains, color: s.color, circular: cycle }))
    } else {
        st
    }
}

/// Strand `prime3_id` appended to the 3' end of strand `prime5_id`, whose slot keeps the
/// result, while the slot of `prime3_id` is emptied.
pub open spec fn merge_result(
    st: Seq<Option<StrandView>>,
    prime5_id: int,
    prime3_id: int,
) -> Seq<Option<StrandView>> {
    if prime5_id != prime3_id && 0 <= prime5_id < st.len() && 0 <= prime3_id < st.len()
        && st[prime5_id] is Some && st[prime3_id] is Some {
        let s5 = st[prime5_id]->0;
        let s3 = st[prime3_id]->0;
        st.update(
            prime5_id,
            Some(StrandView { domains: s5.domains + s3.domains, color: s5.color, circular: false }),
        ).update(prime3_id, None)
    } else {
        st
    }
}

/// Slot `s_id` set to `v`, when there is such a slot.
pub open spec fn put_result(st: Seq<Option<StrandView>>, s_id: int, v: Option<StrandView>) -> Seq<
    Option<StrandView>,
> {
    if 0 <= s_id < st.len() {
        st.update(s_id, v)
    } else {
        st
    }
}

impl StrandState {
    pub fn new() -> (r: StrandState)
        ensures
            r@ == Seq::<Option<StrandView>>::empty(),
    {
        let r = StrandState { strands: Vec::new() };
        assert(r@ =~= Seq::<Option<StrandView>>::empty());
        r
    }

    pub fn len(&self) -> (r: usize)
        ensures
            r == self@.len(),
    {
        self.strands.len()
    }

    /// A copy of every strand, as a snapshot to restore later.
    pub fn snapshot(&self) -> (r: StrandState)
        ensures
            r@ == self@,
    {
        let mut v: Vec<Option<Strand>> = Vec::new();
        let mut k: usize = 0;
        while k < self.strands.len()
            invariant
                k <= self.strands@.len(),
                v@.len() == k,
                forall|j: int| 0 <= j < k ==> view_slot(#[trigger] v@[j]) == view_slot(self.strands@[j]),
            decreases self.strands@.len() - k,
        {
            let slot = match &self.strands[k] {
                Some(s) => Some(s.duplicate()),
                None => None,
            };
            v.push(slot);
            k = k + 1;
        }
        let r = StrandState { strands: v };
        assert(r@ =~= self@);
        r
    }

    /// The strand with identifier `s_id`, if there is one.
    pub fn get_strand(&self, s_id: usize) -> (r: Option<Strand>)
        ensures
            s_id < self@.len() ==> view_slot(r) == self@[s_id as int],
            s_id >= self@.len() ==> r is None,
    {
        if s_id < self.strands.len() {
            match &self.strands[s_id] {
                Some(s) => Some(s.duplicate()),
                None => None,
            }
        } else {
            None
        }
    }

    /// Identifier of the first strand that holds `n`.
    pub fn get_strand_id(&self, n: &Nucl) -> (r: Option<usize>)
        ensures
            r is Some ==> r->0 < self@.len() && self@[r->0 as int] is Some && holds(
                self@[r->0 as int]->0.domains,
                *n,
            ),
            r is Some ==> forall|j: int|
                0 <= j < r->0 && (#[trigger] self@[j]) is Some ==> !holds(self@[j]->0.domains, *n),
            r is None ==> forall|j: int|
                0 <= j < self@.len() && (#[trigger] self@[j]) is Some ==> !holds(self@[j]->0.domains, *n),
    {
        let mut k: usize = 0;
        while k < self.strands.len()
            invariant
                k <= self.strands@.len(),
                forall|j: int|
                    0 <= j < k && (#[trigger] self@[j]) is Some ==> !holds(self@[j]->0.domains, *n),
            decreases self.strands@.len() - k,
        {
            match &self.strands[k] {
                Some(s) => {
                    if s.domain_of(n).is_some() {
                        return Some(k);
                    }
                },
                None => {},
            }
            k = k + 1;
        }
        None
    }

    fn set_slot(&mut self, s_id: usize, slot: Option<Strand>)
        requires
            s_id < old(self)@.len(),
        ensures
            final(self)@ == old(self)@.update(s_id as int, view_slot(slot)),
    {
        self.strands.set(s_id, slot);
        assert(self@ =~= old(self)@.update(s_id as int, view_slot(slot)));
    }

    /// Cut strand `s_id` right after `n`; nothing changes unless that strand holds `n`.
    pub fn split_strand(&mut self, s_id: usize, n: &Nucl)
        requires
            old(self)@.len() < usize::MAX,
        ensures
            final(self)@ == cut_result(old(self)@, s_id as int, *n),
    {
        if s_id >= self.strands.len() {
            return;
        }
        let found = match &self.strands[s_id] {
            Some(s) => match s.domain_of(n) {
                Some(i) => {
                    let len = s.domains.len();
                    let (d5, d3) = s.domains[i].split_at(n);
                    let mut left: Vec<Domain> = Vec::new();
                    copy_range(&s.domains, 0, i, &mut left);
                    left.push(d5);
                    let mut right: Vec<Domain> = Vec::new();
                    match d3 {
                        Some(d) => right.push(d),
                        None => {},
                    }
                    copy_range(&s.domains, i + 1, len, &mut right);
                    assert(left@ =~= prime5_half(s.domains@, i as int, *n));
                    assert(right@ =~= prime3_half(s.domains@, i as int, *n));
                    Some((i, left, right, s.color, s.circular))
                },
                None => None,
            },
            None => None,
        };
        match found {
            Some((i, left, right, color, circular)) => {
                let ghost st = self@;
                proof {
                    lemma_first_domain_unique(st[s_id as int]->0.domains, *n, i as int);
                }
                if circular {
                    let mut domains = right;
                    let mut left = left;
                    domains.append(&mut left);
                    self.set_slot(s_id, Some(Strand { domains, color, circular: false }));
                } else if right.len() > 0 {
                    self.set_slot(s_id, Some(Strand { domains: left, color, circular: false }));
                    self.strands.push(Some(Strand { domains: right, color, circular: false }));
                    assert(self@ =~= cut_spec(st, s_id as int, i as int, *n));
                }
                assert(self@ =~= cut_spec(st, s_id as int, i as int, *n));
            },
            None => {},
        }
    }

    /// Undo the cut after `n` of `strand`, which had the identifier `s_id`.
    pub fn undo_split(&mut self, strand: Strand, s_id: usize, n: &Nucl)
        ensures
            final(self)@ == undo_cut_result(old(self)@, strand@, s_id as int, *n),
    {
        let adds = strand.cut_adds(n);
        if adds && self.strands.len() > 0 {
            let ghost st = self@;
            self.strands.pop();
            assert(self@ =~= st.drop_last());
        }
        if s_id < self.strands.len() {
            self.set_slot(s_id, Some(strand));
        }
    }

    /// Make strand `s_id` circular when `cycle` holds, linear otherwise.
    pub fn make_cycle(&mut self, s_id: usize, cycle: bool)
        ensures
            final(self)@ == cycle_result(old(self)@, s_id as int, cycle),
    {
        if s_id < self.strands.len() {
            let slot = match &self.strands[s_id] {
                Some(s) => Some(Strand { domains: s.domains.clone(), color: s.color, circular: cycle }),
                None => None,
            };
            match slot {
                Some(s) => self.set_slot(s_id, Some(s)),
                None => {},
            }
        }
    }

    /// Join the 5' end of strand `prime3_id` to the 3' end of strand `prime5_id`.
    pub fn merge_strands(&mut self, prime5_id: usize, prime3_id: usize)
        ensures
            final(self)@ == merge_result(old(self)@, prime5_id as int, prime3_id as int),
    {
        if prime5_id == prime3_id || prime5_id >= self.strands.len() || prime3_id
            >= self.strands.len() {
            return;
        }
        let merged = match (&self.strands[prime5_id], &self.strands[prime3_id]) {
            (Some(s5), Some(s3)) => {
                let mut domains = s5.domains.clone();
                let mut tail = s3.domains.clone();
                domains.append(&mut tail);
                Some(Strand { domains, color: s5.color, circular: false })
            },
            _ => None,
        };
        match merged {
            Some(m) => {
                self.set_slot(prime5_id, Some(m));
                self.set_slot(prime3_id, None);
            },
            None => {},
        }
    }

    /// Put `strand_5prime` and `strand_3prime` back in the slots they had before a merge.
    pub fn undo_merge(
        &mut self,
        strand_5prime: Strand,
        strand_3prime: Strand,
        prime5_id: usize,
        prime3_id: usize,
    )
        ensures
            final(self)@ == put_result(
                put_result(old(self)@, prime5_id as int, Some(strand_5prime@)),
                prime3_id as int,
                Some(strand_3prime@),
            ),
    {
        if prime5_id < self.strands.len() {
            self.set_slot(prime5_id, Some(strand_5prime));
        }
        if prime3_id < self.strands.len() {
            self.set_slot(prime3_id, Some(strand_3prime));
        }
    }

    /// Remove strand `s_id`, or, when `undo` holds, put `strand` back in its slot.
    pub fn undoable_rm_strand(&mut self, strand: Strand, s_id: usize, undo: bool)
        ensures
            undo ==> final(self)@ == put_result(old(self)@, s_id as int, Some(strand@)),
            !undo ==> final(self)@ == put_result(old(self)@, s_id as int, None),
    {
        if s_id < self.strands.len() {
            if undo {
                self.set_slot(s_id, Some(strand));
            } else {
                self.set_slot(s_id, None);
            }
        }
    }
}

/// Cutting a strand after one of its nucleotides and then undoing that cut with the
/// strand as it was gives back exactly the strands one started from.
pub proof fn lemma_cut_undo_round_trip(st: Seq<Option<StrandView>>, s_id: int, n: Nucl)
    requires
        strand_holds(st, s_id, n),
    ensures
        undo_cut_result(cut_result(st, s_id, n), st[s_id]->0, s_id, n) == st,
{
    let s = st[s_id]->0;
    lemma_holds_first_domain(s.domains, n);
    let i = first_domain(s.domains, n);
    let cut = cut_result(st, s_id, n);
    let back = undo_cut_result(cut, s, s_id, n);
    if s.circular {
        assert(back =~= st);
    } else if prime3_half(s.domains, i, n).len() == 0 {
        assert(back =~= st);
    } else {
        assert(cut.drop_last() =~= st.update(
            s_id,
            Some(StrandView { domains: prime5_half(s.domains, i, n), color: s.color, circular: false }),
        ));
        assert(back =~= st);
    }
}

/// Closing a strand on itself makes it circular and changes nothing else; opening it
/// again makes it linear, so a linear strand closed and reopened is as it was.
pub proof fn lemma_cycle_round_trip(st: Seq<Option<StrandView>>, s_id: int)
    requires
        0 <= s_id < st.len(),
        st[s_id] is Some,
    ensures
        cycle_result(st, s_id, true)[s_id]->0.circular,
        cycle_result(st, s_id, true)[s_id]->0.domains == st[s_id]->0.domains,
        cycle_result(st, s_id, true).len() == st.len(),
        !cycle_result(cycle_result(st, s_id, true), s_id, false)[s_id]->0.circular,
        !st[s_id]->0.circular ==> cycle_result(cycle_result(st, s_id, true), s_id, false) == st,
{
    let back = cycle_result(cycle_result(st, s_id, true), s_id, false);
    if !st[s_id]->0.circular {
        assert(back =~= st);
    }
}

/// The 3' end of a linear strand whose last domain lies on a helix.
pub open spec fn prime3_end(s: StrandView) -> Option<Nucl> {
    if s.circular || s.domains.len() == 0 {
        None
    } else {
        match s.domains.last() {
            Domain::HelixDomain { helix, start, end, forward } => if forward {
                if end > isize::MIN {
                    Some(Nucl { helix, position: (end - 1) as isize, forward })
                } else {
                    None
                }
            } else {
                Some(Nucl { helix, position: start, forward })
            },
            Domain::Insertion(_) => None,
        }
    }
}

/// The 5' end of a linear strand whose first domain lies on a helix.
pub open spec fn prime5_end(s: StrandView) -> Option<Nucl> {
    if s.circular || s.domains.len() == 0 {
        None
    } else {
        match s.domains[0] {
            Domain::HelixDomain { helix, start, end, forward } => if forward {
                Some(Nucl { helix, position: start, forward })
            } else {
                if end > isize::MIN {
                    Some(Nucl { helix, position: (end - 1) as isize, forward })
                } else {
                    None
                }
            },
            Domain::Insertion(_) => None,
        }
    }
}

impl Strand {
    pub fn prime3_end(&self) -> (r: Option<Nucl>)
        ensures
            r == prime3_end(self@),
    {
        if self.circular || self.domains.len() == 0 {
            return None;
        }
        match self.domains[self.domains.len() - 1] {
            Domain::HelixDomain { helix, start, end, forward } => {
                if forward {
                    if end > isize::MIN {
                        Some(Nucl { helix, position: end - 1, forward })
                    } else {
                        None
                    }
                } else {
                    Some(Nucl { helix, position: start, forward })
                }
            },
            Domain::Insertion(_) => None,
        }
    }

    pub fn prime5_end(&self) -> (r: Option<Nucl>)
        ensures
            r == prime5_end(self@),
    {
        if self.circular || self.domains.len() == 0 {
            return None;
        }
        match self.domains[0] {
            Domain::HelixDomain { helix, start, end, forward } => {
                if forward {
                    Some(Nucl { helix, position: start, forward })
                } else if end > isize::MIN {
                    Some(Nucl { helix, position: end - 1, forward })
                } else {
                    None
                }
            },
            Domain::Insertion(_) => None,
        }
    }
}

/// Strand `s_id` ends (`three_prime`) or starts at `n`.
pub open spec fn end_at(st: Seq<Option<StrandView>>, s_id: int, n: Nucl, three_prime: bool) -> bool {
    0 <= s_id < st.len() && st[s_id] is Some && if three_prime {
        prime3_end(st[s_id]->0) == Some(n)
    } else {
        prime5_end(st[s_id]->0) == Some(n)
    }
}

pub open spec fn no_end_at(st: Seq<Option<StrandView>>, n: Nucl, three_prime: bool) -> bool {
    forall|j: int| 0 <= j < st.len() ==> !#[trigger] end_at(st, j, n, three_prime)
}

/// `ends` are the strands that a cross-over between `a` and `b` joins: first the strand
/// that ends at `a`, or else at `b`, then the strand that starts at `a`, or else at `b`.
pub open spec fn xover_pair(
    st: Seq<Option<StrandView>>,
    a: Nucl,
    b: Nucl,
    ends: (usize, usize),
) -> bool {
    &&& (end_at(st, ends.0 as int, a, true) || (no_end_at(st, a, true) && end_at(st, ends.0 as int, b, true)))
    &&& (end_at(st, ends.1 as int, a, false) || (no_end_at(st, a, false) && end_at(st, ends.1 as int, b, false)))
}

impl StrandState {
    fn end_of(&self, n: &Nucl, three_prime: bool) -> (r: Option<usize>)
        ensures
            r is Some ==> end_at(self@, r->0 as int, *n, three_prime),
            r is None ==> no_end_at(self@, *n, three_prime),
    {
        let mut k: usize = 0;
        while k < self.strands.len()
            invariant
                k <= self.strands@.len(),
                forall|j: int| 0 <= j < k ==> !#[trigger] end_at(self@, j, *n, three_prime),
            decreases self.strands@.len() - k,
        {
            match &self.strands[k] {
                Some(s) => {
                    let e = if three_prime { s.prime3_end() } else { s.prime5_end() };
                    match e {
                        Some(m) => {
                            if m == *n {
                                return Some(k);
                            }
                        },
                        None => {},
                    }
                },
                None => {},
            }
            k = k + 1;
        }
        None
    }

    /// The strand whose 3' end is `n`.
    pub fn prime3_of(&self, n: &Nucl) -> (r: Option<usize>)
        ensures
            r is Some ==> end_at(self@, r->0 as int, *n, true),
            r is None ==> no_end_at(self@, *n, true),
    {
        self.end_of(n, true)
    }

    /// The strand whose 5' end is `n`.
    pub fn prime5_of(&self, n: &Nucl) -> (r: Option<usize>)
        ensures
            r is Some ==> end_at(self@, r->0 as int, *n, false),
            r is None ==> no_end_at(self@, *n, false),
    {
        self.end_of(n, false)
    }

    /// `Some(true)` if `n` ends a strand, `Some(false)` if it starts one and ends none,
    /// `None` otherwise.
    pub fn is_strand_end(&self, n: &Nucl) -> (r: Option<bool>)
        ensures
            !no_end_at(self@, *n, true) ==> r == Some(true),
            no_end_at(self@, *n, true) && !no_end_at(self@, *n, false) ==> r == Some(false),
            no_end_at(self@, *n, true) && no_end_at(self@, *n, false) ==> r is None,
    {
        match self.prime3_of(n) {
            Some(_) => Some(true),
            None => match self.prime5_of(n) {
                Some(_) => Some(false),
                None => None,
            },
        }
    }

    /// The strands that a cross-over between `a` and `b` joins: the one that ends at
    /// `a` or else at `b`, which goes first, and the one that starts at `a` or else at
    /// `b`.
    pub fn xover_ends(&self, a: &Nucl, b: &Nucl) -> (r: Option<(usize, usize)>)
        ensures
            r is Some ==> xover_pair(self@, *a, *b, r->0),
            r is None ==> (no_end_at(self@, *a, true) && no_end_at(self@, *b, true)) || (no_end_at(
                self@,
                *a,
                false,
            ) && no_end_at(self@, *b, false)),
    {
        let p3 = match self.prime3_of(a) {
            Some(x) => Some(x),
            None => self.prime3_of(b),
        };
        let p5 = match self.prime5_of(a) {
            Some(x) => Some(x),
            None => self.prime5_of(b),
        };
        match (p3, p5) {
            (Some(x), Some(y)) => Some((x, y)),
            _ => None,
        }
    }

    /// Some strand ends at `a` or `b`, and some strand starts at `a` or `b`.
    pub open spec fn spec_can_cross_to(&self, a: Nucl, b: Nucl) -> bool {
        !((no_end_at(self@, a, true) && no_end_at(self@, b, true)) || (no_end_at(self@, a, false)
            && no_end_at(self@, b, false)))
    }

    /// Whether a cross-over can be made between `a` and `b`.
    pub fn can_cross_to(&self, a: &Nucl, b: &Nucl) -> (r: bool)
        ensures
            r == self.spec_can_cross_to(*a, *b),
    {
        self.xover_ends(a, b).is_some()
    }
}

/// Where a cross-cut at `n` cuts the target strand: right after `n` when the target
/// keeps its 5' part before the source, right before `n` when the source goes before
/// the target's part from `n` on. There is no nucleotide before one at the end of the
/// range of positions.
pub open spec fn cut_point(n: Nucl, target_3prime: bool) -> Option<Nucl> {
    if !target_3prime {
        Some(n)
    } else if n.forward {
        if n.position > isize::MIN {
            Some(Nucl { helix: n.helix, position: (n.position - 1) as isize, forward: n.forward })
        } else {
            None
        }
    } else {
        if n.position < isize::MAX {
            Some(Nucl { helix: n.helix, position: (n.position + 1) as isize, forward: n.forward })
        } else {
            None
        }
    }
}

pub fn cut_point_of(n: &Nucl, target_3prime: bool) -> (r: Option<Nucl>)
    ensures
        r == cut_point(*n, target_3prime),
{
    if !target_3prime {
        Some(*n)
    } else if n.forward {
        if n.position > isize::MIN {
            Some(Nucl { helix: n.helix, position: n.position - 1, forward: n.forward })
        } else {
            None
        }
    } else {
        if n.position < isize::MAX {
            Some(Nucl { helix: n.helix, position: n.position + 1, forward: n.forward })
        } else {
            None
        }
    }
}

/// The strands after the cut of a cross-cut.
pub open spec fn cross_cut_cut(st: Seq<Option<StrandView>>, target_id: int, n: Nucl, target_3prime: bool) -> Seq<
    Option<StrandView>,
> {
    match cut_point(n, target_3prime) {
        Some(c) => cut_result(st, target_id, c),
        None => st,
    }
}

/// The strands after a cross-cut at `n` from strand `source_id` to strand `target_id`:
/// the target is cut at `n`, and then, with `target_3prime`, the part of the target
/// that starts at `n` goes after the source; otherwise the source goes after the part
/// of the target that ends at `n`.
pub open spec fn cross_cut_result(
    st: Seq<Option<StrandView>>,
    source_id: int,
    target_id: int,
    n: Nucl,
    target_3prime: bool,
) -> Seq<Option<StrandView>> {
    let st1 = cross_cut_cut(st, target_id, n, target_3prime);
    if target_3prime {
        let part = if st1.len() > st.len() {
            st.len() as int
        } else {
            target_id
        };
        merge_result(st1, source_id, part)
    } else {
        merge_result(st1, target_id, source_id)
    }
}

/// The strands after undoing a cross-cut whose strands were `source` and `target`: the
/// strand that the cut made, the last one, goes, and both take their slots back.
pub open spec fn undo_cross_cut_result(
    st: Seq<Option<StrandView>>,
    source: StrandView,
    target: StrandView,
    source_id: int,
    target_id: int,
    n: Nucl,
    target_3prime: bool,
) -> Seq<Option<StrandView>> {
    let adds = match cut_point(n, target_3prime) {
        Some(c) => cut_adds_strand(target, c),
        None => false,
    };
    let st1 = if adds && st.len() > 0 {
        st.drop_last()
    } else {
        st
    };
    put_result(put_result(st1, source_id, Some(source)), target_id, Some(target))
}

/// A cut adds a strand, at the end, exactly when `cut_adds_strand` says so, and leaves
/// every slot but the cut strand's as it was.
proof fn lemma_cut_shape(st: Seq<Option<StrandView>>, t: int, c: Nucl)
    requires
        0 <= t < st.len(),
        st[t] is Some,
    ensures
        cut_result(st, t, c).len() == st.len() + if cut_adds_strand(st[t]->0, c) {
            1int
        } else {
            0int
        },
        forall|i: int| 0 <= i < st.len() && i != t ==> #[trigger] cut_result(st, t, c)[i] == st[i],
{
}

/// Undoing a cross-cut between two strands with the strands as they were gives back
/// exactly the strands one started from.
pub proof fn lemma_cross_cut_undo_round_trip(
    st: Seq<Option<StrandView>>,
    source_id: int,
    target_id: int,
    n: Nucl,
    target_3prime: bool,
)
    requires
        0 <= source_id < st.len(),
        0 <= target_id < st.len(),
        source_id != target_id,
        st[source_id] is Some,
        st[target_id] is Some,
    ensures
        undo_cross_cut_result(
            cross_cut_result(st, source_id, target_id, n, target_3prime),
            st[source_id]->0,
            st[target_id]->0,
            source_id,
            target_id,
            n,
            target_3prime,
        ) == st,
{
    let st1 = cross_cut_cut(st, target_id, n, target_3prime);
    let st2 = cross_cut_result(st, source_id, target_id, n, target_3prime);
    let back = undo_cross_cut_result(st2, st[source_id]->0, st[target_id]->0, source_id, target_id, n, target_3prime);
    let adds = match cut_point(n, target_3prime) {
        Some(c) => cut_adds_strand(st[target_id]->0, c),
        None => false,
    };
    match cut_point(n, target_3prime) {
        Some(c) => lemma_cut_shape(st, target_id, c),
        None => {},
    }
    assert(st1.len() == st.len() + if adds { 1int } else { 0int });
    assert(forall|i: int| 0 <= i < st.len() && i != target_id ==> #[trigger] st1[i] == st[i]);
    assert(st2.len() == st1.len());
    let a = if target_3prime { source_id } else { target_id };
    let b = if target_3prime {
        if st1.len() > st.len() { st.len() as int } else { target_id }
    } else {
        source_id
    };
    assert(forall|i: int| 0 <= i < st1.len() && i != a && i != b ==> #[trigger] st2[i] == st1[i]);
    assert(back.len() == st.len());
    assert forall|i: int| 0 <= i < st.len() implies #[trigger] back[i] == st[i] by {
        if i != source_id && i != target_id {
            assert(st2[i] == st1[i]);
        }
    }
    assert(back =~= st);
}

impl StrandState {
    /// Cut strand `target_id` at `n` and join strand `source_id` to one of its parts:
    /// see `cross_cut_result`.
    pub fn cross_cut(&mut self, source_id: usize, target_id: usize, n: &Nucl, target_3prime: bool)
        requires
            old(self)@.len() < usize::MAX,
        ensures
            final(self)@ == cross_cut_result(old(self)@, source_id as int, target_id as int, *n, target_3prime),
    {
        let len0 = self.strands.len();
        match cut_point_of(n, target_3prime) {
            Some(c) => self.split_strand(target_id, &c),
            None => {},
        }
        if target_3prime {
            let part = if self.strands.len() > len0 { len0 } else { target_id };
            self.merge_strands(source_id, part);
        } else {
            self.merge_strands(target_id, source_id);
        }
    }

    /// Undo a cross-cut at `n` whose strands were `source_strand` and `target_strand`.
    pub fn undo_cross_cut(
        &mut self,
        source_strand: Strand,
        target_strand: Strand,
        source_id: usize,
        target_id: usize,
        n: &Nucl,
        target_3prime: bool,
    )
        ensures
            final(self)@ == undo_cross_cut_result(
                old(self)@,
                source_strand@,
                target_strand@,
                source_id as int,
                target_id as int,
                *n,
                target_3prime,
            ),
    {
        let adds = match cut_point_of(n, target_3prime) {
            Some(c) => target_strand.cut_adds(&c),
            None => false,
        };
        if adds && self.strands.len() > 0 {
            let ghost st = self@;
            self.strands.pop();
            assert(self@ =~= st.drop_last());
        }
        if source_id < self.strands.len() {
            self.set_slot(source_id, Some(source_strand));
        }
        if target_id < self.strands.len() {
            self.set_slot(target_id, Some(target_strand));
        }
    }
}

} // verus!
