//! The bodies of the rigid-body relaxation: which nucleotides move with a rigid helix
//! and which move freely.
use vstd::prelude::*;

use crate::nucl::Nucl;
use crate::strands::{holds, Domain, StrandState, StrandView};

verus! {

/// A nucleotide as a body of the relaxation sees it: `helix` is the rigid helix that
/// carries it, if any, and `old_helix` the design helix it lies on when no rigid helix
/// carries it.
#[derive(Debug, Clone, Copy, PartialEq, Eq, Hash, Structural)]
pub struct FreeNucl {
    pub helix: Option<usize>,
    pub position: isize,
    pub forward: bool,
    pub old_helix: Option<usize>,
}

impl FreeNucl {
    /// `nucl` carried by the rigid helix `helix`; `old_helix` is the exclusive or of
    /// `helix` and the design helix of `nucl`, as `Option::xor` gives it.
    pub fn with_helix(nucl: &Nucl, helix: Option<usize>) -> (r: FreeNucl)
        ensures
            r.helix == helix,
            r.position == nucl.position,
            r.forward == nucl.forward,
            helix is None ==> r.old_helix == Some(nucl.helix),
            helix is Some ==> r.old_helix is None,
            helix is None ==> r == free_body(*nucl),
            helix is Some ==> r == rigid_body(*nucl, helix->0),
    {
        let old_helix = match helix {
            Some(_) => None,
            None => Some(nucl.helix),
        };
        FreeNucl { helix, position: nucl.position, forward: nucl.forward, old_helix }
    }
}

/// The body of `n` when no rigid helix carries it.
pub open spec fn free_body(n: Nucl) -> FreeNucl {
    FreeNucl { helix: None, position: n.position, forward: n.forward, old_helix: Some(n.helix) }
}

/// The body of `n` when rigid helix `h` carries it.
pub open spec fn rigid_body(n: Nucl, h: usize) -> FreeNucl {
    FreeNucl { helix: Some(h), position: n.position, forward: n.forward, old_helix: None }
}

/// How the nucleotides of a design split into bodies: `nucl_map` gives the body of each
/// nucleotide (a rigid helix, or free), `intervals[h]` the lowest and highest position
/// of rigid helix `h` and `helix_map[h]` the design helix it lies on, and `free_nucls`
/// the free bodies, each once, in the order they were met; a free nucleotide's
/// identifier is its index there.
pub struct IntervalResult {
    pub nucl_map: Vec<(Nucl, FreeNucl)>,
    pub helix_map: Vec<usize>,
    pub free_nucls: Vec<FreeNucl>,
    pub intervals: Vec<(isize, isize)>,
}

/// `n` has an entry in `m`.
pub open spec fn is_key(m: Seq<(Nucl, FreeNucl)>, n: Nucl) -> bool {
    exists|k: int| 0 <= k < m.len() && (#[trigger] m[k]).0 == n
}

/// `f` is the free body of `n`, or its rigid body on a rigid helix that exists, lies on
/// the design helix of `n` and whose interval covers `n`.
pub open spec fn entry_fits(
    n: Nucl,
    f: FreeNucl,
    intervals: Seq<(isize, isize)>,
    helix_map: Seq<usize>,
) -> bool {
    f == free_body(n) || {
        &&& f.helix is Some
        &&& f == rigid_body(n, f.helix->0)
        &&& f.helix->0 < intervals.len()
        &&& f.helix->0 < helix_map.len()
        &&& intervals[f.helix->0 as int].0 <= n.position <= intervals[f.helix->0 as int].1
        &&& helix_map[f.helix->0 as int] == n.helix
    }
}

/// Some strand holds `n`.
pub open spec fn present(st: Seq<Option<StrandView>>, n: Nucl) -> bool {
    exists|j: int| 0 <= j < st.len() && (#[trigger] st[j]) is Some && holds(st[j]->0.domains, n)
}

/// Every body is for a nucleotide that some strand holds: a rigid one together with its
/// complement, a free one without it.
pub open spec fn bodies_present(st: Seq<Option<StrandView>>, nucl_map: Seq<(Nucl, FreeNucl)>) -> bool {
    forall|k: int|
        0 <= k < nucl_map.len() ==> if (#[trigger] nucl_map[k]).1.helix is Some {
            present(st, nucl_map[k].0) && present(st, nucl_map[k].0.spec_compl())
        } else {
            present(st, nucl_map[k].0) && !present(st, nucl_map[k].0.spec_compl())
        }
}

/// Entry `k` of `m` is on a rigid helix.
pub open spec fn rigid_entry(m: Seq<(Nucl, FreeNucl)>, k: int) -> bool {
    0 <= k < m.len() && m[k].1.helix is Some
}

/// Entry `k` of `m` is free.
pub open spec fn free_entry(m: Seq<(Nucl, FreeNucl)>, k: int) -> bool {
    0 <= k < m.len() && m[k].1.helix is None
}

/// `i` is an index of `fl`.
pub open spec fn listed(fl: Seq<FreeNucl>, i: int) -> bool {
    0 <= i < fl.len()
}

/// A rigid nucleotide's complement has an entry too, on the same rigid helix.
pub open spec fn pairs_rigid(m: Seq<(Nucl, FreeNucl)>) -> bool {
    forall|k: int|
        #[trigger] rigid_entry(m, k) ==> exists|j: int|
            0 <= j < m.len() && (#[trigger] m[j]).0 == m[k].0.spec_compl() && m[j].1.helix
                == m[k].1.helix
}

/// `fl` lists each free body of `m` once, and nothing else.
pub open spec fn lists_free(m: Seq<(Nucl, FreeNucl)>, fl: Seq<FreeNucl>) -> bool {
    &&& forall|i: int|
        #[trigger] listed(fl, i) ==> fl[i].helix is None && exists|k: int|
            0 <= k < m.len() && (#[trigger] m[k]).1 == fl[i]
    &&& forall|k: int| #[trigger] free_entry(m, k) ==> fl.contains(m[k].1)
    &&& forall|i: int, j: int| 0 <= i < j < fl.len() ==> (#[trigger] fl[i]) != (#[trigger] fl[j])
}

impl IntervalResult {
    pub open spec fn wf(&self) -> bool {
        &&& self.helix_map@.len() == self.intervals@.len()
        &&& forall|h: int| 0 <= h < self.intervals@.len() ==> (#[trigger] self.intervals@[h]).0
            <= self.intervals@[h].1
        &&& forall|k: int|
            0 <= k < self.nucl_map@.len() ==> entry_fits(
                (#[trigger] self.nucl_map@[k]).0,
                self.nucl_map@[k].1,
                self.intervals@,
                self.helix_map@,
            )
        &&& forall|i: int, j: int|
            0 <= i < j < self.nucl_map@.len() ==> (#[trigger] self.nucl_map@[i]).0
                != (#[trigger] self.nucl_map@[j]).0
    }

    /// The split is well formed for the strands `st`: see `wf`, `bodies_present`,
    /// `pairs_rigid` and `lists_free`.
    pub open spec fn inv(&self, st: Seq<Option<StrandView>>) -> bool {
        &&& self.wf()
        &&& bodies_present(st, self.nucl_map@)
        &&& pairs_rigid(self.nucl_map@)
        &&& lists_free(self.nucl_map@, self.free_nucls@)
    }

    fn new() -> (r: IntervalResult)
        ensures
            forall|st: Seq<Option<StrandView>>| #[trigger] r.inv(st),
            r.nucl_map@.len() == 0,
    {
        IntervalResult {
            nucl_map: Vec::new(),
            helix_map: Vec::new(),
            free_nucls: Vec::new(),
            intervals: Vec::new(),
        }
    }

    fn contains(&self, n: &Nucl) -> (r: bool)
        ensures
            r == is_key(self.nucl_map@, *n),
    {
        let mut k: usize = 0;
        while k < self.nucl_map.len()
            invariant
                k <= self.nucl_map@.len(),
                forall|j: int| 0 <= j < k ==> (#[trigger] self.nucl_map@[j]).0 != *n,
            decreases self.nucl_map@.len() - k,
        {
            if self.nucl_map[k].0 == *n {
                return true;
            }
            k = k + 1;
        }
        false
    }

    /// Record `f` as the body of `n`, replacing what `n` had.
    fn insert(&mut self, n: Nucl, f: FreeNucl)
        requires
            forall|i: int, j: int|
                0 <= i < j < old(self).nucl_map@.len() ==> (#[trigger] old(self).nucl_map@[i]).0
                    != (#[trigger] old(self).nucl_map@[j]).0,
        ensures
            forall|i: int, j: int|
                0 <= i < j < final(self).nucl_map@.len() ==> (#[trigger] final(self).nucl_map@[i]).0
                    != (#[trigger] final(self).nucl_map@[j]).0,
            final(self).intervals == old(self).intervals,
            final(self).helix_map == old(self).helix_map,
            final(self).free_nucls == old(self).free_nucls,
            final(self).nucl_map@.len() == old(self).nucl_map@.len() + if is_key(old(self).nucl_map@, n) {
                0int
            } else {
                1int
            },
            forall|i: int|
                0 <= i < old(self).nucl_map@.len() ==> #[trigger] final(self).nucl_map@[i] == if old(
                    self,
                ).nucl_map@[i].0 == n {
                    (n, f)
                } else {
                    old(self).nucl_map@[i]
                },
            !is_key(old(self).nucl_map@, n) ==> final(self).nucl_map@[old(self).nucl_map@.len() as int]
                == (n, f),
    {
        let mut k: usize = 0;
        while k < self.nucl_map.len()
            invariant
                k <= self.nucl_map@.len(),
                forall|j: int| 0 <= j < k ==> (#[trigger] self.nucl_map@[j]).0 != n,
                self.intervals == old(self).intervals,
                self.helix_map == old(self).helix_map,
                self.free_nucls == old(self).free_nucls,
                self.nucl_map == old(self).nucl_map,
                forall|i: int, j: int|
                    0 <= i < j < old(self).nucl_map@.len() ==> (#[trigger] old(self).nucl_map@[i]).0
                        != (#[trigger] old(self).nucl_map@[j]).0,
            decreases self.nucl_map@.len() - k,
        {
            if self.nucl_map[k].0 == n {
                self.nucl_map.set(k, (n, f));
                proof {
                    assert forall|i: int| 0 <= i < old(self).nucl_map@.len() && i != k implies old(
                        self,
                    ).nucl_map@[i].0 != n by {
                        assert(old(self).nucl_map@[k as int].0 == n);
                        if i < k {
                        } else {
                            assert(old(self).nucl_map@[i].0 != old(self).nucl_map@[k as int].0);
                        }
                    }
                }
                return;
            }
            k = k + 1;
        }
        self.nucl_map.push((n, f));
        proof {
            assert(self.nucl_map@[old(self).nucl_map@.len() as int] == (n, f));
            assert forall|i: int| 0 <= i < old(self).nucl_map@.len() implies self.nucl_map@[i] == old(self).nucl_map@[i] by {}
        }
    }

    /// Open a new rigid helix on design helix `helix`, whose interval is `p..=p`.
    fn new_helix(&mut self, helix: usize, p: isize, Ghost(st): Ghost<Seq<Option<StrandView>>>) -> (r: usize)
        requires
            old(self).inv(st),
        ensures
            final(self).inv(st),
            r == old(self).intervals@.len(),
            final(self).intervals@ == old(self).intervals@.push((p, p)),
            final(self).helix_map@ == old(self).helix_map@.push(helix),
            final(self).nucl_map == old(self).nucl_map,
            final(self).free_nucls == old(self).free_nucls,
    {
        let r = self.intervals.len();
        self.helix_map.push(helix);
        self.intervals.push((p, p));
        assert forall|k: int| 0 <= k < self.nucl_map@.len() implies entry_fits(
            (#[trigger] self.nucl_map@[k]).0,
            self.nucl_map@[k].1,
            self.intervals@,
            self.helix_map@,
        ) by {
            assert(entry_fits(
                self.nucl_map@[k].0,
                self.nucl_map@[k].1,
                old(self).intervals@,
                old(self).helix_map@,
            ));
        }
        r
    }

    /// Widen the interval of rigid helix `h` to cover `p`.
    fn widen(&mut self, h: usize, p: isize, Ghost(st): Ghost<Seq<Option<StrandView>>>)
        requires
            old(self).inv(st),
            h < old(self).intervals@.len(),
        ensures
            final(self).inv(st),
            final(self).intervals@.len() == old(self).intervals@.len(),
            final(self).intervals@[h as int].0 <= p <= final(self).intervals@[h as int].1,
            final(self).nucl_map == old(self).nucl_map,
            final(self).helix_map == old(self).helix_map,
            final(self).free_nucls == old(self).free_nucls,
    {
        let (lo, hi) = self.intervals[h];
        let lo2 = if p < lo { p } else { lo };
        let hi2 = if p > hi { p } else { hi };
        self.intervals.set(h, (lo2, hi2));
        assert forall|k: int| 0 <= k < self.nucl_map@.len() implies entry_fits(
            (#[trigger] self.nucl_map@[k]).0,
            self.nucl_map@[k].1,
            self.intervals@,
            self.helix_map@,
        ) by {
            assert(entry_fits(
                self.nucl_map@[k].0,
                self.nucl_map@[k].1,
                old(self).intervals@,
                old(self).helix_map@,
            ));
        }
    }

    /// Put `n` and its complement on rigid helix `h`.
    fn put_rigid(&mut self, n: Nucl, h: usize, Ghost(st): Ghost<Seq<Option<StrandView>>>)
        requires
            old(self).inv(st),
            present(st, n),
            present(st, n.spec_compl()),
            h < old(self).intervals@.len(),
            old(self).helix_map@[h as int] == n.helix,
        ensures
            final(self).inv(st),
            final(self).intervals@.len() == old(self).intervals@.len(),
            final(self).helix_map == old(self).helix_map,
            forall|x: Nucl| #[trigger] is_key(old(self).nucl_map@, x) ==> is_key(final(self).nucl_map@, x),
            is_key(final(self).nucl_map@, n),
    {
        let ghost m0 = self.nucl_map@;
        let ghost fl = self.free_nucls@;
        self.widen(h, n.position, Ghost(st));
        let ghost iv = self.intervals@;
        let c = n.compl();
        let fn_ = FreeNucl::with_helix(&n, Some(h));
        let fc = FreeNucl::with_helix(&c, Some(h));
        self.insert(n, fn_);
        let ghost m1 = self.nucl_map@;
        self.insert(c, fc);
        let ghost m2 = self.nucl_map@;
        proof {
            assert(c.spec_compl() == n);
            assert(n != c);
            // entries of m2: an old entry, or one of the two new ones
            assert forall|k: int| 0 <= k < m2.len() implies ((#[trigger] m2[k]) == (n, fn_) || m2[k] == (c, fc)
                || (k < m0.len() && m2[k] == m0[k] && m0[k].0 != n && m0[k].0 != c)) by {
                if k < m0.len() {
                    assert(m1[k] == if m0[k].0 == n { (n, fn_) } else { m0[k] });
                } else if k < m1.len() {
                    assert(m1[k] == (n, fn_));
                }
            }
            // n and c have entries
            let kn: int = if is_key(m0, n) {
                choose|k: int| 0 <= k < m0.len() && (#[trigger] m0[k]).0 == n
            } else {
                m0.len() as int
            };
            assert(m1[kn] == (n, fn_));
            assert(m2[kn] == (n, fn_));
            let kc: int = if is_key(m1, c) {
                choose|k: int| 0 <= k < m1.len() && (#[trigger] m1[k]).0 == c
            } else {
                m1.len() as int
            };
            assert(m2[kc] == (c, fc));
            assert(is_key(m2, n));
            // old keys stay
            assert forall|x: Nucl| #[trigger] is_key(m0, x) implies is_key(m2, x) by {
                let k = choose|k: int| 0 <= k < m0.len() && (#[trigger] m0[k]).0 == x;
                assert(m1[k].0 == x);
                assert(m2[k].0 == x);
            }
            // no old entry for n or c is free
            assert forall|k: int| 0 <= k < m0.len() && ((#[trigger] m0[k]).0 == n || m0[k].0 == c) implies m0[k].1.helix is Some by {
            }
            // entries fit
            assert forall|k: int| 0 <= k < m2.len() implies entry_fits(
                (#[trigger] m2[k]).0,
                m2[k].1,
                self.intervals@,
                self.helix_map@,
            ) by {
                if k < m0.len() && m2[k] == m0[k] {
                    assert(entry_fits(m0[k].0, m0[k].1, iv, self.helix_map@));
                }
            }
            assert(bodies_present(st, m2));
            assert forall|k: int| #[trigger] rigid_entry(m2, k) implies exists|j: int|
                0 <= j < m2.len() && (#[trigger] m2[j]).0 == m2[k].0.spec_compl() && m2[j].1.helix
                    == m2[k].1.helix by {
                if m2[k] == (n, fn_) {
                    assert(m2[kc].0 == m2[k].0.spec_compl());
                } else if m2[k] == (c, fc) {
                    assert(m2[kn].0 == m2[k].0.spec_compl());
                } else {
                    assert(m2[k] == m0[k]);
                    assert(rigid_entry(m0, k));
                    let j = choose|j: int|
                        0 <= j < m0.len() && (#[trigger] m0[j]).0 == m0[k].0.spec_compl() && m0[j].1.helix
                            == m0[k].1.helix;
                    assert(m0[j].0 != n && m0[j].0 != c);
                    assert(m1[j] == m0[j]);
                    assert(m2[j] == m0[j]);
                }
            }
            assert forall|i: int| #[trigger] listed(fl, i) implies fl[i].helix is None && exists|k: int|
                0 <= k < m2.len() && (#[trigger] m2[k]).1 == fl[i] by {
                let k = choose|k: int| 0 <= k < m0.len() && (#[trigger] m0[k]).1 == fl[i];
                assert(m0[k].1.helix is None);
                assert(m0[k].0 != n && m0[k].0 != c);
                assert(m1[k] == m0[k]);
                assert(m2[k] == m0[k]);
            }
            assert forall|k: int| #[trigger] free_entry(m2, k) implies fl.contains(m2[k].1) by {
                assert(m2[k] == m0[k]);
                assert(free_entry(m0, k));
            }
        }
    }

    /// Make `n` a free body, unless it already is one.
    fn put_free(&mut self, n: Nucl, Ghost(st): Ghost<Seq<Option<StrandView>>>)
        requires
            old(self).inv(st),
            present(st, n),
            !present(st, n.spec_compl()),
        ensures
            final(self).inv(st),
            final(self).intervals == old(self).intervals,
            final(self).helix_map == old(self).helix_map,
            forall|x: Nucl| #[trigger] is_key(old(self).nucl_map@, x) ==> is_key(final(self).nucl_map@, x),
            is_key(final(self).nucl_map@, n),
    {
        if self.contains(&n) {
            return;
        }
        let ghost m0 = self.nucl_map@;
        let ghost fl = self.free_nucls@;
        let f = FreeNucl::with_helix(&n, None);
        self.insert(n, f);
        self.free_nucls.push(f);
        proof {
            let m1 = self.nucl_map@;
            assert(m1 == m0.push((n, f))) by {
                assert(m1 =~= m0.push((n, f)));
            }
            assert(m1[m0.len() as int].0 == n);
            assert forall|x: Nucl| #[trigger] is_key(m0, x) implies is_key(m1, x) by {
                let k = choose|k: int| 0 <= k < m0.len() && (#[trigger] m0[k]).0 == x;
                assert(m1[k].0 == x);
            }
            assert forall|i: int| 0 <= i < fl.len() implies (#[trigger] fl[i]) != f by {
                assert(listed(fl, i));
                let k = choose|k: int| 0 <= k < m0.len() && (#[trigger] m0[k]).1 == fl[i];
                assert(entry_fits(m0[k].0, m0[k].1, self.intervals@, self.helix_map@));
                assert(m0[k].0 != n);
            }
            let fl1 = self.free_nucls@;
            assert forall|i: int| #[trigger] listed(fl1, i) implies fl1[i].helix is None && exists|k: int|
                0 <= k < m1.len() && (#[trigger] m1[k]).1 == fl1[i] by {
                if i < fl.len() {
                    assert(listed(fl, i));
                    let k = choose|k: int| 0 <= k < m0.len() && (#[trigger] m0[k]).1 == fl[i];
                    assert(m1[k] == m0[k]);
                } else {
                    assert(m1[m0.len() as int].1 == fl1[i]);
                }
            }
            assert forall|k: int| #[trigger] free_entry(m1, k) implies fl1.contains(m1[k].1) by {
                if k < m0.len() {
                    assert(free_entry(m0, k));
                    assert(fl.contains(m0[k].1));
                    let i = choose|i: int| 0 <= i < fl.len() && fl[i] == m0[k].1;
                    assert(fl1[i] == m1[k].1);
                } else {
                    assert(fl1[fl.len() as int] == m1[k].1);
                }
            }
            assert forall|i: int, j: int| 0 <= i < j < fl1.len() implies (#[trigger] fl1[i]) != (#[trigger] fl1[j]) by {
                if j < fl.len() {
                    assert(fl1[i] == fl[i] && fl1[j] == fl[j]);
                } else {
                    assert(fl1[i] == fl[i]);
                }
            }
            assert forall|k: int| #[trigger] rigid_entry(m1, k) implies exists|j: int|
                0 <= j < m1.len() && (#[trigger] m1[j]).0 == m1[k].0.spec_compl() && m1[j].1.helix
                    == m1[k].1.helix by {
                assert(k < m0.len());
                assert(rigid_entry(m0, k));
                let j = choose|j: int|
                    0 <= j < m0.len() && (#[trigger] m0[j]).0 == m0[k].0.spec_compl() && m0[j].1.helix
                        == m0[k].1.helix;
                assert(m1[j] == m0[j]);
            }
        }
    }
}

/// The nucleotide at the 5' end of a domain, for a domain on a helix.
pub fn prime5_end(d: &Domain) -> (r: Option<Nucl>)
    ensures
        d matches Domain::HelixDomain { helix, start, end, forward } ==> if *forward {
            r == Some(Nucl { helix: *helix, position: *start, forward: true })
        } else if *end > isize::MIN {
            r is Some && r->0.helix == *helix && !r->0.forward && r->0.position == *end - 1
        } else {
            r is None
        },
        d is Insertion ==> r is None,
{
    match d {
        Domain::HelixDomain { helix, start, end, forward } => {
            if *forward {
                Some(Nucl { helix: *helix, position: *start, forward: true })
            } else if *end > isize::MIN {
                Some(Nucl { helix: *helix, position: *end - 1, forward: false })
            } else {
                None
            }
        },
        Domain::Insertion(_) => None,
    }
}

/// The lowest start and the highest end of all helix domains, between which the walks
/// of `read_intervals` stay.
fn position_bounds(st: &StrandState) -> (r: (isize, isize)) {
    let mut lo: isize = isize::MAX;
    let mut hi: isize = isize::MIN;
    let mut s: usize = 0;
    while s < st.strands.len()
        decreases st.strands@.len() - s,
    {
        match &st.strands[s] {
            Some(strand) => {
                let mut i: usize = 0;
                while i < strand.domains.len()
                    decreases strand.domains@.len() - i,
                {
                    match strand.domains[i] {
                        Domain::HelixDomain { start, end, .. } => {
                            if start < lo {
                                lo = start;
                            }
                            if end > hi {
                                hi = end;
                            }
                        },
                        Domain::Insertion(_) => {},
                    }
                    i = i + 1;
                }
            },
            None => {},
        }
        s = s + 1;
    }
    (lo, hi)
}

impl StrandState {
    /// Whether some strand holds `n`.
    pub fn has_nucl(&self, n: &Nucl) -> (r: bool)
        ensures
            r == present(self@, *n),
    {
        self.get_strand_id(n).is_some()
    }

    /// Split the nucleotides into bodies for the rigid-body relaxation. From the 5' end
    /// of each domain, the walk goes left and then right along the strand direction
    /// while nucleotides exist. On a forward domain each maximal run of nucleotides
    /// whose complement exists becomes one rigid helix, which carries them and their
    /// complements; every nucleotide without a complement becomes a free body. A
    /// forward domain whose 5' end was already met is not walked again. A closing pass
    /// over every domain gives a body to any nucleotide the walks did not reach.
    pub fn read_intervals(&self) -> (r: IntervalResult)
        ensures
            r.inv(self@),
            forall|n: Nucl| #[trigger] present(self@, n) ==> is_key(r.nucl_map@, n),
    {
        let mut res = IntervalResult::new();
        let (lo, hi) = position_bounds(self);
        let mut s: usize = 0;
        while s < self.strands.len()
            invariant
                res.inv(self@),
            decreases self.strands@.len() - s,
        {
            match &self.strands[s] {
                Some(strand) => {
                    let mut i: usize = 0;
                    while i < strand.domains.len()
                        invariant
                            res.inv(self@),
                        decreases strand.domains@.len() - i,
                    {
                        match prime5_end(&strand.domains[i]) {
                            Some(nucl) => {
                                if !res.contains(&nucl) || !nucl.forward {
                                    self.walk_from(nucl, lo, hi, &mut res);
                                }
                            },
                            None => {},
                        }
                        i = i + 1;
                    }
                },
                None => {},
            }
            s = s + 1;
        }
        self.give_every_nucl_a_body(&mut res);
        res
    }

    /// The closing pass of `read_intervals`.
    fn give_every_nucl_a_body(&self, res: &mut IntervalResult)
        requires
            old(res).inv(self@),
        ensures
            final(res).inv(self@),
            forall|n: Nucl| #[trigger] present(self@, n) ==> is_key(final(res).nucl_map@, n),
    {
        let mut s: usize = 0;
        while s < self.strands.len()
            invariant
                s <= self.strands@.len(),
                res.inv(self@),
                forall|j: int, n: Nucl|
                    0 <= j < s && self@[j] is Some && #[trigger] holds(self@[j]->0.domains, n) ==> is_key(
                        res.nucl_map@,
                        n,
                    ),
            decreases self.strands@.len() - s,
        {
            match &self.strands[s] {
                Some(strand) => {
                    assert(self@[s as int] == Some(strand@));
                    let mut i: usize = 0;
                    while i < strand.domains.len()
                        invariant
                            s < self.strands@.len(),
                            self@[s as int] == Some(strand@),
                            i <= strand.domains@.len(),
                            res.inv(self@),
                            forall|j: int, n: Nucl|
                                0 <= j < s && self@[j] is Some && #[trigger] holds(self@[j]->0.domains, n)
                                    ==> is_key(res.nucl_map@, n),
                            forall|i2: int, n: Nucl|
                                0 <= i2 < i && #[trigger] strand.domains@[i2].spec_contains(n) ==> is_key(
                                    res.nucl_map@,
                                    n,
                                ),
                        decreases strand.domains@.len() - i,
                    {
                        match strand.domains[i] {
                            Domain::HelixDomain { helix, start, end, forward } => {
                                let mut p: isize = start;
                                while p < end
                                    invariant
                                        s < self.strands@.len(),
                                        self@[s as int] == Some(strand@),
                                        i < strand.domains@.len(),
                                        strand.domains@[i as int] == (Domain::HelixDomain { helix, start, end, forward }),
                                        start <= p,
                                        res.inv(self@),
                                        forall|j: int, n: Nucl|
                                            0 <= j < s && self@[j] is Some && #[trigger] holds(
                                                self@[j]->0.domains,
                                                n,
                                            ) ==> is_key(res.nucl_map@, n),
                                        forall|i2: int, n: Nucl|
                                            0 <= i2 < i && #[trigger] strand.domains@[i2].spec_contains(n)
                                                ==> is_key(res.nucl_map@, n),
                                        forall|q: isize|
                                            start <= q < p ==> #[trigger] is_key(
                                                res.nucl_map@,
                                                Nucl { helix, position: q, forward },
                                            ),
                                    decreases end - p,
                                {
                                    let n = Nucl { helix, position: p, forward };
                                    let ghost m0 = res.nucl_map@;
                                    if !res.contains(&n) {
                                        proof {
                                            assert(strand.domains@[i as int].spec_contains(n));
                                            assert(holds(self@[s as int]->0.domains, n));
                                            assert(present(self@, n));
                                        }
                                        if self.has_nucl(&n.compl()) {
                                            let h = res.new_helix(helix, p, Ghost(self@));
                                            res.put_rigid(n, h, Ghost(self@));
                                        } else {
                                            res.put_free(n, Ghost(self@));
                                        }
                                    }
                                    proof {
                                        assert forall|x: Nucl| is_key(m0, x) implies #[trigger] is_key(
                                            res.nucl_map@,
                                            x,
                                        ) by {}
                                        assert(is_key(res.nucl_map@, n));
                                    }
                                    p = p + 1;
                                }
                            },
                            Domain::Insertion(_) => {},
                        }
                        proof {
                            assert forall|i2: int, n: Nucl|
                                0 <= i2 < i + 1 && #[trigger] strand.domains@[i2].spec_contains(n) implies is_key(
                                res.nucl_map@,
                                n,
                            ) by {
                                if i2 == i {
                                    if let Domain::HelixDomain { helix, start, end, forward } = strand.domains@[i2] {
                                        assert(n == Nucl { helix, position: n.position, forward });
                                    }
                                }
                            }
                        }
                        i = i + 1;
                    }
                    proof {
                        assert forall|j: int, n: Nucl|
                            0 <= j < s + 1 && self@[j] is Some && #[trigger] holds(self@[j]->0.domains, n) implies is_key(
                            res.nucl_map@,
                            n,
                        ) by {
                            if j == s {
                                let i2 = choose|i2: int|
                                    0 <= i2 < strand.domains@.len() && (#[trigger] strand.domains@[i2]).spec_contains(n);
                                assert(strand.domains@[i2].spec_contains(n));
                            }
                        }
                    }
                },
                None => {},
            }
            s = s + 1;
        }
        proof {
            assert forall|n: Nucl| #[trigger] present(self@, n) implies is_key(res.nucl_map@, n) by {
                let j = choose|j: int| 0 <= j < self@.len() && (#[trigger] self@[j]) is Some && holds(self@[j]->0.domains, n);
                assert(holds(self@[j]->0.domains, n));
            }
        }
    }

    /// The two walks of `read_intervals` from the 5' end `nucl` of a domain, first
    /// towards lower positions, then towards higher ones. A doubled nucleotide next to
    /// the previous doubled one joins its rigid helix; the first doubled nucleotide of a
    /// run opens a new one. The walk to the right goes on with the run of `nucl` itself.
    fn walk_from(&self, nucl: Nucl, lo: isize, hi: isize, res: &mut IntervalResult)
        requires
            old(res).inv(self@),
        ensures
            final(res).inv(self@),
    {
        let starting_doubled = self.has_nucl(&nucl.compl());
        let mut prev_doubled = false;
        let mut cur: Option<usize> = None;
        let mut start_helix: Option<usize> = None;
        let mut first = true;
        let mut moving = nucl;
        while moving.position >= lo && self.has_nucl(&moving)
            invariant
                res.inv(self@),
                moving.helix == nucl.helix,
                moving.forward == nucl.forward,
                cur is Some ==> cur->0 < res.helix_map@.len() && res.helix_map@[cur->0 as int] == nucl.helix,
                start_helix is Some ==> start_helix->0 < res.helix_map@.len()
                    && res.helix_map@[start_helix->0 as int] == nucl.helix,
            decreases moving.position - lo + 1,
        {
            let doubled = self.has_nucl(&moving.compl());
            if doubled && nucl.forward {
                let h = match cur {
                    Some(c) if prev_doubled => c,
                    _ => res.new_helix(nucl.helix, moving.position, Ghost(self@)),
                };
                res.put_rigid(moving, h, Ghost(self@));
                cur = Some(h);
                if first {
                    start_helix = Some(h);
                }
            } else if !doubled {
                res.put_free(moving, Ghost(self@));
            }
            first = false;
            prev_doubled = doubled;
            if moving.position == isize::MIN {
                break;
            }
            moving = moving.left();
        }
        if nucl.position == isize::MAX {
            return;
        }
        let mut prev_doubled = starting_doubled;
        let mut cur = start_helix;
        let mut moving = nucl.right();
        while moving.position < hi && self.has_nucl(&moving)
            invariant
                res.inv(self@),
                moving.helix == nucl.helix,
                moving.forward == nucl.forward,
                cur is Some ==> cur->0 < res.helix_map@.len() && res.helix_map@[cur->0 as int] == nucl.helix,
            decreases hi - moving.position,
        {
            let doubled = self.has_nucl(&moving.compl());
            if doubled && nucl.forward {
                let h = match cur {
                    Some(c) if prev_doubled => c,
                    _ => res.new_helix(nucl.helix, moving.position, Ghost(self@)),
                };
                res.put_rigid(moving, h, Ghost(self@));
                cur = Some(h);
            } else if !doubled {
                res.put_free(moving, Ghost(self@));
            }
            prev_doubled = doubled;
            moving = moving.right();
        }
    }
}

/// A nucleotide carried by a rigid helix: the rigid helix, and where on it.
#[derive(Debug, Clone, Copy, PartialEq, Eq, Hash, Structural)]
pub struct RigidNucl {
    pub helix: usize,
    pub position: isize,
    pub forward: bool,
}

/// The body of `n` in `m`, when `n` has an entry.
pub open spec fn body_of(m: Seq<(Nucl, FreeNucl)>, n: Nucl) -> FreeNucl {
    m[choose|k: int| 0 <= k < m.len() && (#[trigger] m[k]).0 == n].1
}

/// The index of `f` in `fl`, when `f` is listed.
pub open spec fn free_index(fl: Seq<FreeNucl>, f: FreeNucl) -> int {
    choose|i: int| 0 <= i < fl.len() && fl[i] == f
}

/// `n` on rigid helix `h`.
pub open spec fn rigid_nucl(n: Nucl, h: usize) -> RigidNucl {
    RigidNucl { helix: h, position: n.position, forward: n.forward }
}

/// The springs between rigid bodies of the cross-overs `xs`, in their order: one for
/// each cross-over whose two ends are both on rigid helices.
pub open spec fn rigid_springs(m: Seq<(Nucl, FreeNucl)>, xs: Seq<(Nucl, Nucl)>) -> Seq<(RigidNucl, RigidNucl)>
    decreases xs.len(),
{
    if xs.len() == 0 {
        seq![]
    } else {
        let prev = rigid_springs(m, xs.drop_last());
        let (a, b) = xs.last();
        let fa = body_of(m, a);
        let fb = body_of(m, b);
        if fa.helix is Some && fb.helix is Some {
            prev.push((rigid_nucl(a, fa.helix->0), rigid_nucl(b, fb.helix->0)))
        } else {
            prev
        }
    }
}

/// The springs between a rigid body and a free one of the bonds `bs`, in their order:
/// for each bond with one end rigid and the other free, the rigid end and the index of
/// the free body in `fl`.
pub open spec fn mixed_springs(m: Seq<(Nucl, FreeNucl)>, fl: Seq<FreeNucl>, bs: Seq<(Nucl, Nucl)>) -> Seq<
    (RigidNucl, usize),
>
    decreases bs.len(),
{
    if bs.len() == 0 {
        seq![]
    } else {
        let prev = mixed_springs(m, fl, bs.drop_last());
        let (a, b) = bs.last();
        let fa = body_of(m, a);
        let fb = body_of(m, b);
        if fa.helix is Some && fb.helix is None {
            prev.push((rigid_nucl(a, fa.helix->0), free_index(fl, fb) as usize))
        } else if fa.helix is None && fb.helix is Some {
            prev.push((rigid_nucl(b, fb.helix->0), free_index(fl, fa) as usize))
        } else {
            prev
        }
    }
}

/// The springs between free bodies of the bonds `bs`, in their order, as pairs of
/// indices in `fl`.
pub open spec fn free_springs(m: Seq<(Nucl, FreeNucl)>, fl: Seq<FreeNucl>, bs: Seq<(Nucl, Nucl)>) -> Seq<
    (usize, usize),
>
    decreases bs.len(),
{
    if bs.len() == 0 {
        seq![]
    } else {
        let prev = free_springs(m, fl, bs.drop_last());
        let (a, b) = bs.last();
        let fa = body_of(m, a);
        let fb = body_of(m, b);
        if fa.helix is None && fb.helix is None {
            prev.push((free_index(fl, fa) as usize, free_index(fl, fb) as usize))
        } else {
            prev
        }
    }
}

/// The springs of the helix relaxation, by the kinds of bodies they join.
pub struct SpringSets {
    pub springs: Vec<(RigidNucl, RigidNucl)>,
    pub mixed_springs: Vec<(RigidNucl, usize)>,
    pub free_springs: Vec<(usize, usize)>,
}

/// The anchors on rigid helices, in the order of `anchors`: for each anchor that has a
/// rigid body, that body and the anchor's index in `anchors`.
pub open spec fn rigid_anchors(m: Seq<(Nucl, FreeNucl)>, anchors: Seq<Nucl>) -> Seq<(RigidNucl, usize)>
    decreases anchors.len(),
{
    if anchors.len() == 0 {
        seq![]
    } else {
        let prev = rigid_anchors(m, anchors.drop_last());
        let a = anchors.last();
        if is_key(m, a) && body_of(m, a).helix is Some {
            prev.push((rigid_nucl(a, body_of(m, a).helix->0), (anchors.len() - 1) as usize))
        } else {
            prev
        }
    }
}

/// The free anchors, in the order of `anchors`: for each anchor that has a free body,
/// the index of that body in `fl` and the anchor's index in `anchors`.
pub open spec fn free_anchors(m: Seq<(Nucl, FreeNucl)>, fl: Seq<FreeNucl>, anchors: Seq<Nucl>) -> Seq<
    (usize, usize),
>
    decreases anchors.len(),
{
    if anchors.len() == 0 {
        seq![]
    } else {
        let prev = free_anchors(m, fl, anchors.drop_last());
        let a = anchors.last();
        if is_key(m, a) && body_of(m, a).helix is None {
            prev.push((free_index(fl, body_of(m, a)) as usize, (anchors.len() - 1) as usize))
        } else {
            prev
        }
    }
}

/// The indices below `n` that are not in `anchors`, in increasing order.
pub open spec fn unanchored(n: nat, anchors: Seq<usize>) -> Seq<usize>
    decreases n,
{
    if n == 0 {
        seq![]
    } else {
        let prev = unanchored((n - 1) as nat, anchors);
        if anchors.contains((n - 1) as usize) {
            prev
        } else {
            prev.push((n - 1) as usize)
        }
    }
}

impl IntervalResult {
    /// The body of `n`, which has an entry.
    pub fn body(&self, n: &Nucl) -> (r: FreeNucl)
        requires
            self.wf(),
            is_key(self.nucl_map@, *n),
        ensures
            r == body_of(self.nucl_map@, *n),
            self.nucl_map@.contains((*n, r)),
    {
        let ghost m = self.nucl_map@;
        let ghost c = choose|k: int| 0 <= k < m.len() && (#[trigger] m[k]).0 == *n;
        let mut k: usize = 0;
        while k < self.nucl_map.len()
            invariant
                k <= m.len(),
                m == self.nucl_map@,
                0 <= c < m.len(),
                m[c].0 == *n,
                self.wf(),
                forall|j: int| 0 <= j < k ==> (#[trigger] m[j]).0 != *n,
            decreases m.len() - k,
        {
            if self.nucl_map[k].0 == *n {
                proof {
                    assert(m[k as int] == (*n, m[k as int].1));
                    if k as int != c {
                        if (k as int) < c {
                            assert(m[k as int].0 != m[c].0);
                        } else {
                            assert(m[c].0 != m[k as int].0);
                        }
                    }
                }
                return self.nucl_map[k].1;
            }
            k = k + 1;
        }
        proof {
            assert(m[c].0 != *n);
        }
        self.nucl_map[0].1
    }

    /// The index of the free body `f` in `free_nucls`, where it is listed.
    pub fn free_id(&self, f: &FreeNucl) -> (r: usize)
        requires
            lists_free(self.nucl_map@, self.free_nucls@),
            self.free_nucls@.contains(*f),
        ensures
            r == free_index(self.free_nucls@, *f),
            r < self.free_nucls@.len(),
            self.free_nucls@[r as int] == *f,
    {
        let ghost fl = self.free_nucls@;
        let ghost c = free_index(fl, *f);
        let mut i: usize = 0;
        while i < self.free_nucls.len()
            invariant
                i <= fl.len(),
                fl == self.free_nucls@,
                0 <= c < fl.len(),
                fl[c] == *f,
                forall|j: int, l: int| 0 <= j < l < fl.len() ==> (#[trigger] fl[j]) != (#[trigger] fl[l]),
                forall|j: int| 0 <= j < i ==> fl[j] != *f,
            decreases fl.len() - i,
        {
            if self.free_nucls[i] == *f {
                proof {
                    if i as int != c {
                        if (i as int) < c {
                            assert(fl[i as int] != fl[c]);
                        } else {
                            assert(fl[c] != fl[i as int]);
                        }
                    }
                }
                return i;
            }
            i = i + 1;
        }
        proof {
            assert(fl[c] != *f);
        }
        0
    }

    /// A free body is listed in `free_nucls`.
    proof fn lemma_free_listed(&self, n: Nucl)
        requires
            self.wf(),
            lists_free(self.nucl_map@, self.free_nucls@),
            is_key(self.nucl_map@, n),
            body_of(self.nucl_map@, n).helix is None,
        ensures
            self.free_nucls@.contains(body_of(self.nucl_map@, n)),
    {
        let m = self.nucl_map@;
        let c = choose|k: int| 0 <= k < m.len() && (#[trigger] m[k]).0 == n;
        assert(free_entry(m, c));
    }

    /// Sort the cross-overs `xovers` and the backbone bonds `bonds` into springs between
    /// two rigid bodies, a rigid and a free body, and two free bodies. Only cross-overs
    /// make springs between rigid bodies; a bond between two rigid bodies makes none.
    pub fn classify_springs(&self, xovers: &Vec<(Nucl, Nucl)>, bonds: &Vec<(Nucl, Nucl)>) -> (r: SpringSets)
        requires
            self.wf(),
            lists_free(self.nucl_map@, self.free_nucls@),
            forall|i: int|
                0 <= i < xovers@.len() ==> is_key(self.nucl_map@, (#[trigger] xovers@[i]).0) && is_key(
                    self.nucl_map@,
                    xovers@[i].1,
                ),
            forall|i: int|
                0 <= i < bonds@.len() ==> is_key(self.nucl_map@, (#[trigger] bonds@[i]).0) && is_key(
                    self.nucl_map@,
                    bonds@[i].1,
                ),
        ensures
            r.springs@ == rigid_springs(self.nucl_map@, xovers@),
            r.mixed_springs@ == mixed_springs(self.nucl_map@, self.free_nucls@, bonds@),
            r.free_springs@ == free_springs(self.nucl_map@, self.free_nucls@, bonds@),
    {
        let ghost m = self.nucl_map@;
        let ghost fl = self.free_nucls@;
        let mut springs: Vec<(RigidNucl, RigidNucl)> = Vec::new();
        let mut i: usize = 0;
        while i < xovers.len()
            invariant
                i <= xovers@.len(),
                self.wf(),
                m == self.nucl_map@,
                forall|j: int|
                    0 <= j < xovers@.len() ==> is_key(m, (#[trigger] xovers@[j]).0) && is_key(m, xovers@[j].1),
                springs@ == rigid_springs(m, xovers@.subrange(0, i as int)),
            decreases xovers@.len() - i,
        {
            let (a, b) = xovers[i];
            assert(xovers@.subrange(0, i + 1).drop_last() == xovers@.subrange(0, i as int));
            assert(xovers@.subrange(0, i + 1).last() == xovers@[i as int]);
            let fa = self.body(&a);
            let fb = self.body(&b);
            match (fa.helix, fb.helix) {
                (Some(h1), Some(h2)) => {
                    springs.push(
                        (
                            RigidNucl { helix: h1, position: a.position, forward: a.forward },
                            RigidNucl { helix: h2, position: b.position, forward: b.forward },
                        ),
                    );
                },
                _ => {},
            }
            i = i + 1;
        }
        assert(xovers@.subrange(0, xovers@.len() as int) == xovers@);
        let mut mixed: Vec<(RigidNucl, usize)> = Vec::new();
        let mut free: Vec<(usize, usize)> = Vec::new();
        let mut i: usize = 0;
        while i < bonds.len()
            invariant
                i <= bonds@.len(),
                self.wf(),
                lists_free(self.nucl_map@, self.free_nucls@),
                m == self.nucl_map@,
                fl == self.free_nucls@,
                forall|j: int|
                    0 <= j < bonds@.len() ==> is_key(m, (#[trigger] bonds@[j]).0) && is_key(m, bonds@[j].1),
                mixed@ == mixed_springs(m, fl, bonds@.subrange(0, i as int)),
                free@ == free_springs(m, fl, bonds@.subrange(0, i as int)),
            decreases bonds@.len() - i,
        {
            let (a, b) = bonds[i];
            assert(bonds@.subrange(0, i + 1).drop_last() == bonds@.subrange(0, i as int));
            assert(bonds@.subrange(0, i + 1).last() == bonds@[i as int]);
            let fa = self.body(&a);
            let fb = self.body(&b);
            match (fa.helix, fb.helix) {
                (Some(_), Some(_)) => {},
                (Some(h1), None) => {
                    proof {
                        self.lemma_free_listed(b);
                    }
                    let id = self.free_id(&fb);
                    mixed.push((RigidNucl { helix: h1, position: a.position, forward: a.forward }, id));
                },
                (None, Some(h2)) => {
                    proof {
                        self.lemma_free_listed(a);
                    }
                    let id = self.free_id(&fa);
                    mixed.push((RigidNucl { helix: h2, position: b.position, forward: b.forward }, id));
                },
                (None, None) => {
                    proof {
                        self.lemma_free_listed(a);
                        self.lemma_free_listed(b);
                    }
                    let id1 = self.free_id(&fa);
                    let id2 = self.free_id(&fb);
                    free.push((id1, id2));
                },
            }
            i = i + 1;
        }
        assert(bonds@.subrange(0, bonds@.len() as int) == bonds@);
        SpringSets { springs, mixed_springs: mixed, free_springs: free }
    }

    /// Split `anchors` into those on rigid helices and those on free bodies; an anchor
    /// without a body is left out. Each keeps its index in `anchors`, by which the
    /// caller finds its position.
    pub fn split_anchors(&self, anchors: &Vec<Nucl>) -> (r: (Vec<(RigidNucl, usize)>, Vec<(usize, usize)>))
        requires
            self.wf(),
            lists_free(self.nucl_map@, self.free_nucls@),
        ensures
            r.0@ == rigid_anchors(self.nucl_map@, anchors@),
            r.1@ == free_anchors(self.nucl_map@, self.free_nucls@, anchors@),
    {
        let ghost m = self.nucl_map@;
        let ghost fl = self.free_nucls@;
        let mut rigid: Vec<(RigidNucl, usize)> = Vec::new();
        let mut free: Vec<(usize, usize)> = Vec::new();
        let mut i: usize = 0;
        while i < anchors.len()
            invariant
                i <= anchors@.len(),
                self.wf(),
                lists_free(self.nucl_map@, self.free_nucls@),
                m == self.nucl_map@,
                fl == self.free_nucls@,
                rigid@ == rigid_anchors(m, anchors@.subrange(0, i as int)),
                free@ == free_anchors(m, fl, anchors@.subrange(0, i as int)),
            decreases anchors@.len() - i,
        {
            let a = anchors[i];
            assert(anchors@.subrange(0, i + 1).drop_last() == anchors@.subrange(0, i as int));
            assert(anchors@.subrange(0, i + 1).last() == anchors@[i as int]);
            assert(anchors@.subrange(0, i + 1).len() - 1 == i);
            if self.contains(&a) {
                let f = self.body(&a);
                match f.helix {
                    Some(h) => {
                        rigid.push((RigidNucl { helix: h, position: a.position, forward: a.forward }, i));
                    },
                    None => {
                        proof {
                            self.lemma_free_listed(a);
                        }
                        let id = self.free_id(&f);
                        free.push((id, i));
                    },
                }
            }
            i = i + 1;
        }
        assert(anchors@.subrange(0, anchors@.len() as int) == anchors@);
        (rigid, free)
    }
}

/// The free bodies, among the first `n_free`, that are not anchored and so get random
/// jumps scheduled, in increasing order.
pub fn unanchored_free_bodies(n_free: usize, free_anchors: &Vec<usize>) -> (r: Vec<usize>)
    ensures
        r@ == unanchored(n_free as nat, free_anchors@),
{
    let mut r: Vec<usize> = Vec::new();
    let mut i: usize = 0;
    while i < n_free
        invariant
            i <= n_free,
            r@ == unanchored(i as nat, free_anchors@),
        decreases n_free - i,
    {
        let mut anchored = false;
        let mut k: usize = 0;
        while k < free_anchors.len()
            invariant
                k <= free_anchors@.len(),
                anchored == exists|j: int| 0 <= j < k && free_anchors@[j] == i,
            decreases free_anchors@.len() - k,
        {
            if free_anchors[k] == i {
                anchored = true;
            }
            k = k + 1;
        }
        assert(anchored == free_anchors@.contains(i));
        if !anchored {
            r.push(i);
        }
        i = i + 1;
    }
    r
}

} // verus!
