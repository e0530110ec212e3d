//! The parts of the scadnano interchange format that carry no geometry: helices,
//! strands and their domains, modifications, and what is read from them on import.
use vstd::prelude::*;

use std::collections::{BTreeMap, BTreeSet};

verus! {

broadcast use vstd::std_specs::btree::group_btree_axioms, vstd::laws_cmp::group_laws_cmp;

/// The lattices a grid can have.
#[derive(Debug, Clone, Copy, PartialEq, Eq, Structural)]
pub enum GridTypeDescr {
    Square,
    Honeycomb,
}

pub struct ScadnanoHelix {
    pub max_offset: usize,
    pub grid_position: Vec<isize>,
    pub group: Option<String>,
}

pub struct ScadnanoStrand {
    pub is_scaffold: bool,
    pub sequence: Option<String>,
    pub color: String,
    pub domains: Vec<ScadnanoDomain>,
    pub prime5_modification: Option<String>,
    pub prime3_modification: Option<String>,
    pub circular: bool,
}

pub enum ScadnanoDomain {
    Loopout { loopout: usize },
    HelixDomain {
        helix: usize,
        start: isize,
        end: isize,
        forward: bool,
        insertions: Option<Vec<Vec<isize>>>,
        deletions: Option<Vec<isize>>,
    },
}

pub struct ScadnanoModification {
    pub display_text: String,
    pub idt_text: String,
    pub location: String,
}

/// The name of the lattice of a design that does not name one.
pub fn default_grid() -> (r: String)
    ensures
        r@ == "square"@,
{
    String::from_str("square")
}

/// Whether two strings hold the same characters.
pub fn same_text(a: &str, b: &str) -> (r: bool)
    ensures
        r == (a@ == b@),
{
    let n = a.unicode_len();
    if n != b.unicode_len() {
        return false;
    }
    let mut i: usize = 0;
    while i < n
        invariant
            n == a@.len(),
            n == b@.len(),
            i <= n,
            forall|j: int| 0 <= j < i ==> a@[j] == b@[j],
        decreases n - i,
    {
        if a.get_char(i) != b.get_char(i) {
            return false;
        }
        i = i + 1;
    }
    assert(a@ =~= b@);
    true
}

/// The lattice that a grid name stands for: "square" or "honeycomb"; any other name
/// stands for none.
pub fn grid_type_of(name: &str) -> (r: Option<GridTypeDescr>)
    ensures
        name@ == "square"@ ==> r == Some(GridTypeDescr::Square),
        name@ == "honeycomb"@ ==> r == Some(GridTypeDescr::Honeycomb),
        name@ != "square"@ && name@ != "honeycomb"@ ==> r is None,
{
    proof {
        reveal_strlit("square");
        reveal_strlit("honeycomb");
        assert("square"@.len() != "honeycomb"@.len());
    }
    if same_text(name, "square") {
        Some(GridTypeDescr::Square)
    } else if same_text(name, "honeycomb") {
        Some(GridTypeDescr::Honeycomb)
    } else {
        None
    }
}

pub open spec fn is_hex_digit(c: char) -> bool {
    ('0' <= c && c <= '9') || ('a' <= c && c <= 'f') || ('A' <= c && c <= 'F')
}

pub open spec fn hex_digit_value(c: char) -> nat {
    if '0' <= c && c <= '9' {
        (c as nat - '0' as nat) as nat
    } else if 'a' <= c && c <= 'f' {
        (c as nat - 'a' as nat + 10) as nat
    } else {
        (c as nat - 'A' as nat + 10) as nat
    }
}

/// The number that a string of hexadecimal digits writes.
pub open spec fn hex_value(s: Seq<char>) -> nat
    decreases s.len(),
{
    if s.len() == 0 {
        0
    } else {
        hex_value(s.drop_last()) * 16 + hex_digit_value(s.last())
    }
}

/// What `u32::from_str_radix` reads in base 16: an optional `+` and then at least one
/// hexadecimal digit and nothing else, whose value fits in 32 bits.
pub open spec fn hex_u32(s: Seq<char>) -> Option<u32> {
    let digits = if s.len() > 0 && s[0] == '+' {
        s.drop_first()
    } else {
        s
    };
    if digits.len() > 0 && (forall|i: int| 0 <= i < digits.len() ==> is_hex_digit(#[trigger] digits[i]))
        && hex_value(digits) <= u32::MAX {
        Some(hex_value(digits) as u32)
    } else {
        None
    }
}

/// Relies on `u32::from_str_radix` in base 16, as its documentation states it: an
/// optional sign and digits, no whitespace, an error on overflow, and `-` refused for
/// an unsigned type.
#[verifier::external_body]
fn parse_hex_u32(s: &str) -> (r: Option<u32>)
    ensures
        r == hex_u32(s@),
{
    u32::from_str_radix(s, 16).ok()
}

impl ScadnanoStrand {
    /// The color written after the leading `#` as a hexadecimal number; `None` when the
    /// text is empty or what follows its first character is no such number.
    pub fn color(&self) -> (r: Option<u32>)
        ensures
            self.color@.len() == 0 ==> r is None,
            self.color@.len() > 0 ==> r == hex_u32(self.color@.drop_first()),
    {
        let s = self.color.as_str();
        let n = s.unicode_len();
        if n == 0 {
            return None;
        }
        let digits = s.substring_char(1, n);
        assert(digits@ =~= self.color@.drop_first());
        parse_hex_u32(digits)
    }

    /// Add the deleted positions of every domain to the sets of their helices.
    pub fn read_deletions(&self, deletions: &mut BTreeMap<usize, BTreeSet<isize>>)
        ensures
            deletions_read(old(deletions)@, final(deletions)@, self.domains@),
    {
        let ghost start = deletions@;
        let mut i: usize = 0;
        while i < self.domains.len()
            invariant
                i <= self.domains@.len(),
                deletions_read(start, deletions@, self.domains@.subrange(0, i as int)),
            decreases self.domains@.len() - i,
        {
            let ghost before = deletions@;
            self.domains[i].read_deletions(deletions);
            proof {
                lemma_deletions_read_step(start, before, deletions@, self.domains@, i as int);
            }
            i = i + 1;
        }
        assert(self.domains@.subrange(0, self.domains@.len() as int) =~= self.domains@);
    }
}

/// The positions that `d` deletes on helix `h`.
pub open spec fn domain_deletes(d: ScadnanoDomain, h: usize, p: isize) -> bool {
    match d {
        ScadnanoDomain::HelixDomain { helix, deletions: Some(v), .. } => helix == h && v@.contains(p),
        _ => false,
    }
}

/// Whether `d` records deletions on helix `h`.
pub open spec fn domain_records(d: ScadnanoDomain, h: usize) -> bool {
    match d {
        ScadnanoDomain::HelixDomain { helix, deletions: Some(_), .. } => helix == h,
        _ => false,
    }
}

/// `after` is `before` with the deletions of `ds` added: a helix has a set once it had
/// one or a domain records deletions on it, and that set holds what it held and what
/// the domains delete on that helix.
pub open spec fn deletions_read(
    before: Map<usize, BTreeSet<isize>>,
    after: Map<usize, BTreeSet<isize>>,
    ds: Seq<ScadnanoDomain>,
) -> bool {
    &&& forall|h: usize|
        #[trigger] after.contains_key(h) <==> (before.contains_key(h) || exists|i: int|
            0 <= i < ds.len() && domain_records(#[trigger] ds[i], h))
    &&& forall|h: usize, p: isize|
        after.contains_key(h) ==> (#[trigger] after[h]@.contains(p) <==> ((before.contains_key(h)
            && before[h]@.contains(p)) || exists|i: int|
            0 <= i < ds.len() && domain_deletes(#[trigger] ds[i], h, p)))
}

proof fn lemma_deletions_read_step(
    start: Map<usize, BTreeSet<isize>>,
    mid: Map<usize, BTreeSet<isize>>,
    after: Map<usize, BTreeSet<isize>>,
    ds: Seq<ScadnanoDomain>,
    i: int,
)
    requires
        0 <= i < ds.len(),
        deletions_read(start, mid, ds.subrange(0, i)),
        deletions_read(mid, after, seq![ds[i]]),
    ensures
        deletions_read(start, after, ds.subrange(0, i + 1)),
{
    let pre = ds.subrange(0, i);
    let cur = ds.subrange(0, i + 1);
    assert forall|h: usize| #[trigger] after.contains_key(h) <==> (start.contains_key(h) || exists|
        j: int|
        0 <= j < cur.len() && domain_records(#[trigger] cur[j], h)) by {
        if exists|j: int| 0 <= j < cur.len() && domain_records(#[trigger] cur[j], h) {
            let j = choose|j: int| 0 <= j < cur.len() && domain_records(#[trigger] cur[j], h);
            if j < i {
                assert(pre[j] == cur[j]);
            } else {
                assert(seq![ds[i]][0] == cur[j]);
            }
        }
        if exists|j: int| 0 <= j < pre.len() && domain_records(#[trigger] pre[j], h) {
            let j = choose|j: int| 0 <= j < pre.len() && domain_records(#[trigger] pre[j], h);
            assert(cur[j] == pre[j]);
        }
        if exists|j: int| 0 <= j < 1 && domain_records(#[trigger] seq![ds[i]][j], h) {
            assert(cur[i] == seq![ds[i]][0]);
        }
    }
    assert forall|h: usize, p: isize| after.contains_key(h) implies (#[trigger] after[h]@.contains(p)
        <==> ((start.contains_key(h) && start[h]@.contains(p)) || exists|j: int|
        0 <= j < cur.len() && domain_deletes(#[trigger] cur[j], h, p))) by {
        if exists|j: int| 0 <= j < cur.len() && domain_deletes(#[trigger] cur[j], h, p) {
            let j = choose|j: int| 0 <= j < cur.len() && domain_deletes(#[trigger] cur[j], h, p);
            if j < i {
                assert(pre[j] == cur[j]);
                assert(domain_records(pre[j], h));
            } else {
                assert(seq![ds[i]][0] == cur[j]);
                assert(domain_records(seq![ds[i]][0], h));
            }
        }
        if exists|j: int| 0 <= j < pre.len() && domain_deletes(#[trigger] pre[j], h, p) {
            let j = choose|j: int| 0 <= j < pre.len() && domain_deletes(#[trigger] pre[j], h, p);
            assert(cur[j] == pre[j]);
            assert(domain_records(pre[j], h));
        }
        if exists|j: int| 0 <= j < 1 && domain_deletes(#[trigger] seq![ds[i]][j], h, p) {
            assert(cur[i] == seq![ds[i]][0]);
        }
        if start.contains_key(h) && start[h]@.contains(p) {
            assert(mid.contains_key(h));
        }
    }
}

impl ScadnanoDomain {
    /// Add the positions that this domain deletes to the set of its helix.
    pub fn read_deletions(&self, deletions_map: &mut BTreeMap<usize, BTreeSet<isize>>)
        ensures
            deletions_read(old(deletions_map)@, final(deletions_map)@, seq![*self]),
    {
        match self {
            ScadnanoDomain::Loopout { .. } => {},
            ScadnanoDomain::HelixDomain { deletions, helix, .. } => {
                match deletions {
                    Some(vec) => {
                        let ghost before = deletions_map@;
                        let mut entry = match deletions_map.remove(helix) {
                            Some(set) => set,
                            None => BTreeSet::new(),
                        };
                        let ghost base = entry@;
                        assert(before.contains_key(*helix) ==> base == before[*helix]@);
                        assert(!before.contains_key(*helix) ==> base == Set::<isize>::empty());
                        assert(deletions_map@ == before.remove(*helix));
                        let mut k: usize = 0;
                        while k < vec.len()
                            invariant
                                k <= vec@.len(),
                                forall|p: isize| #[trigger]
                                    entry@.contains(p) <==> (base.contains(p) || exists|j: int|
                                        0 <= j < k && vec@[j] == p),
                            decreases vec@.len() - k,
                        {
                            entry.insert(vec[k]);
                            k = k + 1;
                        }
                        deletions_map.insert(*helix, entry);
                        let ghost after = deletions_map@;
                        let ghost ds = seq![*self];
                        assert forall|h: usize| #[trigger] after.contains_key(h) <==> (
                            before.contains_key(h) || exists|i: int|
                                0 <= i < ds.len() && domain_records(#[trigger] ds[i], h)) by {
                            if h == *helix {
                                assert(domain_records(ds[0], h));
                            }
                        }
                        assert forall|h: usize, p: isize| after.contains_key(h) implies (
                        #[trigger] after[h]@.contains(p) <==> ((before.contains_key(h)
                            && before[h]@.contains(p)) || exists|i: int|
                            0 <= i < ds.len() && domain_deletes(#[trigger] ds[i], h, p))) by {
                            if h == *helix {
                                if vec@.contains(p) {
                                    assert(domain_deletes(ds[0], h, p));
                                }
                                if exists|i: int| 0 <= i < ds.len() && domain_deletes(#[trigger] ds[i], h, p) {
                                    assert(vec@.contains(p));
                                }
                                if exists|j: int| 0 <= j < vec@.len() && vec@[j] == p {
                                    let j = choose|j: int| 0 <= j < vec@.len() && vec@[j] == p;
                                    assert(vec@.contains(p));
                                }
                                if vec@.contains(p) {
                                    let j = choose|j: int| 0 <= j < vec@.len() && vec@[j] == p;
                                    assert(entry@.contains(p));
                                }
                            }
                        }
                    },
                    None => {},
                }
            },
        }
    }
}

} // verus!
