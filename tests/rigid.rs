use ensnano::nucl::Nucl;
use ensnano::rigid::{prime5_end, unanchored_free_bodies, RigidNucl};
use ensnano::strands::{Domain, Strand, StrandState};

fn strand(helix: usize, start: isize, end: isize, forward: bool) -> Option<Strand> {
    Some(Strand { domains: vec![Domain::HelixDomain { helix, start, end, forward }], color: 0, circular: false })
}

#[test]
fn double_strand_is_one_rigid_helix_and_single_strand_is_free() {
    let st = StrandState { strands: vec![strand(0, 0, 4, true), strand(0, 0, 4, false), strand(1, 0, 2, true)] };
    let r = st.read_intervals();
    assert_eq!(r.intervals, vec![(0, 3)]);
    assert_eq!(r.helix_map, vec![0]);
    assert_eq!(r.free_nucls.len(), 2);
    assert!(r.free_nucls.iter().all(|f| f.helix.is_none() && f.old_helix == Some(1)));
    assert_eq!(r.nucl_map.len(), 10);
    for (n, f) in r.nucl_map.iter() {
        if n.helix == 0 {
            assert_eq!(f.helix, Some(0));
        } else {
            assert_eq!(f.helix, None);
        }
    }
}

#[test]
fn a_gap_in_the_complement_splits_the_rigid_helix() {
    let st = StrandState { strands: vec![strand(0, 0, 6, true), strand(0, 0, 2, false), strand(0, 4, 6, false)] };
    let r = st.read_intervals();
    assert_eq!(r.intervals, vec![(0, 1), (4, 5)]);
    assert_eq!(r.helix_map, vec![0, 0]);
    assert_eq!(r.free_nucls.len(), 2);
    assert!(r.free_nucls.iter().all(|f| f.position == 2 || f.position == 3));
}

#[test]
fn free_nucls_are_listed_once() {
    // two backward strands next to each other without complements: each domain is
    // walked, but every free nucleotide has one body
    let st = StrandState { strands: vec![strand(3, 0, 3, false), strand(3, 3, 6, false)] };
    let r = st.read_intervals();
    assert_eq!(r.free_nucls.len(), 6);
    assert_eq!(r.nucl_map.len(), 6);
    assert!(r.intervals.is_empty());
}

#[test]
fn rigid_nucls_and_complements_share_a_helix() {
    let st = StrandState { strands: vec![strand(0, 0, 3, false), strand(0, 0, 3, true), strand(2, 5, 7, true), strand(2, 5, 7, false)] };
    let r = st.read_intervals();
    assert_eq!(r.intervals, vec![(0, 2), (5, 6)]);
    assert_eq!(r.helix_map, vec![0, 2]);
    for (n, f) in r.nucl_map.iter() {
        let partner = r.nucl_map.iter().find(|(m, _)| *m == n.compl()).unwrap();
        assert_eq!(partner.1.helix, f.helix);
        assert_eq!(r.helix_map[f.helix.unwrap()], n.helix);
    }
}

#[test]
fn prime5_ends_of_domains() {
    assert_eq!(prime5_end(&Domain::HelixDomain { helix: 2, start: 3, end: 9, forward: true }), Some(Nucl::new(2, 3, true)));
    assert_eq!(prime5_end(&Domain::HelixDomain { helix: 2, start: 3, end: 9, forward: false }), Some(Nucl::new(2, 8, false)));
    assert_eq!(prime5_end(&Domain::Insertion(4)), None);
}

#[test]
fn an_undoubled_start_leaves_the_first_run_a_new_helix() {
    let st = StrandState { strands: vec![strand(0, 0, 6, true), strand(0, 2, 4, false)] };
    let r = st.read_intervals();
    assert_eq!(r.intervals, vec![(2, 3)]);
    assert_eq!(r.free_nucls.len(), 4);
}

fn rn(helix: usize, position: isize, forward: bool) -> RigidNucl {
    RigidNucl { helix, position, forward }
}

#[test]
fn springs_are_sorted_by_the_bodies_they_join() {
    let st = StrandState { strands: vec![strand(0, 0, 4, true), strand(0, 0, 4, false), strand(1, 0, 3, true)] };
    let r = st.read_intervals();
    assert_eq!(r.free_nucls.iter().map(|f| f.position).collect::<Vec<_>>(), vec![0, 1, 2]);
    let xovers = vec![(Nucl::new(0, 3, true), Nucl::new(0, 0, false)), (Nucl::new(0, 3, true), Nucl::new(1, 0, true))];
    let bonds = vec![
        (Nucl::new(0, 3, true), Nucl::new(1, 0, true)),
        (Nucl::new(1, 0, true), Nucl::new(1, 1, true)),
        (Nucl::new(0, 1, true), Nucl::new(0, 2, true)),
        (Nucl::new(1, 2, true), Nucl::new(0, 0, false)),
    ];
    let sets = r.classify_springs(&xovers, &bonds);
    assert_eq!(sets.springs, vec![(rn(0, 3, true), rn(0, 0, false))]);
    assert_eq!(sets.mixed_springs, vec![(rn(0, 3, true), 0), (rn(0, 0, false), 2)]);
    assert_eq!(sets.free_springs, vec![(0, 1)]);
}

#[test]
fn anchors_split_into_rigid_and_free() {
    let st = StrandState { strands: vec![strand(0, 0, 4, true), strand(0, 0, 4, false), strand(1, 0, 3, true)] };
    let r = st.read_intervals();
    let anchors = vec![Nucl::new(1, 1, true), Nucl::new(0, 2, true), Nucl::new(5, 0, true)];
    let (rigid, free) = r.split_anchors(&anchors);
    assert_eq!(rigid, vec![(rn(0, 2, true), 1)]);
    assert_eq!(free, vec![(1, 0)]);
    let jumping = unanchored_free_bodies(r.free_nucls.len(), &free.iter().map(|(id, _)| *id).collect());
    assert_eq!(jumping, vec![0, 2]);
}

#[test]
fn every_free_body_jumps_without_anchors() {
    assert_eq!(unanchored_free_bodies(4, &vec![]), vec![0, 1, 2, 3]);
    assert!(unanchored_free_bodies(0, &vec![0]).is_empty());
    assert_eq!(unanchored_free_bodies(3, &vec![0, 2, 7]), vec![1]);
}
