use ensnano::design::{Design, OperationResult, UndoableOp};
use ensnano::nucl::Nucl;
use ensnano::strands::{Domain, Strand, StrandState};

fn dom(helix: usize, start: isize, end: isize, forward: bool) -> Domain {
    Domain::HelixDomain { helix, start, end, forward }
}

fn two_domain_strand() -> Strand {
    Strand { domains: vec![dom(0, 0, 10, true), dom(1, 0, 10, false)], color: 0xFF0000, circular: false }
}

fn design_with(strands: Vec<Strand>) -> Design {
    let mut d = Design::new(0);
    d.strands = StrandState { strands: strands.into_iter().map(Some).collect() };
    d
}

fn domains_of(d: &Design, s_id: usize) -> Vec<Domain> {
    d.strands.strands[s_id].as_ref().unwrap().domains.clone()
}

#[test]
fn cut_splits_a_linear_strand() {
    let mut d = design_with(vec![two_domain_strand()]);
    let r = d.apply_operation(UndoableOp::Cut {
        nucl: Nucl::new(0, 4, true),
        strand: two_domain_strand(),
        undo: false,
        s_id: 0,
    });
    assert!(matches!(r, OperationResult::BigChange(_, _)));
    assert_eq!(d.strands.len(), 2);
    assert_eq!(domains_of(&d, 0), vec![dom(0, 0, 5, true)]);
    assert_eq!(domains_of(&d, 1), vec![dom(0, 5, 10, true), dom(1, 0, 10, false)]);
    assert_eq!(d.strands.strands[1].as_ref().unwrap().color, 0xFF0000);
}

#[test]
fn cut_then_undo_restores_the_strands() {
    let mut d = design_with(vec![two_domain_strand(), Strand { domains: vec![dom(2, 0, 4, true)], color: 7, circular: false }]);
    let before = d.get_strand_state();
    let r1 = d.apply_operation(UndoableOp::Cut {
        nucl: Nucl::new(1, 6, false),
        strand: two_domain_strand(),
        undo: false,
        s_id: 0,
    });
    assert_eq!(d.strands.len(), 3);
    assert_eq!(domains_of(&d, 0), vec![dom(0, 0, 10, true), dom(1, 6, 10, false)]);
    assert_eq!(domains_of(&d, 2), vec![dom(1, 0, 6, false)]);
    let r2 = d.apply_operation(UndoableOp::Cut {
        nucl: Nucl::new(1, 6, false),
        strand: two_domain_strand(),
        undo: true,
        s_id: 0,
    });
    match (r1, r2) {
        (OperationResult::BigChange(init, _), OperationResult::BigChange(_, after)) => {
            assert_eq!(init.strands.len(), after.strands.len());
            for (a, b) in init.strands.iter().zip(after.strands.iter()) {
                let (a, b) = (a.as_ref().unwrap(), b.as_ref().unwrap());
                assert_eq!(a.domains, b.domains);
                assert_eq!(a.color, b.color);
                assert_eq!(a.circular, b.circular);
            }
        }
        _ => panic!("cuts report the strands before and after"),
    }
    assert_eq!(d.strands.len(), before.strands.len());
    assert_eq!(domains_of(&d, 0), vec![dom(0, 0, 10, true), dom(1, 0, 10, false)]);
    assert_eq!(domains_of(&d, 1), vec![dom(2, 0, 4, true)]);
}

#[test]
fn cut_at_the_three_prime_end_changes_nothing() {
    let mut d = design_with(vec![two_domain_strand()]);
    d.apply_operation(UndoableOp::Cut { nucl: Nucl::new(1, 0, false), strand: two_domain_strand(), undo: false, s_id: 0 });
    assert_eq!(d.strands.len(), 1);
    assert_eq!(domains_of(&d, 0), vec![dom(0, 0, 10, true), dom(1, 0, 10, false)]);
}

#[test]
fn cut_of_a_nucl_the_strand_does_not_hold_changes_nothing() {
    let mut d = design_with(vec![two_domain_strand()]);
    d.apply_operation(UndoableOp::Cut { nucl: Nucl::new(5, 0, true), strand: two_domain_strand(), undo: false, s_id: 0 });
    assert_eq!(d.strands.len(), 1);
    assert_eq!(domains_of(&d, 0), vec![dom(0, 0, 10, true), dom(1, 0, 10, false)]);
}

#[test]
fn cut_opens_a_circular_strand() {
    let mut circ = two_domain_strand();
    circ.circular = true;
    let mut d = design_with(vec![circ]);
    d.apply_operation(UndoableOp::Cut { nucl: Nucl::new(0, 4, true), strand: two_domain_strand(), undo: false, s_id: 0 });
    assert_eq!(d.strands.len(), 1);
    let s = d.strands.strands[0].as_ref().unwrap();
    assert!(!s.circular);
    assert_eq!(s.domains, vec![dom(0, 5, 10, true), dom(1, 0, 10, false), dom(0, 0, 5, true)]);
}

#[test]
fn self_xover_makes_a_cycle_and_undo_opens_it() {
    let mut d = design_with(vec![two_domain_strand()]);
    d.apply_operation(UndoableOp::Xover {
        strand_5prime: two_domain_strand(),
        strand_3prime: two_domain_strand(),
        prime5_id: 0,
        prime3_id: 0,
        undo: false,
    });
    assert_eq!(d.strands.len(), 1);
    assert!(d.strands.strands[0].as_ref().unwrap().circular);
    assert_eq!(domains_of(&d, 0), two_domain_strand().domains);
    d.apply_operation(UndoableOp::Xover {
        strand_5prime: two_domain_strand(),
        strand_3prime: two_domain_strand(),
        prime5_id: 0,
        prime3_id: 0,
        undo: true,
    });
    assert!(!d.strands.strands[0].as_ref().unwrap().circular);
}

#[test]
fn xover_merges_and_undo_separates() {
    let a = Strand { domains: vec![dom(0, 0, 5, true)], color: 1, circular: false };
    let b = Strand { domains: vec![dom(1, 0, 5, false)], color: 2, circular: false };
    let mut d = design_with(vec![a, b]);
    d.apply_operation(UndoableOp::Xover {
        strand_5prime: Strand { domains: vec![dom(0, 0, 5, true)], color: 1, circular: false },
        strand_3prime: Strand { domains: vec![dom(1, 0, 5, false)], color: 2, circular: false },
        prime5_id: 0,
        prime3_id: 1,
        undo: false,
    });
    assert_eq!(domains_of(&d, 0), vec![dom(0, 0, 5, true), dom(1, 0, 5, false)]);
    assert_eq!(d.strands.strands[0].as_ref().unwrap().color, 1);
    assert!(d.strands.strands[1].is_none());
    d.apply_operation(UndoableOp::Xover {
        strand_5prime: Strand { domains: vec![dom(0, 0, 5, true)], color: 1, circular: false },
        strand_3prime: Strand { domains: vec![dom(1, 0, 5, false)], color: 2, circular: false },
        prime5_id: 0,
        prime3_id: 1,
        undo: true,
    });
    assert_eq!(domains_of(&d, 0), vec![dom(0, 0, 5, true)]);
    assert_eq!(domains_of(&d, 1), vec![dom(1, 0, 5, false)]);
    assert_eq!(d.strands.strands[1].as_ref().unwrap().color, 2);
}

#[test]
fn remove_strand_and_put_it_back() {
    let mut d = design_with(vec![two_domain_strand()]);
    d.apply_operation(UndoableOp::RmStrand { strand: two_domain_strand(), strand_id: 0, undo: false });
    assert!(d.strands.strands[0].is_none());
    d.apply_operation(UndoableOp::RmStrand { strand: two_domain_strand(), strand_id: 0, undo: true });
    assert_eq!(domains_of(&d, 0), two_domain_strand().domains);
}

#[test]
fn new_strand_state_replaces_everything() {
    let mut d = design_with(vec![two_domain_strand()]);
    let r = d.apply_operation(UndoableOp::NewStrandState(StrandState::new()));
    assert!(matches!(r, OperationResult::UndoableChange));
    assert_eq!(d.strands.len(), 0);
    assert_eq!(d.get_id(), 0);
}

#[test]
fn strand_lookup_by_nucl() {
    let d = design_with(vec![two_domain_strand(), Strand { domains: vec![dom(2, -3, 4, true)], color: 7, circular: false }]);
    assert_eq!(d.strands.get_strand_id(&Nucl::new(2, -3, true)), Some(1));
    assert_eq!(d.strands.get_strand_id(&Nucl::new(2, 4, true)), None);
    assert_eq!(d.strands.get_strand_id(&Nucl::new(1, 9, false)), Some(0));
    assert!(d.get_raw_strand(5).is_none());
    assert_eq!(d.get_raw_strand(1).unwrap().color, 7);
}

#[test]
fn design_accessors() {
    let mut d = design_with(vec![two_domain_strand(), Strand { domains: vec![dom(2, 0, 4, true)], color: 7, circular: false }]);
    d.apply_operation(UndoableOp::RmStrand { strand: two_domain_strand(), strand_id: 0, undo: false });
    assert_eq!(d.get_all_strand_ids(), vec![1]);
    assert_eq!(d.get_strand_color(1), Some(7));
    assert_eq!(d.get_strand_color(0), None);
    assert_eq!(d.get_strand_color(9), None);
    d.change_strand_color(1, 0x00FF00);
    assert_eq!(d.get_strand_color(1), Some(0x00FF00));
    d.change_strand_color(0, 5);
    assert_eq!(d.get_strand_color(0), None);
    assert!(!d.scaffold_is_set());
    d.set_scaffold_id(Some(1));
    assert!(d.scaffold_is_set());
    assert!(d.is_scaffold(1));
    assert!(!d.is_scaffold(0));
    assert_eq!(d.prime3_of(Nucl::new(2, 3, true)), Some(1));
    assert_eq!(d.prime5_of(Nucl::new(2, 0, true)), Some(1));
    assert_eq!(d.get_strand_nucl(&Nucl::new(2, 2, true)), Some(1));
    assert_eq!(d.get_strand_nucl(&Nucl::new(0, 2, true)), None);
}

fn cross_cut_op(target_3prime: bool, undo: bool) -> UndoableOp {
    UndoableOp::CrossCut {
        source_strand: Strand { domains: vec![dom(3, 0, 4, true)], color: 9, circular: false },
        target_strand: two_domain_strand(),
        source_id: 1,
        target_id: 0,
        target_3prime,
        nucl: Nucl::new(0, 5, true),
        undo,
    }
}

#[test]
fn cross_cut_joins_the_source_before_the_target_part() {
    let mut d = design_with(vec![two_domain_strand(), Strand { domains: vec![dom(3, 0, 4, true)], color: 9, circular: false }]);
    d.apply_operation(cross_cut_op(true, false));
    assert_eq!(d.strands.len(), 3);
    assert_eq!(domains_of(&d, 0), vec![dom(0, 0, 5, true)]);
    assert_eq!(domains_of(&d, 1), vec![dom(3, 0, 4, true), dom(0, 5, 10, true), dom(1, 0, 10, false)]);
    assert!(d.strands.strands[2].is_none());
    d.apply_operation(cross_cut_op(true, true));
    assert_eq!(d.strands.len(), 2);
    assert_eq!(domains_of(&d, 0), two_domain_strand().domains);
    assert_eq!(domains_of(&d, 1), vec![dom(3, 0, 4, true)]);
}

#[test]
fn cross_cut_joins_the_target_part_before_the_source() {
    let mut d = design_with(vec![two_domain_strand(), Strand { domains: vec![dom(3, 0, 4, true)], color: 9, circular: false }]);
    d.apply_operation(cross_cut_op(false, false));
    assert_eq!(d.strands.len(), 3);
    assert_eq!(domains_of(&d, 0), vec![dom(0, 0, 6, true), dom(3, 0, 4, true)]);
    assert!(d.strands.strands[1].is_none());
    assert_eq!(domains_of(&d, 2), vec![dom(0, 6, 10, true), dom(1, 0, 10, false)]);
    d.apply_operation(cross_cut_op(false, true));
    assert_eq!(d.strands.len(), 2);
    assert_eq!(domains_of(&d, 0), two_domain_strand().domains);
    assert_eq!(domains_of(&d, 1), vec![dom(3, 0, 4, true)]);
}
