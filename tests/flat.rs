use ensnano::design::{Design, UndoableOp};
use ensnano::flat::{following_suggestion, read_consequence, Consequence, FlatHelix, FlatNucl, FlatOperation};
use ensnano::strands::{Domain, Strand, StrandState};

fn fnucl(flat: usize, real: usize, position: isize, forward: bool) -> FlatNucl {
    FlatNucl { helix: FlatHelix { flat, real }, position, forward }
}

fn design() -> Design {
    let mut d = Design::new(1);
    d.strands = StrandState {
        strands: vec![
            Some(Strand { domains: vec![Domain::HelixDomain { helix: 5, start: 0, end: 8, forward: true }], color: 3, circular: false }),
            Some(Strand { domains: vec![Domain::HelixDomain { helix: 6, start: 0, end: 8, forward: false }], color: 4, circular: false }),
        ],
    };
    d
}

#[test]
fn cross_cut_on_one_helix_is_refused() {
    let d = design();
    let from = fnucl(0, 5, 2, true);
    let to = fnucl(0, 5, 6, true);
    let r = read_consequence(Consequence::CutCross(from, to), &d, Some((0, 1, true)), None);
    assert!(matches!(r, FlatOperation::Nothing));
}

#[test]
fn cross_cut_between_helices_is_sent() {
    let d = design();
    let from = fnucl(0, 5, 2, true);
    let to = fnucl(1, 6, 3, false);
    match read_consequence(Consequence::CutCross(from, to), &d, Some((0, 1, true)), None) {
        FlatOperation::Undoable(UndoableOp::CrossCut { source_id, target_id, target_3prime, nucl, source_strand, target_strand, undo }) => {
            assert!(!undo);
            assert_eq!((source_id, target_id, target_3prime), (0, 1, true));
            assert_eq!(nucl, to.to_real());
            assert_eq!(source_strand.color, 3);
            assert_eq!(target_strand.color, 4);
        }
        _ => panic!("expected a cross-cut"),
    }
    let none = read_consequence(Consequence::CutCross(from, to), &d, None, None);
    assert!(matches!(none, FlatOperation::Nothing));
}

#[test]
fn cut_request_names_the_real_helix() {
    let d = design();
    match read_consequence(Consequence::Cut(fnucl(1, 6, 3, false)), &d, None, None) {
        FlatOperation::Undoable(UndoableOp::Cut { nucl, strand, undo, s_id }) => {
            assert_eq!(nucl.helix, 6);
            assert_eq!(nucl.position, 3);
            assert!(!nucl.forward);
            assert!(!undo);
            assert_eq!(s_id, 1);
            assert_eq!(strand.color, 4);
        }
        _ => panic!("expected a cut"),
    }
    let missing = read_consequence(Consequence::Cut(fnucl(1, 7, 3, false)), &d, None, None);
    assert!(matches!(missing, FlatOperation::Nothing));
}

#[test]
fn remove_strand_request() {
    let d = design();
    match read_consequence(Consequence::RmStrand(fnucl(0, 5, 0, true)), &d, None, None) {
        FlatOperation::Undoable(UndoableOp::RmStrand { strand_id, undo, .. }) => {
            assert_eq!(strand_id, 0);
            assert!(!undo);
        }
        _ => panic!("expected a removal"),
    }
}

#[test]
fn following_a_suggestion_once_or_twice() {
    let a = fnucl(0, 5, 3, true);
    let b = fnucl(1, 6, 3, false);
    let d = design();
    assert!(following_suggestion(a, None, true).is_empty());
    assert_eq!(following_suggestion(a, Some(b), false), vec![(a.to_real(), b.to_real())]);
    let both = following_suggestion(a, Some(b), true);
    assert_eq!(both, vec![(a.to_real(), b.to_real()), (fnucl(0, 5, 4, true).to_real(), fnucl(1, 6, 4, false).to_real())]);
    match read_consequence(Consequence::FollowingSuggestion(a, true), &d, None, Some(b)) {
        FlatOperation::XoverRequests(v) => assert_eq!(v, both),
        _ => panic!("a followed suggestion asks for cross-overs"),
    }
    match read_consequence(Consequence::FollowingSuggestion(a, true), &d, None, None) {
        FlatOperation::XoverRequests(v) => assert!(v.is_empty()),
        _ => panic!("a followed suggestion asks for cross-overs"),
    }
}
