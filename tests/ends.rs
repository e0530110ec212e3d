use ensnano::design::{Design, DesignNotification, DesignNotificationContent, UndoableOp};
use ensnano::flat::{read_consequence, Consequence, FlatHelix, FlatNucl, FlatOperation};
use ensnano::nucl::Nucl;
use ensnano::strands::{Domain, Strand, StrandState};
use ensnano::timing::{simulation_request, SimulationAction, Ticker};

fn state() -> StrandState {
    StrandState {
        strands: vec![
            Some(Strand { domains: vec![Domain::HelixDomain { helix: 0, start: 0, end: 8, forward: true }], color: 1, circular: false }),
            Some(Strand { domains: vec![Domain::HelixDomain { helix: 1, start: 0, end: 8, forward: false }], color: 2, circular: false }),
        ],
    }
}

#[test]
fn strand_ends() {
    let st = state();
    assert_eq!(st.prime3_of(&Nucl::new(0, 7, true)), Some(0));
    assert_eq!(st.prime5_of(&Nucl::new(0, 0, true)), Some(0));
    assert_eq!(st.prime3_of(&Nucl::new(1, 0, false)), Some(1));
    assert_eq!(st.prime5_of(&Nucl::new(1, 7, false)), Some(1));
    assert_eq!(st.is_strand_end(&Nucl::new(0, 7, true)), Some(true));
    assert_eq!(st.is_strand_end(&Nucl::new(1, 7, false)), Some(false));
    assert_eq!(st.is_strand_end(&Nucl::new(0, 3, true)), None);
    assert!(st.can_cross_to(&Nucl::new(0, 7, true), &Nucl::new(1, 7, false)));
    assert!(!st.can_cross_to(&Nucl::new(0, 3, true), &Nucl::new(1, 7, false)));
    assert_eq!(st.xover_ends(&Nucl::new(1, 7, false), &Nucl::new(0, 7, true)), Some((0, 1)));
}

#[test]
fn flat_xover_joins_the_strand_ending_there_to_the_one_starting_there() {
    let mut d = Design::new(2);
    d.strands = state();
    let a = FlatNucl { helix: FlatHelix { flat: 0, real: 0 }, position: 7, forward: true };
    let b = FlatNucl { helix: FlatHelix { flat: 1, real: 1 }, position: 7, forward: false };
    let op = match read_consequence(Consequence::Xover(a, b), &d, None, None) {
        FlatOperation::Undoable(op) => op,
        _ => panic!("expected a cross-over"),
    };
    match &op {
        UndoableOp::Xover { prime5_id, prime3_id, undo, .. } => {
            assert_eq!((*prime5_id, *prime3_id, *undo), (0, 1, false));
        }
        _ => panic!("expected a cross-over"),
    }
    d.apply_operation(op);
    let merged = d.strands.strands[0].as_ref().unwrap();
    assert_eq!(merged.domains.len(), 2);
    assert!(d.strands.strands[1].is_none());
    let c = FlatNucl { helix: FlatHelix { flat: 0, real: 0 }, position: 3, forward: true };
    assert!(matches!(read_consequence(Consequence::Xover(c, c), &d, None, None), FlatOperation::Nothing));
}

#[test]
fn notifications_are_reported_once() {
    let mut d = Design::new(4);
    assert_eq!(d.data_was_updated(), None);
    d.apply_operation(UndoableOp::NewStrandState(state()));
    assert_eq!(
        d.data_was_updated(),
        Some(DesignNotification { design_id: 4, content: DesignNotificationContent::ViewNeedReset })
    );
    assert_eq!(d.data_was_updated(), None);
    d.status.data_updated = true;
    assert_eq!(
        d.data_was_updated(),
        Some(DesignNotification { design_id: 4, content: DesignNotificationContent::InstanceChanged })
    );
    assert_eq!(d.data_was_updated(), None);
    assert_eq!(d.view_was_updated(), None);
    d.status.view_updated = true;
    assert_eq!(d.view_was_updated().map(|n| n.content), Some(DesignNotificationContent::ModelChanged));
    assert_eq!(d.view_was_updated(), None);
}

#[test]
fn simulation_poll_every_thirty_ms() {
    let mut t = Ticker::new(100);
    assert!(!t.simulation_poll_due(130));
    assert!(t.simulation_poll_due(131));
    assert_eq!(t.last, 131);
    assert!(!t.simulation_poll_due(150));
}

#[test]
fn redraw_at_most_every_twenty_five_ms() {
    let mut t = Ticker::new(0);
    assert!(!t.redraw_due(24));
    assert!(t.redraw_due(25));
    assert!(!t.redraw_due(40));
    assert!(t.redraw_due(50));
}

#[test]
fn simulation_requests_toggle() {
    assert_eq!(simulation_request(true), SimulationAction::Stop);
    assert_eq!(simulation_request(false), SimulationAction::Start);
}
