use ensnano::automata::{
    ctrl, initial_state, position_difference, ActionMode, Consequence, GridIntersection, HandleDir,
    InputContext, ModifiersState, MouseButton, NormalState, Pixel, RotationMode, SceneElement,
    SceneProbe, Selecting, SettingPivot, State, TransitionConsequence, WaitDoubleClick, WindowEvent,
    UP_CIRCLE_ID, DIR_HANDLE_ID,
};
use ensnano::nucl::Nucl;

fn px(x: i32, y: i32) -> Pixel {
    Pixel { x, y }
}

fn no_mods() -> ModifiersState {
    ModifiersState { shift: false, ctrl: false, alt: false, logo: false }
}

fn ctx() -> InputContext {
    InputContext { pasting: false, modifiers: no_mods(), action_mode: ActionMode::Normal, on_macos: false }
}

fn probe(element: Option<SceneElement>) -> SceneProbe {
    SceneProbe { element, grid_hit: None, builder_available: false, xover: None, projection: None, moving_end: None }
}

fn waiting(click_date: u64) -> WaitDoubleClick {
    WaitDoubleClick {
        click_date,
        element: Some(SceneElement::DesignElement(0, 42)),
        mouse_position: px(10, 10),
        clicked_position: px(10, 10),
    }
}

#[test]
fn double_click_at_249_ms() {
    let mut w = waiting(1000);
    let t = w.check_timers(1249);
    assert!(t.new_state.is_none());
    assert_eq!(t.consequences, Consequence::Nothing);
    let r = w.input(&WindowEvent::Released(MouseButton::Left), px(10, 10));
    assert_eq!(r.consequences, Consequence::DoubleClick(Some(SceneElement::DesignElement(0, 42))));
    assert!(matches!(r.new_state, Some(State::Normal(_))));
}

#[test]
fn no_double_click_at_251_ms() {
    let w = waiting(1000);
    let t = w.check_timers(1251);
    assert_eq!(t.consequences, Consequence::Nothing);
    let mut normal = match t.new_state {
        Some(State::Normal(n)) => n,
        _ => panic!("the timer sends the automaton back to its normal state"),
    };
    assert_eq!(normal.mouse_position, px(10, 10));
    let element = Some(SceneElement::DesignElement(0, 42));
    let r = normal.input(&WindowEvent::Pressed(MouseButton::Left), px(10, 10), 1251, &ctx(), &probe(element));
    match r.new_state {
        Some(State::Selecting(s)) => {
            assert_eq!(s.element, element);
            assert_eq!(s.click_date, 1251);
            assert!(!s.adding);
        }
        _ => panic!("a fresh selection starts"),
    }
}

#[test]
fn timer_at_exactly_250_ms_still_waits() {
    let w = waiting(0);
    assert!(w.check_timers(250).new_state.is_none());
    assert!(w.check_timers(251).new_state.is_some());
}

#[test]
fn drag_threshold_is_five_pixels() {
    assert_eq!(position_difference(px(0, 0), px(5, -3)), 5);
    assert_eq!(position_difference(px(0, 0), px(-2, 6)), 6);
    let mut w = waiting(0);
    let r = w.input(&WindowEvent::CursorMoved, px(15, 10));
    assert!(r.new_state.is_none());
    let r = w.input(&WindowEvent::CursorMoved, px(16, 10));
    assert!(matches!(r.new_state, Some(State::Normal(_))));
}

#[test]
fn selecting_release_selects_and_waits() {
    let mut s = Selecting {
        mouse_position: px(3, 3),
        clicked_position: px(3, 3),
        element: Some(SceneElement::DesignElement(1, 7)),
        click_date: 10,
        adding: true,
    };
    let r = s.input(&WindowEvent::Released(MouseButton::Left), px(4, 4), 100, &probe(None));
    assert_eq!(r.consequences, Consequence::ElementSelected(Some(SceneElement::DesignElement(1, 7)), true));
    match r.new_state {
        Some(State::WaitDoubleClick(w)) => assert_eq!(w.click_date, 100),
        _ => panic!("waits for a double click"),
    }
}

#[test]
fn selecting_held_on_a_nucleotide_starts_a_free_xover() {
    let s = Selecting {
        mouse_position: px(3, 3),
        clicked_position: px(3, 3),
        element: Some(SceneElement::DesignElement(1, 7)),
        click_date: 0,
        adding: false,
    };
    assert!(s.check_timers(250, None).new_state.is_none());
    let n = Nucl::new(2, 5, true);
    let r = s.check_timers(300, Some((n, 1)));
    assert_eq!(r.consequences, Consequence::InitFreeXover(n, 1));
    assert!(matches!(r.new_state, Some(State::Xovering(_))));
    let r = s.check_timers(300, None);
    assert!(matches!(r.new_state, Some(State::Normal(_))));
}

#[test]
fn selecting_drag_builds_a_strand_when_possible() {
    let mut s = Selecting {
        mouse_position: px(0, 0),
        clicked_position: px(0, 0),
        element: None,
        click_date: 0,
        adding: false,
    };
    let mut p = probe(None);
    p.builder_available = true;
    let r = s.input(&WindowEvent::CursorMoved, px(0, 9), 5, &p);
    assert!(matches!(r.new_state, Some(State::BuildingStrand(_))));
}

#[test]
fn normal_state_buttons() {
    let mut n = NormalState { mouse_position: px(1, 2) };
    let r = n.input(&WindowEvent::Pressed(MouseButton::Right), px(5, 6), 0, &ctx(), &probe(None));
    assert!(matches!(r.new_state, Some(State::SettingPivot(_))));
    let r = n.input(&WindowEvent::Pressed(MouseButton::Middle), px(5, 6), 0, &ctx(), &probe(None));
    match r.new_state {
        Some(State::TranslatingCamera(t)) => assert_eq!(t.clicked_position, px(1, 2)),
        _ => panic!("middle click pans"),
    }
    let mut c = ctx();
    c.modifiers.ctrl = true;
    let r = n.input(&WindowEvent::Pressed(MouseButton::Middle), px(5, 6), 0, &c, &probe(None));
    assert!(matches!(r.new_state, Some(State::RotatingCamera(_))));
    let mut alt = ctx();
    alt.modifiers.alt = true;
    let r = n.input(&WindowEvent::Pressed(MouseButton::Left), px(5, 6), 0, &alt, &probe(None));
    assert!(matches!(r.new_state, Some(State::TranslatingCamera(_))));
    let mut paste = ctx();
    paste.pasting = true;
    let r = n.input(&WindowEvent::Pressed(MouseButton::Left), px(5, 6), 0, &paste, &probe(None));
    assert!(matches!(r.new_state, Some(State::Pasting(_))));
}

#[test]
fn normal_state_widgets_and_grids() {
    let mut n = NormalState { mouse_position: px(0, 0) };
    let r = n.input(&WindowEvent::Pressed(MouseButton::Left), px(5, 6), 0, &ctx(), &probe(Some(SceneElement::WidgetElement(DIR_HANDLE_ID))));
    assert_eq!(r.consequences, Consequence::InitTranslation(px(5, 6)));
    match r.new_state {
        Some(State::TranslatingWidget(t)) => assert_eq!(t.direction, HandleDir::Dir),
        _ => panic!("a handle translates"),
    }
    let r = n.input(&WindowEvent::Pressed(MouseButton::Left), px(5, 6), 0, &ctx(), &probe(Some(SceneElement::WidgetElement(UP_CIRCLE_ID))));
    match r.new_state {
        Some(State::RotatingWidget(w)) => assert_eq!(w.rotation_mode, RotationMode::Up),
        _ => panic!("a ring rotates"),
    }
    let r = n.input(&WindowEvent::Pressed(MouseButton::Left), px(5, 6), 0, &ctx(), &probe(Some(SceneElement::WidgetElement(99))));
    assert!(r.new_state.is_none());
    let mut build = ctx();
    build.action_mode = ActionMode::BuildHelix { position: -3, length: 21 };
    let mut p = probe(Some(SceneElement::Grid(0, 2)));
    p.grid_hit = Some(GridIntersection { grid_id: 2, x: 1, y: -1 });
    let r = n.input(&WindowEvent::Pressed(MouseButton::Left), px(5, 6), 0, &build, &p);
    let mut b = match r.new_state {
        Some(State::BuildingHelix(b)) => b,
        _ => panic!("a click on a lattice cell builds a helix"),
    };
    let r = b.input(&WindowEvent::Released(MouseButton::Left), px(5, 6));
    assert_eq!(r.consequences, Consequence::BuildHelix { design_id: 0, grid_id: 2, length: 21, x: 1, y: -1, position: -3 });
    b.clicked_position = px(0, 0);
    let r = b.input(&WindowEvent::CursorMoved, px(6, 0));
    assert!(matches!(r.new_state, Some(State::Normal(_))));
    let r = n.input(&WindowEvent::CursorMoved, px(7, 8), 0, &build, &p);
    assert_eq!(r.consequences, Consequence::Candidate(Some(SceneElement::GridCircle(0, 2, 1, -1))));
    assert_eq!(n.mouse_position, px(7, 8));
}

#[test]
fn pivot_is_picked_where_the_cursor_rested() {
    let mut s = SettingPivot { mouse_position: px(2, 2), clicked_position: px(0, 0) };
    let state = State::SettingPivot(SettingPivot { mouse_position: px(2, 2), clicked_position: px(0, 0) });
    assert_eq!(state.pick_point(&WindowEvent::Released(MouseButton::Right), px(9, 9)), px(2, 2));
    assert_eq!(state.pick_point(&WindowEvent::CursorMoved, px(9, 9)), px(9, 9));
    let r = s.input(&WindowEvent::CursorMoved, px(3, 4), &probe(None));
    assert!(r.new_state.is_none());
    assert_eq!(s.mouse_position, px(3, 4));
    let r = s.input(&WindowEvent::Released(MouseButton::Right), px(3, 4), &probe(Some(SceneElement::DesignElement(0, 1))));
    assert_eq!(r.consequences, Consequence::PivotElement(Some(SceneElement::DesignElement(0, 1))));
    let r = s.input(&WindowEvent::CursorMoved, px(0, 6), &probe(None));
    assert!(matches!(r.new_state, Some(State::RotatingCamera(_))));
}

#[test]
fn camera_movements_bracket() {
    let state = initial_state();
    match &state {
        State::Normal(n) => assert_eq!(n.mouse_position, px(-1, -1)),
        _ => panic!("starts normal"),
    }
    assert_eq!(state.transition_to(), TransitionConsequence::Nothing);
    let mut n = NormalState { mouse_position: px(0, 0) };
    let r = n.input(&WindowEvent::Pressed(MouseButton::Middle), px(0, 0), 0, &ctx(), &probe(None));
    let mut t = match r.new_state {
        Some(s) => {
            assert_eq!(s.transition_to(), TransitionConsequence::InitMovement);
            assert_eq!(s.transition_from(), TransitionConsequence::EndMovement);
            match s {
                State::TranslatingCamera(t) => t,
                _ => panic!("pans"),
            }
        }
        None => panic!("pans"),
    };
    let r = t.input(&WindowEvent::CursorMoved, px(30, -20));
    assert_eq!(r.consequences, Consequence::CameraTranslated(30, -20));
    let r = t.input(&WindowEvent::Released(MouseButton::Middle), px(30, -20));
    assert_eq!(r.consequences, Consequence::MovementEnded);
}

#[test]
fn control_key_depends_on_platform() {
    let m = ModifiersState { shift: false, ctrl: true, alt: false, logo: false };
    assert!(ctrl(&m, false));
    assert!(!ctrl(&m, true));
    let m = ModifiersState { shift: false, ctrl: false, alt: false, logo: true };
    assert!(ctrl(&m, true));
}

#[test]
fn applying_a_transition_runs_the_hooks() {
    let mut state = initial_state();
    let mut n = NormalState { mouse_position: px(0, 0) };
    let t = n.input(&WindowEvent::Pressed(MouseButton::Middle), px(0, 0), 0, &ctx(), &probe(None));
    let (left, entered, c) = state.apply_transition(t);
    assert_eq!((left, entered, c), (TransitionConsequence::Nothing, TransitionConsequence::InitMovement, Consequence::Nothing));
    assert!(matches!(state, State::TranslatingCamera(_)));
    let t = match &mut state {
        State::TranslatingCamera(tc) => tc.input(&WindowEvent::Released(MouseButton::Middle), px(3, 3)),
        _ => unreachable!(),
    };
    let (left, entered, c) = state.apply_transition(t);
    assert_eq!((left, entered, c), (TransitionConsequence::EndMovement, TransitionConsequence::Nothing, Consequence::MovementEnded));
    assert!(matches!(state, State::Normal(_)));
}
