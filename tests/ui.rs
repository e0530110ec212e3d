use ensnano::camera::{CameraKey, MovementIntent, OrbitStep};
use ensnano::save::json_extension;
use ensnano::top_bar::{ApplicationState, Message, Requests, SplitMode, TopBar, TopBarAction};

#[test]
fn save_path_without_extension_gets_json() {
    assert_eq!(json_extension(None).as_deref(), Some("json"));
}

#[test]
fn save_path_with_other_extension_gets_json_appended() {
    assert_eq!(json_extension(Some("txt")).as_deref(), Some("txt.json"));
}

#[test]
fn save_path_with_json_extension_is_kept() {
    assert_eq!(json_extension(Some("json")), None);
}

#[test]
fn only_one_file_dialog_at_a_time() {
    let mut bar = TopBar::new();
    let mut requests = Requests::new();
    let first = bar.update(Message::<u8>::FileSaveRequested(Some(3)), &mut requests);
    assert!(matches!(first, TopBarAction::PickSavePath(Some(3))));
    assert!(bar.dialoging);
    let second = bar.update(Message::<u8>::FileAddRequested, &mut requests);
    assert!(matches!(second, TopBarAction::Nothing));
    bar.dialog_closed();
    let third = bar.update(Message::<u8>::FileAddRequested, &mut requests);
    assert!(matches!(third, TopBarAction::PickFile));
    assert_eq!(requests, Requests::new());
}

#[test]
fn buttons_post_requests() {
    let mut bar = TopBar::new();
    let mut requests = Requests::new();
    bar.update(Message::<u8>::ToggleView(SplitMode::Both), &mut requests);
    bar.update(Message::<u8>::Undo, &mut requests);
    bar.update(Message::<u8>::SceneFitRequested, &mut requests);
    assert_eq!(requests.toggle_scene, Some(SplitMode::Both));
    assert!(requests.undo);
    assert!(requests.fitting);
    assert!(!requests.redo);
    assert!(!bar.undo_enabled());
    bar.update(Message::<u8>::NewApplicationState(ApplicationState { can_undo: true, can_redo: false }), &mut requests);
    assert!(bar.undo_enabled());
    assert!(!bar.redo_enabled());
    assert!(matches!(bar.update(Message::<u8>::OpenFileButtonPressed, &mut requests), TopBarAction::SaveBeforeOpen));
    assert!(matches!(bar.update(Message::<u8>::ButtonNewEmptyDesignPressed, &mut requests), TopBarAction::SaveBeforeNew));
}

#[test]
fn keys_move_and_orbit_the_camera() {
    let mut m = MovementIntent::new();
    assert_eq!(m.process_keyboard(CameraKey::W, true), (true, None));
    assert!(m.forward);
    assert_eq!(m.process_keyboard(CameraKey::Up, false), (true, None));
    assert!(!m.forward);
    m.process_keyboard(CameraKey::Space, true);
    assert!(m.up);
    assert_eq!(m.process_keyboard(CameraKey::H, true), (true, Some(OrbitStep::Positive)));
    assert_eq!(m.process_keyboard(CameraKey::L, true), (true, Some(OrbitStep::Negative)));
    assert_eq!(m.process_keyboard(CameraKey::L, false), (false, None));
    assert_eq!(m.process_keyboard(CameraKey::Other, true), (false, None));
}
