use ensnano::render::{
    last_two_bytes, pixel_to_id, DnaDrawers, DrawType, Mesh, RenderingMode, SceneSelection, SelectionMode,
    NO_ELEMENT,
};

fn drawers() -> DnaDrawers<u32> {
    DnaDrawers {
        sphere: 0, tube: 1, outline_sphere: 2, outline_tube: 3, candidate_sphere: 4, candidate_tube: 5,
        selected_sphere: 6, selected_tube: 7, fake_sphere: 8, fake_tube: 9, phantom_sphere: 10,
        phantom_tube: 11, fake_phantom_sphere: 12, fake_phantom_tube: 13, suggestion_sphere: 14,
        suggestion_tube: 15, pasted_sphere: 16, pasted_tube: 17, pivot_sphere: 18, xover_sphere: 19,
        xover_tube: 20, prime3_cones: 21, outline_prime3_cones: 22,
    }
}

#[test]
fn fake_and_outline_meshes() {
    assert_eq!(Mesh::Sphere.to_fake(), Some(Mesh::FakeSphere));
    assert_eq!(Mesh::PhantomTube.to_fake(), Some(Mesh::FakePhantomTube));
    assert_eq!(Mesh::Prime3Cone.to_fake(), None);
    assert_eq!(Mesh::Prime3Cone.to_outline(), Some(Mesh::Prime3ConeOutline));
    assert_eq!(Mesh::Tube.to_outline(), Some(Mesh::OutlineTube));
    assert_eq!(Mesh::PivotSphere.to_outline(), None);
}

#[test]
fn drawing_order_of_visible_pass() {
    let d = drawers();
    let normal = d.reals(RenderingMode::Normal);
    assert_eq!(normal.len(), 16);
    assert_eq!(&normal[..4], &[Mesh::Sphere, Mesh::Tube, Mesh::Prime3Cone, Mesh::CandidateSphere]);
    let cartoon = d.reals(RenderingMode::Cartoon);
    assert_eq!(cartoon.len(), 19);
    assert_eq!(&cartoon[3..6], &[Mesh::OutlineTube, Mesh::OutlineSphere, Mesh::Prime3ConeOutline]);
    assert_eq!(cartoon[18], Mesh::XoverTube);
    assert_eq!(d.fakes(), vec![Mesh::FakeSphere, Mesh::FakeTube]);
    assert_eq!(d.phantoms(), vec![Mesh::FakePhantomSphere, Mesh::FakePhantomTube]);
    assert_eq!(d.fakes_and_phantoms().len(), 4);
}

#[test]
fn get_mut_reaches_the_right_drawer() {
    let mut d = drawers();
    *d.get_mut(Mesh::XoverSphere) += 100;
    assert_eq!(d.xover_sphere, 119);
    assert_eq!(*d.get_mut(Mesh::Prime3ConeOutline), 22);
    assert_eq!(d.xover_tube, 20);
}

#[test]
fn draw_types() {
    assert!(!DrawType::Scene.is_fake());
    assert!(DrawType::Grid.is_fake());
    assert!(DrawType::Scene.wants_widget());
    assert!(DrawType::Widget.wants_widget());
    assert!(!DrawType::Design.wants_widget());
    assert!(!DrawType::Phantom.wants_widget());
}

#[test]
fn selection_modes() {
    assert_eq!(SelectionMode::default(), SelectionMode::Nucleotide);
    assert_eq!(SelectionMode::Nucleotide.toggled(), SelectionMode::Design);
    assert_eq!(SelectionMode::ALL, [SelectionMode::Nucleotide, SelectionMode::Design]);
    assert_eq!(SelectionMode::Design.name(), "Design");
    let mut s = SceneSelection::new();
    s.toggle_selection_mode();
    assert_eq!(s.selection_mode, SelectionMode::Design);
    s.change_selection_mode(SelectionMode::Nucleotide);
    assert_eq!(s.selection_mode, SelectionMode::Nucleotide);
}

#[test]
fn highest_byte() {
    assert_eq!(last_two_bytes(0xAB123456), 0xAB);
    assert_eq!(last_two_bytes(0x00FFFFFF), 0);
}

#[test]
fn pixel_decoding() {
    assert_eq!(pixel_to_id([0x56, 0x34, 0x12, 3]), (0x123456, 3));
    assert_eq!(pixel_to_id([0xFF, 0xFF, 0xFF, 0]), (NO_ELEMENT, 0));
}

#[test]
fn empty_pixel_clears_selection_and_candidates() {
    let mut s = SceneSelection::new();
    let (id, design) = pixel_to_id([0x01, 0x00, 0x00, 2]);
    s.click_on(id, design);
    assert_eq!(s.selected, vec![(2, 1)]);
    s.check_on(id, design);
    assert_eq!(s.candidates, vec![(2, 1)]);
    let (id, design) = pixel_to_id([0xFF, 0xFF, 0xFF, 2]);
    s.click_on(id, design);
    assert!(s.selected.is_empty());
    s.check_on(id, design);
    assert!(s.candidates.is_empty());
}
