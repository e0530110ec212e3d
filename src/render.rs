//! What the 3D renderer draws and in which order: the mesh kinds, the drawers kept for
//! each of them, the passes, and how a picked pixel turns into a selection.
use vstd::prelude::*;

verus! {

/// The kinds of instanced meshes of the 3D view.
#[derive(Debug, Clone, Copy, PartialEq, Eq, Hash, Structural)]
pub enum Mesh {
    Sphere,
    Tube,
    OutlineSphere,
    OutlineTube,
    FakeSphere,
    FakeTube,
    CandidateSphere,
    CandidateTube,
    SelectedSphere,
    SelectedTube,
    PhantomSphere,
    PhantomTube,
    FakePhantomTube,
    FakePhantomSphere,
    SuggestionSphere,
    SuggestionTube,
    PastedSphere,
    PastedTube,
    PivotSphere,
    XoverSphere,
    XoverTube,
    Prime3Cone,
    Prime3ConeOutline,
}

impl Mesh {
    /// The mesh drawn in the picking pass for this one, if it is pickable.
    pub fn to_fake(&self) -> (r: Option<Mesh>)
        ensures
            *self == Mesh::Sphere ==> r == Some(Mesh::FakeSphere),
            *self == Mesh::Tube ==> r == Some(Mesh::FakeTube),
            *self == Mesh::PhantomSphere ==> r == Some(Mesh::FakePhantomSphere),
            *self == Mesh::PhantomTube ==> r == Some(Mesh::FakePhantomTube),
            !(*self == Mesh::Sphere || *self == Mesh::Tube || *self == Mesh::PhantomSphere || *self
                == Mesh::PhantomTube) ==> r is None,
    {
        match self {
            Mesh::Sphere => Some(Mesh::FakeSphere),
            Mesh::Tube => Some(Mesh::FakeTube),
            Mesh::PhantomSphere => Some(Mesh::FakePhantomSphere),
            Mesh::PhantomTube => Some(Mesh::FakePhantomTube),
            _ => None,
        }
    }

    /// The mesh that outlines this one in cartoon rendering, if it has one.
    pub fn to_outline(&self) -> (r: Option<Mesh>)
        ensures
            *self == Mesh::Sphere ==> r == Some(Mesh::OutlineSphere),
            *self == Mesh::Tube ==> r == Some(Mesh::OutlineTube),
            *self == Mesh::Prime3Cone ==> r == Some(Mesh::Prime3ConeOutline),
            !(*self == Mesh::Sphere || *self == Mesh::Tube || *self == Mesh::Prime3Cone) ==> r is None,
    {
        match self {
            Mesh::Sphere => Some(Mesh::OutlineSphere),
            Mesh::Tube => Some(Mesh::OutlineTube),
            Mesh::Prime3Cone => Some(Mesh::Prime3ConeOutline),
            _ => None,
        }
    }
}

#[derive(Debug, Clone, Copy, PartialEq, Eq, Structural)]
pub enum RenderingMode {
    Normal,
    Cartoon,
}

/// One drawer for each kind of mesh.
pub struct DnaDrawers<D> {
    pub sphere: D,
    pub tube: D,
    pub outline_sphere: D,
    pub outline_tube: D,
    pub candidate_sphere: D,
    pub candidate_tube: D,
    pub selected_sphere: D,
    pub selected_tube: D,
    pub fake_sphere: D,
    pub fake_tube: D,
    pub phantom_sphere: D,
    pub phantom_tube: D,
    pub fake_phantom_sphere: D,
    pub fake_phantom_tube: D,
    pub suggestion_sphere: D,
    pub suggestion_tube: D,
    pub pasted_sphere: D,
    pub pasted_tube: D,
    pub pivot_sphere: D,
    pub xover_sphere: D,
    pub xover_tube: D,
    pub prime3_cones: D,
    pub outline_prime3_cones: D,
}

impl<D> DnaDrawers<D> {
    /// The drawer of the meshes of kind `key`.
    pub open spec fn drawer(&self, key: Mesh) -> D {
        match key {
            Mesh::Sphere => self.sphere,
            Mesh::Tube => self.tube,
            Mesh::OutlineSphere => self.outline_sphere,
            Mesh::OutlineTube => self.outline_tube,
            Mesh::FakeSphere => self.fake_sphere,
            Mesh::FakeTube => self.fake_tube,
            Mesh::CandidateSphere => self.candidate_sphere,
            Mesh::CandidateTube => self.candidate_tube,
            Mesh::SelectedSphere => self.selected_sphere,
            Mesh::SelectedTube => self.selected_tube,
            Mesh::PhantomSphere => self.phantom_sphere,
            Mesh::PhantomTube => self.phantom_tube,
            Mesh::FakePhantomTube => self.fake_phantom_tube,
            Mesh::FakePhantomSphere => self.fake_phantom_sphere,
            Mesh::SuggestionSphere => self.suggestion_sphere,
            Mesh::SuggestionTube => self.suggestion_tube,
            Mesh::PastedSphere => self.pasted_sphere,
            Mesh::PastedTube => self.pasted_tube,
            Mesh::PivotSphere => self.pivot_sphere,
            Mesh::XoverSphere => self.xover_sphere,
            Mesh::XoverTube => self.xover_tube,
            Mesh::Prime3Cone => self.prime3_cones,
            Mesh::Prime3ConeOutline => self.outline_prime3_cones,
        }
    }

    /// The same drawers but the one of kind `key`, which is `d`.
    pub open spec fn with_drawer(self, key: Mesh, d: D) -> DnaDrawers<D> {
        match key {
            Mesh::Sphere => DnaDrawers { sphere: d, ..self },
            Mesh::Tube => DnaDrawers { tube: d, ..self },
            Mesh::OutlineSphere => DnaDrawers { outline_sphere: d, ..self },
            Mesh::OutlineTube => DnaDrawers { outline_tube: d, ..self },
            Mesh::FakeSphere => DnaDrawers { fake_sphere: d, ..self },
            Mesh::FakeTube => DnaDrawers { fake_tube: d, ..self },
            Mesh::CandidateSphere => DnaDrawers { candidate_sphere: d, ..self },
            Mesh::CandidateTube => DnaDrawers { candidate_tube: d, ..self },
            Mesh::SelectedSphere => DnaDrawers { selected_sphere: d, ..self },
            Mesh::SelectedTube => DnaDrawers { selected_tube: d, ..self },
            Mesh::PhantomSphere => DnaDrawers { phantom_sphere: d, ..self },
            Mesh::PhantomTube => DnaDrawers { phantom_tube: d, ..self },
            Mesh::FakePhantomTube => DnaDrawers { fake_phantom_tube: d, ..self },
            Mesh::FakePhantomSphere => DnaDrawers { fake_phantom_sphere: d, ..self },
            Mesh::SuggestionSphere => DnaDrawers { suggestion_sphere: d, ..self },
            Mesh::SuggestionTube => DnaDrawers { suggestion_tube: d, ..self },
            Mesh::PastedSphere => DnaDrawers { pasted_sphere: d, ..self },
            Mesh::PastedTube => DnaDrawers { pasted_tube: d, ..self },
            Mesh::PivotSphere => DnaDrawers { pivot_sphere: d, ..self },
            Mesh::XoverSphere => DnaDrawers { xover_sphere: d, ..self },
            Mesh::XoverTube => DnaDrawers { xover_tube: d, ..self },
            Mesh::Prime3Cone => DnaDrawers { prime3_cones: d, ..self },
            Mesh::Prime3ConeOutline => DnaDrawers { outline_prime3_cones: d, ..self },
        }
    }

    pub fn get_mut(&mut self, key: Mesh) -> (r: &mut D)
        ensures
            *r == old(self).drawer(key),
            *final(self) == old(self).with_drawer(key, *final(r)),
    {
        match key {
            Mesh::Sphere => &mut self.sphere,
            Mesh::Tube => &mut self.tube,
            Mesh::OutlineSphere => &mut self.outline_sphere,
            Mesh::OutlineTube => &mut self.outline_tube,
            Mesh::FakeSphere => &mut self.fake_sphere,
            Mesh::FakeTube => &mut self.fake_tube,
            Mesh::CandidateSphere => &mut self.candidate_sphere,
            Mesh::CandidateTube => &mut self.candidate_tube,
            Mesh::SelectedSphere => &mut self.selected_sphere,
            Mesh::SelectedTube => &mut self.selected_tube,
            Mesh::PhantomSphere => &mut self.phantom_sphere,
            Mesh::PhantomTube => &mut self.phantom_tube,
            Mesh::FakePhantomTube => &mut self.fake_phantom_tube,
            Mesh::FakePhantomSphere => &mut self.fake_phantom_sphere,
            Mesh::SuggestionSphere => &mut self.suggestion_sphere,
            Mesh::SuggestionTube => &mut self.suggestion_tube,
            Mesh::PastedSphere => &mut self.pasted_sphere,
            Mesh::PastedTube => &mut self.pasted_tube,
            Mesh::PivotSphere => &mut self.pivot_sphere,
            Mesh::XoverSphere => &mut self.xover_sphere,
            Mesh::XoverTube => &mut self.xover_tube,
            Mesh::Prime3Cone => &mut self.prime3_cones,
            Mesh::Prime3ConeOutline => &mut self.outline_prime3_cones,
        }
    }
}

impl<D> DnaDrawers<D> {
    /// The kinds of meshes drawn in the visible pass, in drawing order; cartoon
    /// rendering adds the outlines after the cones.
    pub fn reals(&self, rendering_mode: RenderingMode) -> (r: Vec<Mesh>)
        ensures
            rendering_mode == RenderingMode::Normal ==> r@ == seq![Mesh::Sphere, Mesh::Tube, Mesh::Prime3Cone, Mesh::CandidateSphere, Mesh::CandidateTube, Mesh::SelectedSphere, Mesh::SelectedTube, Mesh::PhantomTube, Mesh::PhantomSphere, Mesh::SuggestionSphere, Mesh::SuggestionTube, Mesh::PastedTube, Mesh::PastedSphere, Mesh::PivotSphere, Mesh::XoverSphere, Mesh::XoverTube],
            rendering_mode == RenderingMode::Cartoon ==> r@ == seq![Mesh::Sphere, Mesh::Tube, Mesh::Prime3Cone, Mesh::OutlineTube, Mesh::OutlineSphere, Mesh::Prime3ConeOutline, Mesh::CandidateSphere, Mesh::CandidateTube, Mesh::SelectedSphere, Mesh::SelectedTube, Mesh::PhantomTube, Mesh::PhantomSphere, Mesh::SuggestionSphere, Mesh::SuggestionTube, Mesh::PastedTube, Mesh::PastedSphere, Mesh::PivotSphere, Mesh::XoverSphere, Mesh::XoverTube],
    {
        let mut ret: Vec<Mesh> = Vec::new();
        ret.push(Mesh::Sphere);
        ret.push(Mesh::Tube);
        ret.push(Mesh::Prime3Cone);
        if rendering_mode == RenderingMode::Cartoon {
            ret.push(Mesh::OutlineTube);
            ret.push(Mesh::OutlineSphere);
            ret.push(Mesh::Prime3ConeOutline);
        }
        ret.push(Mesh::CandidateSphere);
        ret.push(Mesh::CandidateTube);
        ret.push(Mesh::SelectedSphere);
        ret.push(Mesh::SelectedTube);
        ret.push(Mesh::PhantomTube);
        ret.push(Mesh::PhantomSphere);
        ret.push(Mesh::SuggestionSphere);
        ret.push(Mesh::SuggestionTube);
        ret.push(Mesh::PastedTube);
        ret.push(Mesh::PastedSphere);
        ret.push(Mesh::PivotSphere);
        ret.push(Mesh::XoverSphere);
        ret.push(Mesh::XoverTube);
        proof {
            if rendering_mode == RenderingMode::Cartoon {
                assert(ret@ =~= seq![Mesh::Sphere, Mesh::Tube, Mesh::Prime3Cone, Mesh::OutlineTube, Mesh::OutlineSphere, Mesh::Prime3ConeOutline, Mesh::CandidateSphere, Mesh::CandidateTube, Mesh::SelectedSphere, Mesh::SelectedTube, Mesh::PhantomTube, Mesh::PhantomSphere, Mesh::SuggestionSphere, Mesh::SuggestionTube, Mesh::PastedTube, Mesh::PastedSphere, Mesh::PivotSphere, Mesh::XoverSphere, Mesh::XoverTube]);
            } else {
                assert(ret@ =~= seq![Mesh::Sphere, Mesh::Tube, Mesh::Prime3Cone, Mesh::CandidateSphere, Mesh::CandidateTube, Mesh::SelectedSphere, Mesh::SelectedTube, Mesh::PhantomTube, Mesh::PhantomSphere, Mesh::SuggestionSphere, Mesh::SuggestionTube, Mesh::PastedTube, Mesh::PastedSphere, Mesh::PivotSphere, Mesh::XoverSphere, Mesh::XoverTube]);
            }
        }
        ret
    }

    /// The kinds of meshes drawn in the picking pass of the design.
    pub fn fakes(&self) -> (r: Vec<Mesh>)
        ensures
            r@ == seq![Mesh::FakeSphere, Mesh::FakeTube],
    {
        let r = vec![Mesh::FakeSphere, Mesh::FakeTube];
        assert(r@ =~= seq![Mesh::FakeSphere, Mesh::FakeTube]);
        r
    }

    /// The kinds of meshes drawn in the picking pass of phantom helices.
    pub fn phantoms(&self) -> (r: Vec<Mesh>)
        ensures
            r@ == seq![Mesh::FakePhantomSphere, Mesh::FakePhantomTube],
    {
        let r = vec![Mesh::FakePhantomSphere, Mesh::FakePhantomTube];
        assert(r@ =~= seq![Mesh::FakePhantomSphere, Mesh::FakePhantomTube]);
        r
    }

    pub fn fakes_and_phantoms(&self) -> (r: Vec<Mesh>)
        ensures
            r@ == seq![Mesh::FakeSphere, Mesh::FakeTube, Mesh::FakePhantomSphere, Mesh::FakePhantomTube],
    {
        let r = vec![Mesh::FakeSphere, Mesh::FakeTube, Mesh::FakePhantomSphere, Mesh::FakePhantomTube];
        assert(r@ =~= seq![Mesh::FakeSphere, Mesh::FakeTube, Mesh::FakePhantomSphere, Mesh::FakePhantomTube]);
        r
    }
}

/// The passes of the 3D renderer: the visible scene, or one of the off-screen picking
/// passes.
#[derive(Debug, Clone, Copy, PartialEq, Eq, Structural)]
pub enum DrawType {
    Scene,
    Design,
    Widget,
    Phantom,
    Grid,
}

impl DrawType {
    /// Every pass but the visible one draws identifiers instead of colors.
    pub fn is_fake(&self) -> (r: bool)
        ensures
            r == (*self != DrawType::Scene),
    {
        *self != DrawType::Scene
    }

    pub fn wants_widget(&self) -> (r: bool)
        ensures
            r == (*self == DrawType::Scene || *self == DrawType::Widget),
    {
        match self {
            DrawType::Scene => true,
            DrawType::Design => false,
            DrawType::Widget => true,
            DrawType::Phantom => false,
            DrawType::Grid => false,
        }
    }
}

/// What a selection highlights: the elements themselves, or the whole designs they
/// belong to.
#[derive(Debug, Clone, Copy, PartialEq, Eq, Structural)]
pub enum SelectionMode {
    Nucleotide,
    Design,
}

impl SelectionMode {
    pub const ALL: [SelectionMode; 2] = [SelectionMode::Nucleotide, SelectionMode::Design];

    pub fn toggled(&self) -> (r: SelectionMode)
        ensures
            *self == SelectionMode::Nucleotide ==> r == SelectionMode::Design,
            *self == SelectionMode::Design ==> r == SelectionMode::Nucleotide,
    {
        match self {
            SelectionMode::Design => SelectionMode::Nucleotide,
            SelectionMode::Nucleotide => SelectionMode::Design,
        }
    }

    /// The name shown to the user.
    pub fn name(&self) -> (r: &'static str)
        ensures
            *self == SelectionMode::Design ==> r@ == "Design"@,
            *self == SelectionMode::Nucleotide ==> r@ == "Nucleotide"@,
    {
        match self {
            SelectionMode::Design => "Design",
            SelectionMode::Nucleotide => "Nucleotide",
        }
    }
}

impl Default for SelectionMode {
    fn default() -> (r: SelectionMode)
        ensures
            r == SelectionMode::Nucleotide,
    {
        SelectionMode::Nucleotide
    }
}

/// The highest byte of `x`.
pub fn last_two_bytes(x: u32) -> (r: u32)
    ensures
        r == x / 0x1000000,
{
    let r = (x & 0xFF000000) >> 24;
    assert((x & 0xFF000000) >> 24 == x / 0x1000000) by (bit_vector);
    r
}

/// The picking pass paints this color where no element is.
pub const NO_ELEMENT: u32 = 0xFFFFFF;

/// The element identifier and the design identifier read from one pixel of the picking
/// pass, given as its blue, green, red and alpha bytes.
pub fn pixel_to_id(pixel: [u8; 4]) -> (r: (u32, u32))
    ensures
        r.0 == pixel[2] * 0x10000 + pixel[1] * 0x100 + pixel[0],
        r.1 == pixel[3],
{
    let b = pixel[0] as u32;
    let g = pixel[1] as u32;
    let red = pixel[2] as u32;
    let a = pixel[3] as u32;
    (red * 0x10000 + g * 0x100 + b, a)
}

/// The selection and the candidates of the 3D view, as pairs of a design identifier
/// and an element identifier.
pub struct SceneSelection {
    pub selected: Vec<(u32, u32)>,
    pub candidates: Vec<(u32, u32)>,
    pub selection_mode: SelectionMode,
}

impl SceneSelection {
    pub fn new() -> (r: SceneSelection)
        ensures
            r.selected@.len() == 0,
            r.candidates@.len() == 0,
            r.selection_mode == SelectionMode::Nucleotide,
    {
        SceneSelection {
            selected: Vec::new(),
            candidates: Vec::new(),
            selection_mode: SelectionMode::Nucleotide,
        }
    }

    pub fn set_selection(&mut self, design_id: u32, element_id: u32)
        ensures
            final(self).selected@ == seq![(design_id, element_id)],
            final(self).candidates == old(self).candidates,
            final(self).selection_mode == old(self).selection_mode,
    {
        self.selected = vec![(design_id, element_id)];
        assert(self.selected@ =~= seq![(design_id, element_id)]);
    }

    pub fn reset_selection(&mut self)
        ensures
            final(self).selected@.len() == 0,
            final(self).candidates == old(self).candidates,
            final(self).selection_mode == old(self).selection_mode,
    {
        self.selected = Vec::new();
    }

    pub fn set_candidate(&mut self, design_id: u32, element_id: u32)
        ensures
            final(self).candidates@ == seq![(design_id, element_id)],
            final(self).selected == old(self).selected,
            final(self).selection_mode == old(self).selection_mode,
    {
        self.candidates = vec![(design_id, element_id)];
        assert(self.candidates@ =~= seq![(design_id, element_id)]);
    }

    pub fn reset_candidate(&mut self)
        ensures
            final(self).candidates@.len() == 0,
            final(self).selected == old(self).selected,
            final(self).selection_mode == old(self).selection_mode,
    {
        self.candidates = Vec::new();
    }

    pub fn toggle_selection_mode(&mut self)
        ensures
            final(self).selection_mode != old(self).selection_mode,
            final(self).selected == old(self).selected,
            final(self).candidates == old(self).candidates,
    {
        self.selection_mode = self.selection_mode.toggled();
    }

    pub fn change_selection_mode(&mut self, selection_mode: SelectionMode)
        ensures
            final(self).selection_mode == selection_mode,
            final(self).selected == old(self).selected,
            final(self).candidates == old(self).candidates,
    {
        self.selection_mode = selection_mode;
    }

    /// A click read from the picking pass: the element becomes the selection, and the
    /// empty color empties it.
    pub fn click_on(&mut self, selected_id: u32, design_id: u32)
        ensures
            selected_id == NO_ELEMENT ==> final(self).selected@.len() == 0,
            selected_id != NO_ELEMENT ==> final(self).selected@ == seq![(design_id, selected_id)],
            final(self).candidates == old(self).candidates,
            final(self).selection_mode == old(self).selection_mode,
    {
        if selected_id != NO_ELEMENT {
            self.set_selection(design_id, selected_id);
        } else {
            self.reset_selection();
        }
    }

    /// A hover read from the picking pass: the element becomes the candidate, and the
    /// empty color empties the candidates.
    pub fn check_on(&mut self, checked_id: u32, design_id: u32)
        ensures
            checked_id == NO_ELEMENT ==> final(self).candidates@.len() == 0,
            checked_id != NO_ELEMENT ==> final(self).candidates@ == seq![(design_id, checked_id)],
            final(self).selected == old(self).selected,
            final(self).selection_mode == old(self).selection_mode,
    {
        if checked_id != NO_ELEMENT {
            self.set_candidate(design_id, checked_id);
        } else {
            self.reset_candidate();
        }
    }
}

/// A pixel where the picking pass drew nothing, whatever its alpha byte, clears the
/// selection when clicked and the candidates when hovered.
pub proof fn lemma_empty_pixel_clears(pixel: [u8; 4])
    requires
        pixel[0] == 0xFF,
        pixel[1] == 0xFF,
        pixel[2] == 0xFF,
    ensures
        pixel[2] * 0x10000 + pixel[1] * 0x100 + pixel[0] == NO_ELEMENT,
{
}

} // verus!
