//! The interaction automaton of the 3D view: window events, together with what the
//! scene reports under the cursor, drive a closed set of states, and each step says
//! which state comes next and what the view must do.
use vstd::prelude::*;

use crate::nucl::Nucl;

verus! {

/// Beyond this Chebyshev distance in physical pixels a press becomes a drag.
pub const DRAG_THRESHOLD: i64 = 5;

/// Past this many milliseconds a click is no longer part of a double click, and a
/// held click on a nucleotide starts a free cross-over.
pub const CLICK_DELAY_MS: u64 = 250;

pub const RIGHT_HANDLE_ID: u32 = 0;
pub const UP_HANDLE_ID: u32 = 1;
pub const DIR_HANDLE_ID: u32 = 2;
pub const RIGHT_CIRCLE_ID: u32 = 3;
pub const UP_CIRCLE_ID: u32 = 4;
pub const FRONT_CIRCLE_ID: u32 = 5;

/// A cursor position in physical pixels.
#[derive(Debug, Clone, Copy, PartialEq, Eq, Structural)]
pub struct Pixel {
    pub x: i32,
    pub y: i32,
}

#[derive(Debug, Clone, Copy, PartialEq, Eq, Structural)]
pub enum MouseButton {
    Left,
    Middle,
    Right,
    Other,
}

/// The window events that the automaton reacts to.
#[derive(Debug, Clone, Copy, PartialEq, Eq, Structural)]
pub enum WindowEvent {
    CursorMoved,
    Pressed(MouseButton),
    Released(MouseButton),
    Other,
}

#[derive(Debug, Clone, Copy, PartialEq, Eq, Structural)]
pub struct ModifiersState {
    pub shift: bool,
    pub ctrl: bool,
    pub alt: bool,
    pub logo: bool,
}

/// A phantom nucleotide or bond: a place where a helix could be but is not yet.
#[derive(Debug, Clone, Copy, PartialEq, Eq, Structural)]
pub struct PhantomElement {
    pub design_id: u32,
    pub helix_id: u32,
    pub position: i32,
    pub forward: bool,
    pub bound: bool,
}

/// What can lie under the cursor in the 3D view.
#[derive(Debug, Clone, Copy, PartialEq, Eq, Structural)]
pub enum SceneElement {
    DesignElement(u32, u32),
    PhantomElement(PhantomElement),
    Grid(u32, usize),
    GridCircle(u32, usize, isize, isize),
    WidgetElement(u32),
}

/// A lattice cell of a grid hit by the cursor.
#[derive(Debug, Clone, Copy, PartialEq, Eq, Structural)]
pub struct GridIntersection {
    pub grid_id: usize,
    pub x: isize,
    pub y: isize,
}

#[derive(Debug, Clone, Copy, PartialEq, Eq, Structural)]
pub enum ActionMode {
    Normal,
    Translate,
    Rotate,
    Build(bool),
    Cut,
    BuildHelix { position: isize, length: usize },
}

impl ActionMode {
    pub open spec fn spec_is_build(self) -> bool {
        self is Build || self is BuildHelix
    }

    pub fn is_build(&self) -> (r: bool)
        ensures
            r == self.spec_is_build(),
    {
        match self {
            ActionMode::Build(_) => true,
            ActionMode::BuildHelix { .. } => true,
            _ => false,
        }
    }
}

#[derive(Debug, Clone, Copy, PartialEq, Eq, Structural)]
pub enum HandleDir {
    Right,
    Up,
    Dir,
}

impl HandleDir {
    pub open spec fn spec_from_widget_id(id: u32) -> HandleDir {
        if id == UP_HANDLE_ID {
            HandleDir::Up
        } else if id == DIR_HANDLE_ID {
            HandleDir::Dir
        } else {
            HandleDir::Right
        }
    }

    /// The axis of a translation handle; any id that is not one of the other two
    /// handles is read as the right handle.
    pub fn from_widget_id(id: u32) -> (r: HandleDir)
        ensures
            r == Self::spec_from_widget_id(id),
    {
        if id == UP_HANDLE_ID {
            HandleDir::Up
        } else if id == DIR_HANDLE_ID {
            HandleDir::Dir
        } else {
            HandleDir::Right
        }
    }
}

#[derive(Debug, Clone, Copy, PartialEq, Eq, Structural)]
pub enum RotationMode {
    Right,
    Up,
    Front,
}

impl RotationMode {
    pub open spec fn spec_from_widget_id(id: u32) -> RotationMode {
        if id == UP_CIRCLE_ID {
            RotationMode::Up
        } else if id == FRONT_CIRCLE_ID {
            RotationMode::Front
        } else {
            RotationMode::Right
        }
    }

    /// The axis of a rotation ring; any id that is not one of the other two rings is
    /// read as the right ring.
    pub fn from_widget_id(id: u32) -> (r: RotationMode)
        ensures
            r == Self::spec_from_widget_id(id),
    {
        if id == UP_CIRCLE_ID {
            RotationMode::Up
        } else if id == FRONT_CIRCLE_ID {
            RotationMode::Front
        } else {
            RotationMode::Right
        }
    }
}

/// What the view has to do after a step of the automaton. Pixel quantities are left
/// for the caller to normalise by the size of the drawing area.
#[derive(Debug, Clone, Copy, PartialEq, Eq, Structural)]
pub enum Consequence {
    Nothing,
    CameraTranslated(i64, i64),
    Swing(i64, i64),
    MovementEnded,
    PivotElement(Option<SceneElement>),
    ElementSelected(Option<SceneElement>, bool),
    DoubleClick(Option<SceneElement>),
    Candidate(Option<SceneElement>),
    PasteCandidate(Option<SceneElement>),
    Paste(Option<SceneElement>),
    InitTranslation(Pixel),
    InitRotation(Pixel),
    Translation(HandleDir, Pixel),
    Rotation(RotationMode, Pixel),
    InitFreeXover(Nucl, u32),
    MoveFreeXover(Option<SceneElement>, Pixel),
    XoverAtempt(Nucl, Nucl, usize),
    EndFreeXover,
    Building(isize),
    BuildEnded(u32, u32),
    BuildHelix { design_id: u32, grid_id: usize, length: usize, x: isize, y: isize, position: isize },
}

/// Asked of the owner when a state is entered or left.
#[derive(Debug, Clone, Copy, PartialEq, Eq, Structural)]
pub enum TransitionConsequence {
    Nothing,
    InitMovement,
    EndMovement,
}

/// The standing of the controller that does not belong to any state.
#[derive(Debug, Clone, Copy, PartialEq, Eq, Structural)]
pub struct InputContext {
    pub pasting: bool,
    pub modifiers: ModifiersState,
    pub action_mode: ActionMode,
    /// On macOS the command key plays the part of control.
    pub on_macos: bool,
}

/// What the scene reports for the event being handled.
#[derive(Debug, Clone, Copy)]
pub struct SceneProbe {
    /// The element picked at `pick_point` of the event.
    pub element: Option<SceneElement>,
    /// The lattice cell under the cursor, if any.
    pub grid_hit: Option<GridIntersection>,
    /// Whether a strand builder can start from the element that a selection holds.
    pub builder_available: bool,
    /// The cross-over, and its design, that the dragged source and the picked element make.
    pub xover: Option<(Nucl, Nucl, usize)>,
    /// The position of the cursor projected on the axis of the strand being built.
    pub projection: Option<isize>,
    /// The design and identifier of the moving end of the strand being built.
    pub moving_end: Option<(u32, u32)>,
}

pub open spec fn abs_diff(a: i32, b: i32) -> int {
    if a >= b {
        a - b
    } else {
        b - a
    }
}

/// Chebyshev distance between two cursor positions.
pub open spec fn spec_position_difference(a: Pixel, b: Pixel) -> int {
    let dx = abs_diff(a.x, b.x);
    let dy = abs_diff(a.y, b.y);
    if dx >= dy {
        dx
    } else {
        dy
    }
}

pub open spec fn is_drag(a: Pixel, b: Pixel) -> bool {
    spec_position_difference(a, b) > DRAG_THRESHOLD
}

pub fn position_difference(a: Pixel, b: Pixel) -> (r: i64)
    ensures
        r == spec_position_difference(a, b),
        r >= 0,
{
    let ax = a.x as i64;
    let bx = b.x as i64;
    let ay = a.y as i64;
    let by = b.y as i64;
    let dx: i64 = if ax >= bx { ax - bx } else { bx - ax };
    let dy: i64 = if ay >= by { ay - by } else { by - ay };
    if dx >= dy {
        dx
    } else {
        dy
    }
}

pub open spec fn spec_ctrl(modifiers: ModifiersState, on_macos: bool) -> bool {
    if on_macos {
        modifiers.logo
    } else {
        modifiers.ctrl
    }
}

/// Whether the key that stands for control is held.
pub fn ctrl(modifiers: &ModifiersState, on_macos: bool) -> (r: bool)
    ensures
        r == spec_ctrl(*modifiers, on_macos),
{
    if on_macos {
        modifiers.logo
    } else {
        modifiers.ctrl
    }
}

/// Milliseconds from `from` to `now`, zero if `now` is not later.
pub open spec fn spec_elapsed(from: u64, now: u64) -> int {
    if now >= from {
        now - from
    } else {
        0
    }
}

pub open spec fn timed_out(from: u64, now: u64) -> bool {
    spec_elapsed(from, now) > CLICK_DELAY_MS
}

fn elapsed(from: u64, now: u64) -> (r: u64)
    ensures
        r == spec_elapsed(from, now),
{
    if now >= from {
        now - from
    } else {
        0
    }
}

pub open spec fn adding_modifier(ctx: InputContext) -> bool {
    ctx.modifiers.shift || spec_ctrl(ctx.modifiers, ctx.on_macos)
}

pub struct Transition {
    pub new_state: Option<State>,
    pub consequences: Consequence,
}

impl Transition {
    pub open spec fn stay(consequences: Consequence) -> Transition {
        Transition { new_state: None, consequences }
    }

    pub open spec fn to(state: State, consequences: Consequence) -> Transition {
        Transition { new_state: Some(state), consequences }
    }

    pub fn nothing() -> (r: Transition)
        ensures
            r == Transition::stay(Consequence::Nothing),
    {
        Transition { new_state: None, consequences: Consequence::Nothing }
    }

    pub fn consequence(consequences: Consequence) -> (r: Transition)
        ensures
            r == Transition::stay(consequences),
    {
        Transition { new_state: None, consequences }
    }
}

/// The states of the automaton.
pub enum State {
    Normal(NormalState),
    TranslatingCamera(TranslatingCamera),
    SettingPivot(SettingPivot),
    RotatingCamera(RotatingCamera),
    Selecting(Selecting),
    WaitDoubleClick(WaitDoubleClick),
    TranslatingWidget(TranslatingWidget),
    RotatingWidget(RotatingWidget),
    BuildingStrand(BuildingStrand),
    Xovering(Xovering),
    BuildingHelix(BuildingHelix),
    Pasting(Pasting),
}

pub open spec fn normal_at(p: Pixel) -> State {
    State::Normal(NormalState { mouse_position: p })
}

pub fn initial_state() -> (r: State)
    ensures
        r == normal_at(Pixel { x: -1i32, y: -1i32 }),
{
    State::Normal(NormalState { mouse_position: Pixel { x: -1, y: -1 } })
}

pub struct NormalState {
    pub mouse_position: Pixel,
}

/// The candidate under the cursor: in a build mode, a grid hit at a lattice cell is
/// refined into that cell.
pub open spec fn hover_candidate(ctx: InputContext, probe: SceneProbe) -> Option<SceneElement> {
    match probe.element {
        Some(SceneElement::Grid(d_id, _)) => if ctx.action_mode.spec_is_build() {
            match probe.grid_hit {
                Some(h) => Some(SceneElement::GridCircle(d_id, h.grid_id, h.x, h.y)),
                None => probe.element,
            }
        } else {
            probe.element
        },
        _ => probe.element,
    }
}

pub open spec fn selecting_state(
    element: Option<SceneElement>,
    position: Pixel,
    now: u64,
    ctx: InputContext,
) -> State {
    State::Selecting(
        Selecting {
            mouse_position: position,
            clicked_position: position,
            element,
            click_date: now,
            adding: adding_modifier(ctx),
        },
    )
}

/// Where a left press lands when nothing is being pasted and no camera modifier is held.
pub open spec fn left_press(
    position: Pixel,
    now: u64,
    ctx: InputContext,
    probe: SceneProbe,
) -> Transition {
    match probe.element {
        Some(SceneElement::Grid(d_id, _)) => match ctx.action_mode {
            ActionMode::BuildHelix { position: helix_position, length } => match probe.grid_hit {
                Some(h) => Transition::to(
                    State::BuildingHelix(
                        BuildingHelix {
                            design_id: d_id,
                            grid_id: h.grid_id,
                            x_helix: h.x,
                            y_helix: h.y,
                            length_helix: length,
                            position_helix: helix_position,
                            clicked_position: position,
                        },
                    ),
                    Consequence::Nothing,
                ),
                None => Transition::to(
                    selecting_state(probe.element, position, now, ctx),
                    Consequence::Nothing,
                ),
            },
            _ => {
                let element = match probe.grid_hit {
                    Some(h) => Some(SceneElement::GridCircle(d_id, h.grid_id, h.x, h.y)),
                    None => probe.element,
                };
                Transition::to(selecting_state(element, position, now, ctx), Consequence::Nothing)
            },
        },
        Some(SceneElement::WidgetElement(id)) => if id == UP_HANDLE_ID || id == DIR_HANDLE_ID
            || id == RIGHT_HANDLE_ID {
            Transition::to(
                State::TranslatingWidget(
                    TranslatingWidget { direction: HandleDir::spec_from_widget_id(id) },
                ),
                Consequence::InitTranslation(position),
            )
        } else if id == RIGHT_CIRCLE_ID || id == FRONT_CIRCLE_ID || id == UP_CIRCLE_ID {
            Transition::to(
                State::RotatingWidget(
                    RotatingWidget { rotation_mode: RotationMode::spec_from_widget_id(id) },
                ),
                Consequence::InitRotation(position),
            )
        } else {
            Transition::stay(Consequence::Nothing)
        },
        _ => Transition::to(
            selecting_state(probe.element, position, now, ctx),
            Consequence::Nothing,
        ),
    }
}

impl NormalState {
    pub fn input(
        &mut self,
        event: &WindowEvent,
        position: Pixel,
        now: u64,
        ctx: &InputContext,
        probe: &SceneProbe,
    ) -> (r: Transition)
        ensures
            *event == WindowEvent::CursorMoved ==> final(self).mouse_position == position,
            *event != WindowEvent::CursorMoved ==> *final(self) == *old(self),
            *event == WindowEvent::CursorMoved && ctx.pasting ==> r == Transition::stay(
                Consequence::PasteCandidate(probe.element),
            ),
            *event == WindowEvent::CursorMoved && !ctx.pasting ==> r == Transition::stay(
                Consequence::Candidate(hover_candidate(*ctx, *probe)),
            ),
            *event == WindowEvent::Pressed(MouseButton::Left) && ctx.modifiers.alt ==> r
                == Transition::to(
                State::TranslatingCamera(
                    TranslatingCamera {
                        mouse_position: old(self).mouse_position,
                        clicked_position: old(self).mouse_position,
                        button_pressed: MouseButton::Left,
                    },
                ),
                Consequence::Nothing,
            ),
            *event == WindowEvent::Pressed(MouseButton::Left) && !ctx.modifiers.alt
                && ctx.pasting ==> r == Transition::to(
                State::Pasting(Pasting { clicked_position: position, element: probe.element }),
                Consequence::Nothing,
            ),
            *event == WindowEvent::Pressed(MouseButton::Left) && !ctx.modifiers.alt
                && !ctx.pasting ==> r == left_press(position, now, *ctx, *probe),
            *event == WindowEvent::Pressed(MouseButton::Middle) && spec_ctrl(
                ctx.modifiers,
                ctx.on_macos,
            ) ==> r == Transition::to(
                State::RotatingCamera(
                    RotatingCamera { clicked_position: position, button_pressed: MouseButton::Middle },
                ),
                Consequence::Nothing,
            ),
            *event == WindowEvent::Pressed(MouseButton::Middle) && !spec_ctrl(
                ctx.modifiers,
                ctx.on_macos,
            ) ==> r == Transition::to(
                State::TranslatingCamera(
                    TranslatingCamera {
                        mouse_position: old(self).mouse_position,
                        clicked_position: old(self).mouse_position,
                        button_pressed: MouseButton::Middle,
                    },
                ),
                Consequence::Nothing,
            ),
            *event == WindowEvent::Pressed(MouseButton::Right) ==> r == Transition::to(
                State::SettingPivot(SettingPivot { mouse_position: position, clicked_position: position }),
                Consequence::Nothing,
            ),
            (*event is Released || *event is Other || *event == WindowEvent::Pressed(
                MouseButton::Other,
            )) ==> r == Transition::stay(Consequence::Nothing),
    {
        match event {
            WindowEvent::CursorMoved => {
                self.mouse_position = position;
                if ctx.pasting {
                    Transition::consequence(Consequence::PasteCandidate(probe.element))
                } else {
                    let candidate = match probe.element {
                        Some(SceneElement::Grid(d_id, _)) => {
                            if ctx.action_mode.is_build() {
                                match probe.grid_hit {
                                    Some(h) => Some(
                                        SceneElement::GridCircle(d_id, h.grid_id, h.x, h.y),
                                    ),
                                    None => probe.element,
                                }
                            } else {
                                probe.element
                            }
                        },
                        _ => probe.element,
                    };
                    Transition::consequence(Consequence::Candidate(candidate))
                }
            },
            WindowEvent::Pressed(MouseButton::Left) => {
                if ctx.modifiers.alt {
                    Transition {
                        new_state: Some(
                            State::TranslatingCamera(
                                TranslatingCamera {
                                    mouse_position: self.mouse_position,
                                    clicked_position: self.mouse_position,
                                    button_pressed: MouseButton::Left,
                                },
                            ),
                        ),
                        consequences: Consequence::Nothing,
                    }
                } else if ctx.pasting {
                    Transition {
                        new_state: Some(
                            State::Pasting(
                                Pasting { clicked_position: position, element: probe.element },
                            ),
                        ),
                        consequences: Consequence::Nothing,
                    }
                } else {
                    Self::left_click(position, now, ctx, probe)
                }
            },
            WindowEvent::Pressed(MouseButton::Middle) => {
                if ctrl(&ctx.modifiers, ctx.on_macos) {
                    Transition {
                        new_state: Some(
                            State::RotatingCamera(
                                RotatingCamera {
                                    clicked_position: position,
                                    button_pressed: MouseButton::Middle,
                                },
                            ),
                        ),
                        consequences: Consequence::Nothing,
                    }
                } else {
                    Transition {
                        new_state: Some(
                            State::TranslatingCamera(
                                TranslatingCamera {
                                    mouse_position: self.mouse_position,
                                    clicked_position: self.mouse_position,
                                    button_pressed: MouseButton::Middle,
                                },
                            ),
                        ),
                        consequences: Consequence::Nothing,
                    }
                }
            },
            WindowEvent::Pressed(MouseButton::Right) => Transition {
                new_state: Some(
                    State::SettingPivot(
                        SettingPivot { mouse_position: position, clicked_position: position },
                    ),
                ),
                consequences: Consequence::Nothing,
            },
            _ => Transition::nothing(),
        }
    }

    fn selecting(element: Option<SceneElement>, position: Pixel, now: u64, ctx: &InputContext) -> (r:
        Transition)
        ensures
            r == Transition::to(selecting_state(element, position, now, *ctx), Consequence::Nothing),
    {
        let adding = ctx.modifiers.shift || ctrl(&ctx.modifiers, ctx.on_macos);
        Transition {
            new_state: Some(
                State::Selecting(
                    Selecting {
                        mouse_position: position,
                        clicked_position: position,
                        element,
                        click_date: now,
                        adding,
                    },
                ),
            ),
            consequences: Consequence::Nothing,
        }
    }

    fn left_click(position: Pixel, now: u64, ctx: &InputContext, probe: &SceneProbe) -> (r:
        Transition)
        ensures
            r == left_press(position, now, *ctx, *probe),
    {
        match probe.element {
            Some(SceneElement::Grid(d_id, _)) => {
                match ctx.action_mode {
                    ActionMode::BuildHelix { position: helix_position, length } => {
                        match probe.grid_hit {
                            Some(h) => Transition {
                                new_state: Some(
                                    State::BuildingHelix(
                                        BuildingHelix {
                                            design_id: d_id,
                                            grid_id: h.grid_id,
                                            x_helix: h.x,
                                            y_helix: h.y,
                                            length_helix: length,
                                            position_helix: helix_position,
                                            clicked_position: position,
                                        },
                                    ),
                                ),
                                consequences: Consequence::Nothing,
                            },
                            None => Self::selecting(probe.element, position, now, ctx),
                        }
                    },
                    _ => {
                        let element = match probe.grid_hit {
                            Some(h) => Some(SceneElement::GridCircle(d_id, h.grid_id, h.x, h.y)),
                            None => probe.element,
                        };
                        Self::selecting(element, position, now, ctx)
                    },
                }
            },
            Some(SceneElement::WidgetElement(id)) => {
                if id == UP_HANDLE_ID || id == DIR_HANDLE_ID || id == RIGHT_HANDLE_ID {
                    Transition {
                        new_state: Some(
                            State::TranslatingWidget(
                                TranslatingWidget { direction: HandleDir::from_widget_id(id) },
                            ),
                        ),
                        consequences: Consequence::InitTranslation(position),
                    }
                } else if id == RIGHT_CIRCLE_ID || id == FRONT_CIRCLE_ID || id == UP_CIRCLE_ID {
                    Transition {
                        new_state: Some(
                            State::RotatingWidget(
                                RotatingWidget { rotation_mode: RotationMode::from_widget_id(id) },
                            ),
                        ),
                        consequences: Consequence::InitRotation(position),
                    }
                } else {
                    Transition::nothing()
                }
            },
            _ => Self::selecting(probe.element, position, now, ctx),
        }
    }
}

pub struct TranslatingCamera {
    pub mouse_position: Pixel,
    pub clicked_position: Pixel,
    pub button_pressed: MouseButton,
}

pub struct SettingPivot {
    pub mouse_position: Pixel,
    pub clicked_position: Pixel,
}

pub struct RotatingCamera {
    pub clicked_position: Pixel,
    pub button_pressed: MouseButton,
}

pub struct Selecting {
    pub mouse_position: Pixel,
    pub clicked_position: Pixel,
    pub element: Option<SceneElement>,
    pub click_date: u64,
    pub adding: bool,
}

pub struct WaitDoubleClick {
    pub click_date: u64,
    pub element: Option<SceneElement>,
    pub mouse_position: Pixel,
    pub clicked_position: Pixel,
}

pub struct TranslatingWidget {
    pub direction: HandleDir,
}

pub struct RotatingWidget {
    pub rotation_mode: RotationMode,
}

/// A strand is being drawn; the builder itself stays with the owner of the automaton.
pub struct BuildingStrand {}

/// A free cross-over is being dragged from `source_element`.
pub struct Xovering {
    pub source_element: Option<SceneElement>,
}

pub struct BuildingHelix {
    pub design_id: u32,
    pub grid_id: usize,
    pub x_helix: isize,
    pub y_helix: isize,
    pub length_helix: usize,
    pub position_helix: isize,
    pub clicked_position: Pixel,
}

pub struct Pasting {
    pub clicked_position: Pixel,
    pub element: Option<SceneElement>,
}

impl TranslatingCamera {
    pub fn input(&mut self, event: &WindowEvent, position: Pixel) -> (r: Transition)
        ensures
            *event == WindowEvent::Released(old(self).button_pressed) ==> r == Transition::to(
                normal_at(old(self).mouse_position),
                Consequence::MovementEnded,
            ) && *final(self) == *old(self),
            *event == WindowEvent::CursorMoved ==> r == Transition::stay(
                Consequence::CameraTranslated(
                    (position.x - old(self).clicked_position.x) as i64,
                    (position.y - old(self).clicked_position.y) as i64,
                ),
            ) && final(self).mouse_position == position && final(self).clicked_position == old(
                self,
            ).clicked_position && final(self).button_pressed == old(self).button_pressed,
            *event != WindowEvent::Released(old(self).button_pressed) && *event
                != WindowEvent::CursorMoved ==> r == Transition::stay(Consequence::Nothing)
                && *final(self) == *old(self),
    {
        match event {
            WindowEvent::Released(button) if *button == self.button_pressed => Transition {
                new_state: Some(State::Normal(NormalState { mouse_position: self.mouse_position })),
                consequences: Consequence::MovementEnded,
            },
            WindowEvent::CursorMoved => {
                let dx = position.x as i64 - self.clicked_position.x as i64;
                let dy = position.y as i64 - self.clicked_position.y as i64;
                self.mouse_position = position;
                Transition::consequence(Consequence::CameraTranslated(dx, dy))
            },
            _ => Transition::nothing(),
        }
    }
}

impl SettingPivot {
    pub fn input(&mut self, event: &WindowEvent, position: Pixel, probe: &SceneProbe) -> (r:
        Transition)
        ensures
            *event == WindowEvent::CursorMoved && is_drag(position, old(self).clicked_position)
                ==> r == Transition::to(
                State::RotatingCamera(
                    RotatingCamera {
                        clicked_position: old(self).clicked_position,
                        button_pressed: MouseButton::Right,
                    },
                ),
                Consequence::Nothing,
            ) && *final(self) == *old(self),
            *event == WindowEvent::CursorMoved && !is_drag(position, old(self).clicked_position)
                ==> r == Transition::stay(Consequence::Nothing) && final(self).mouse_position
                == position && final(self).clicked_position == old(self).clicked_position,
            *event == WindowEvent::Released(MouseButton::Right) ==> r == Transition::to(
                normal_at(position),
                Consequence::PivotElement(probe.element),
            ) && *final(self) == *old(self),
            *event != WindowEvent::CursorMoved && *event != WindowEvent::Released(
                MouseButton::Right,
            ) ==> r == Transition::stay(Consequence::Nothing) && *final(self) == *old(self),
    {
        match event {
            WindowEvent::CursorMoved => {
                if position_difference(position, self.clicked_position) > DRAG_THRESHOLD {
                    Transition {
                        new_state: Some(
                            State::RotatingCamera(
                                RotatingCamera {
                                    clicked_position: self.clicked_position,
                                    button_pressed: MouseButton::Right,
                                },
                            ),
                        ),
                        consequences: Consequence::Nothing,
                    }
                } else {
                    self.mouse_position = position;
                    Transition::nothing()
                }
            },
            WindowEvent::Released(MouseButton::Right) => Transition {
                new_state: Some(State::Normal(NormalState { mouse_position: position })),
                consequences: Consequence::PivotElement(probe.element),
            },
            _ => Transition::nothing(),
        }
    }
}

impl RotatingCamera {
    pub fn input(&self, event: &WindowEvent, position: Pixel) -> (r: Transition)
        ensures
            *event == WindowEvent::CursorMoved ==> r == Transition::stay(
                Consequence::Swing(
                    (position.x - self.clicked_position.x) as i64,
                    (position.y - self.clicked_position.y) as i64,
                ),
            ),
            *event == WindowEvent::Released(self.button_pressed) ==> r == Transition::to(
                normal_at(position),
                Consequence::Nothing,
            ),
            *event != WindowEvent::CursorMoved && *event != WindowEvent::Released(
                self.button_pressed,
            ) ==> r == Transition::stay(Consequence::Nothing),
    {
        match event {
            WindowEvent::CursorMoved => {
                let dx = position.x as i64 - self.clicked_position.x as i64;
                let dy = position.y as i64 - self.clicked_position.y as i64;
                Transition::consequence(Consequence::Swing(dx, dy))
            },
            WindowEvent::Released(button) if *button == self.button_pressed => Transition {
                new_state: Some(State::Normal(NormalState { mouse_position: position })),
                consequences: Consequence::Nothing,
            },
            _ => Transition::nothing(),
        }
    }
}

impl Selecting {
    /// A click held longer than the delay on an element that is a nucleotide starts a
    /// free cross-over from it; on anything else the selection is dropped.
    /// `nucl` is the nucleotide, and its design, that the held element stands for.
    pub fn check_timers(&self, now: u64, nucl: Option<(Nucl, u32)>) -> (r: Transition)
        ensures
            !timed_out(self.click_date, now) ==> r == Transition::stay(Consequence::Nothing),
            timed_out(self.click_date, now) && nucl is Some ==> r == Transition::to(
                State::Xovering(Xovering { source_element: self.element }),
                Consequence::InitFreeXover((nucl->0).0, (nucl->0).1),
            ),
            timed_out(self.click_date, now) && nucl is None ==> r == Transition::to(
                normal_at(self.mouse_position),
                Consequence::Nothing,
            ),
    {
        if elapsed(self.click_date, now) > CLICK_DELAY_MS {
            match nucl {
                Some((n, d_id)) => Transition {
                    new_state: Some(State::Xovering(Xovering { source_element: self.element })),
                    consequences: Consequence::InitFreeXover(n, d_id),
                },
                None => Transition {
                    new_state: Some(State::Normal(NormalState { mouse_position: self.mouse_position })),
                    consequences: Consequence::Nothing,
                },
            }
        } else {
            Transition::nothing()
        }
    }

    pub fn input(&mut self, event: &WindowEvent, position: Pixel, now: u64, probe: &SceneProbe) -> (r:
        Transition)
        ensures
            *event == WindowEvent::CursorMoved && is_drag(position, old(self).clicked_position)
                && probe.builder_available ==> r == Transition::to(
                State::BuildingStrand(BuildingStrand {  }),
                Consequence::Nothing,
            ) && *final(self) == *old(self),
            *event == WindowEvent::CursorMoved && is_drag(position, old(self).clicked_position)
                && !probe.builder_available ==> r == Transition::to(
                normal_at(old(self).mouse_position),
                Consequence::Nothing,
            ) && *final(self) == *old(self),
            *event == WindowEvent::CursorMoved && !is_drag(position, old(self).clicked_position)
                ==> r == Transition::stay(Consequence::Nothing) && *final(self) == (Selecting {
                mouse_position: position,
                ..*old(self)
            }),
            *event == WindowEvent::Released(MouseButton::Left) ==> r == Transition::to(
                State::WaitDoubleClick(
                    WaitDoubleClick {
                        click_date: now,
                        element: old(self).element,
                        mouse_position: position,
                        clicked_position: old(self).clicked_position,
                    },
                ),
                Consequence::ElementSelected(old(self).element, old(self).adding),
            ) && *final(self) == *old(self),
            *event != WindowEvent::CursorMoved && *event != WindowEvent::Released(MouseButton::Left)
                ==> r == Transition::stay(Consequence::Nothing) && *final(self) == *old(self),
    {
        match event {
            WindowEvent::CursorMoved => {
                if position_difference(position, self.clicked_position) > DRAG_THRESHOLD {
                    if probe.builder_available {
                        Transition {
                            new_state: Some(State::BuildingStrand(BuildingStrand {  })),
                            consequences: Consequence::Nothing,
                        }
                    } else {
                        Transition {
                            new_state: Some(
                                State::Normal(NormalState { mouse_position: self.mouse_position }),
                            ),
                            consequences: Consequence::Nothing,
                        }
                    }
                } else {
                    self.mouse_position = position;
                    Transition::nothing()
                }
            },
            WindowEvent::Released(MouseButton::Left) => Transition {
                new_state: Some(
                    State::WaitDoubleClick(
                        WaitDoubleClick {
                            click_date: now,
                            element: self.element,
                            mouse_position: position,
                            clicked_position: self.clicked_position,
                        },
                    ),
                ),
                consequences: Consequence::ElementSelected(self.element, self.adding),
            },
            _ => Transition::nothing(),
        }
    }
}

impl WaitDoubleClick {
    pub fn check_timers(&self, now: u64) -> (r: Transition)
        ensures
            r == wait_timer(*self, now),
            timed_out(self.click_date, now) ==> r == Transition::to(
                normal_at(self.mouse_position),
                Consequence::Nothing,
            ),
            !timed_out(self.click_date, now) ==> r == Transition::stay(Consequence::Nothing),
    {
        if elapsed(self.click_date, now) > CLICK_DELAY_MS {
            Transition {
                new_state: Some(State::Normal(NormalState { mouse_position: self.mouse_position })),
                consequences: Consequence::Nothing,
            }
        } else {
            Transition::nothing()
        }
    }

    pub fn input(&mut self, event: &WindowEvent, position: Pixel) -> (r: Transition)
        ensures
            *event == WindowEvent::Released(MouseButton::Left) ==> r == wait_release(*old(self))
                && *final(self) == *old(self),
            *event == WindowEvent::CursorMoved ==> *final(self) == (WaitDoubleClick {
                mouse_position: position,
                ..*old(self)
            }),
            *event == WindowEvent::CursorMoved && is_drag(position, old(self).clicked_position)
                ==> r == Transition::to(normal_at(position), Consequence::Nothing),
            *event == WindowEvent::CursorMoved && !is_drag(position, old(self).clicked_position)
                ==> r == Transition::stay(Consequence::Nothing),
            *event != WindowEvent::CursorMoved && *event != WindowEvent::Released(MouseButton::Left)
                ==> r == Transition::stay(Consequence::Nothing) && *final(self) == *old(self),
    {
        match event {
            WindowEvent::Released(MouseButton::Left) => Transition {
                new_state: Some(State::Normal(NormalState { mouse_position: self.mouse_position })),
                consequences: Consequence::DoubleClick(self.element),
            },
            WindowEvent::CursorMoved => {
                self.mouse_position = position;
                if position_difference(position, self.clicked_position) > DRAG_THRESHOLD {
                    Transition {
                        new_state: Some(
                            State::Normal(NormalState { mouse_position: self.mouse_position }),
                        ),
                        consequences: Consequence::Nothing,
                    }
                } else {
                    Transition::nothing()
                }
            },
            _ => Transition::nothing(),
        }
    }
}

impl TranslatingWidget {
    pub fn input(&self, event: &WindowEvent, position: Pixel) -> (r: Transition)
        ensures
            *event == WindowEvent::Released(MouseButton::Left) ==> r == Transition::to(
                normal_at(position),
                Consequence::MovementEnded,
            ),
            *event == WindowEvent::CursorMoved ==> r == Transition::stay(
                Consequence::Translation(self.direction, position),
            ),
            *event != WindowEvent::CursorMoved && *event != WindowEvent::Released(MouseButton::Left)
                ==> r == Transition::stay(Consequence::Nothing),
    {
        match event {
            WindowEvent::Released(MouseButton::Left) => Transition {
                new_state: Some(State::Normal(NormalState { mouse_position: position })),
                consequences: Consequence::MovementEnded,
            },
            WindowEvent::CursorMoved => Transition::consequence(
                Consequence::Translation(self.direction, position),
            ),
            _ => Transition::nothing(),
        }
    }
}

impl RotatingWidget {
    pub fn input(&self, event: &WindowEvent, position: Pixel) -> (r: Transition)
        ensures
            *event == WindowEvent::Released(MouseButton::Left) ==> r == Transition::to(
                normal_at(position),
                Consequence::MovementEnded,
            ),
            *event == WindowEvent::CursorMoved ==> r == Transition::stay(
                Consequence::Rotation(self.rotation_mode, position),
            ),
            *event != WindowEvent::CursorMoved && *event != WindowEvent::Released(MouseButton::Left)
                ==> r == Transition::stay(Consequence::Nothing),
    {
        match event {
            WindowEvent::Released(MouseButton::Left) => Transition {
                new_state: Some(State::Normal(NormalState { mouse_position: position })),
                consequences: Consequence::MovementEnded,
            },
            WindowEvent::CursorMoved => Transition::consequence(
                Consequence::Rotation(self.rotation_mode, position),
            ),
            _ => Transition::nothing(),
        }
    }
}

impl BuildingStrand {
    /// On a move the owner resets the selection and the candidate and moves its builder
    /// to the projected position; on release the construction ends if the moving end
    /// can be identified.
    pub fn input(&self, event: &WindowEvent, position: Pixel, probe: &SceneProbe) -> (r: Transition)
        ensures
            *event == WindowEvent::Released(MouseButton::Left) && probe.moving_end is Some ==> r
                == Transition::to(
                normal_at(position),
                Consequence::BuildEnded((probe.moving_end->0).0, (probe.moving_end->0).1),
            ),
            *event == WindowEvent::Released(MouseButton::Left) && probe.moving_end is None ==> r
                == Transition::to(normal_at(position), Consequence::Nothing),
            *event == WindowEvent::CursorMoved && probe.projection is Some ==> r
                == Transition::stay(Consequence::Building(probe.projection->0)),
            *event == WindowEvent::CursorMoved && probe.projection is None ==> r
                == Transition::stay(Consequence::Nothing),
            *event != WindowEvent::CursorMoved && *event != WindowEvent::Released(MouseButton::Left)
                ==> r == Transition::stay(Consequence::Nothing),
    {
        match event {
            WindowEvent::Released(MouseButton::Left) => {
                let consequences = match probe.moving_end {
                    Some((d_id, id)) => Consequence::BuildEnded(d_id, id),
                    None => Consequence::Nothing,
                };
                Transition {
                    new_state: Some(State::Normal(NormalState { mouse_position: position })),
                    consequences,
                }
            },
            WindowEvent::CursorMoved => match probe.projection {
                Some(p) => Transition::consequence(Consequence::Building(p)),
                None => Transition::nothing(),
            },
            _ => Transition::nothing(),
        }
    }
}

impl Xovering {
    pub fn input(&self, event: &WindowEvent, position: Pixel, probe: &SceneProbe) -> (r: Transition)
        ensures
            *event == WindowEvent::Released(MouseButton::Left) && probe.xover is Some ==> r
                == Transition::to(
                normal_at(position),
                Consequence::XoverAtempt((probe.xover->0).0, (probe.xover->0).1, (probe.xover->0).2),
            ),
            *event == WindowEvent::Released(MouseButton::Left) && probe.xover is None ==> r
                == Transition::to(normal_at(position), Consequence::EndFreeXover),
            *event == WindowEvent::CursorMoved ==> r == Transition::stay(
                Consequence::MoveFreeXover(probe.element, position),
            ),
            *event != WindowEvent::CursorMoved && *event != WindowEvent::Released(MouseButton::Left)
                ==> r == Transition::stay(Consequence::Nothing),
    {
        match event {
            WindowEvent::Released(MouseButton::Left) => {
                let consequences = match probe.xover {
                    Some((source, target, design_id)) => Consequence::XoverAtempt(
                        source,
                        target,
                        design_id,
                    ),
                    None => Consequence::EndFreeXover,
                };
                Transition {
                    new_state: Some(State::Normal(NormalState { mouse_position: position })),
                    consequences,
                }
            },
            WindowEvent::CursorMoved => Transition::consequence(
                Consequence::MoveFreeXover(probe.element, position),
            ),
            _ => Transition::nothing(),
        }
    }
}

impl BuildingHelix {
    pub fn input(&self, event: &WindowEvent, position: Pixel) -> (r: Transition)
        ensures
            *event == WindowEvent::CursorMoved && is_drag(self.clicked_position, position) ==> r
                == Transition::to(normal_at(position), Consequence::Nothing),
            *event == WindowEvent::CursorMoved && !is_drag(self.clicked_position, position) ==> r
                == Transition::stay(Consequence::Nothing),
            *event == WindowEvent::Released(MouseButton::Left) ==> r == Transition::to(
                normal_at(position),
                Consequence::BuildHelix {
                    design_id: self.design_id,
                    grid_id: self.grid_id,
                    length: self.length_helix,
                    x: self.x_helix,
                    y: self.y_helix,
                    position: self.position_helix,
                },
            ),
            *event != WindowEvent::CursorMoved && *event != WindowEvent::Released(MouseButton::Left)
                ==> r == Transition::stay(Consequence::Nothing),
    {
        match event {
            WindowEvent::CursorMoved => {
                if position_difference(self.clicked_position, position) > DRAG_THRESHOLD {
                    Transition {
                        new_state: Some(State::Normal(NormalState { mouse_position: position })),
                        consequences: Consequence::Nothing,
                    }
                } else {
                    Transition::nothing()
                }
            },
            WindowEvent::Released(MouseButton::Left) => Transition {
                new_state: Some(State::Normal(NormalState { mouse_position: position })),
                consequences: Consequence::BuildHelix {
                    design_id: self.design_id,
                    grid_id: self.grid_id,
                    length: self.length_helix,
                    x: self.x_helix,
                    y: self.y_helix,
                    position: self.position_helix,
                },
            },
            _ => Transition::nothing(),
        }
    }
}

impl Pasting {
    pub fn input(&self, event: &WindowEvent, position: Pixel) -> (r: Transition)
        ensures
            *event == WindowEvent::CursorMoved && is_drag(self.clicked_position, position) ==> r
                == Transition::to(normal_at(position), Consequence::Nothing),
            *event == WindowEvent::CursorMoved && !is_drag(self.clicked_position, position) ==> r
                == Transition::stay(Consequence::Nothing),
            *event == WindowEvent::Released(MouseButton::Left) ==> r == Transition::to(
                normal_at(position),
                Consequence::Paste(self.element),
            ),
            *event != WindowEvent::CursorMoved && *event != WindowEvent::Released(MouseButton::Left)
                ==> r == Transition::stay(Consequence::Nothing),
    {
        match event {
            WindowEvent::CursorMoved => {
                if position_difference(self.clicked_position, position) > DRAG_THRESHOLD {
                    Transition {
                        new_state: Some(State::Normal(NormalState { mouse_position: position })),
                        consequences: Consequence::Nothing,
                    }
                } else {
                    Transition::nothing()
                }
            },
            WindowEvent::Released(MouseButton::Left) => Transition {
                new_state: Some(State::Normal(NormalState { mouse_position: position })),
                consequences: Consequence::Paste(self.element),
            },
            _ => Transition::nothing(),
        }
    }
}

impl State {
    pub open spec fn is_camera_movement(&self) -> bool {
        self is TranslatingCamera || self is RotatingCamera
    }

    /// Asked of the owner when the automaton enters this state: moving the camera opens
    /// a movement.
    pub fn transition_to(&self) -> (r: TransitionConsequence)
        ensures
            self.is_camera_movement() ==> r == TransitionConsequence::InitMovement,
            !self.is_camera_movement() ==> r == TransitionConsequence::Nothing,
    {
        match self {
            State::TranslatingCamera(_) => TransitionConsequence::InitMovement,
            State::RotatingCamera(_) => TransitionConsequence::InitMovement,
            _ => TransitionConsequence::Nothing,
        }
    }

    /// Asked of the owner when the automaton leaves this state: a camera movement ends.
    pub fn transition_from(&self) -> (r: TransitionConsequence)
        ensures
            self.is_camera_movement() ==> r == TransitionConsequence::EndMovement,
            !self.is_camera_movement() ==> r == TransitionConsequence::Nothing,
    {
        match self {
            State::TranslatingCamera(_) => TransitionConsequence::EndMovement,
            State::RotatingCamera(_) => TransitionConsequence::EndMovement,
            _ => TransitionConsequence::Nothing,
        }
    }

    /// Take the state that `t` leads to, if any. Returns the hook of the state left, the
    /// hook of the state entered, and the consequence of `t`; without a new state both
    /// hooks are `Nothing`.
    pub fn apply_transition(&mut self, t: Transition) -> (r: (
        TransitionConsequence,
        TransitionConsequence,
        Consequence,
    ))
        ensures
            t.new_state is Some ==> *final(self) == t.new_state->0 && r == (
                if old(self).is_camera_movement() {
                    TransitionConsequence::EndMovement
                } else {
                    TransitionConsequence::Nothing
                },
                if t.new_state->0.is_camera_movement() {
                    TransitionConsequence::InitMovement
                } else {
                    TransitionConsequence::Nothing
                },
                t.consequences,
            ),
            t.new_state is None ==> *final(self) == *old(self) && r == (
                TransitionConsequence::Nothing,
                TransitionConsequence::Nothing,
                t.consequences,
            ),
    {
        match t.new_state {
            Some(new_state) => {
                let left = self.transition_from();
                let entered = new_state.transition_to();
                *self = new_state;
                (left, entered, t.consequences)
            },
            None => (TransitionConsequence::Nothing, TransitionConsequence::Nothing, t.consequences),
        }
    }

    /// Where the scene must be picked for `event` at `position`: a pivot is picked where
    /// the cursor last rested, everything else under the cursor.
    pub fn pick_point(&self, event: &WindowEvent, position: Pixel) -> (r: Pixel)
        ensures
            (self matches State::SettingPivot(s) && *event == WindowEvent::Released(
                MouseButton::Right,
            )) ==> r == self->SettingPivot_0.mouse_position,
            !(self is SettingPivot && *event == WindowEvent::Released(MouseButton::Right)) ==> r
                == position,
    {
        match (self, event) {
            (State::SettingPivot(s), WindowEvent::Released(MouseButton::Right)) => s.mouse_position,
            _ => position,
        }
    }
}

/// What the timer check does to a state waiting for a double click.
pub open spec fn wait_timer(w: WaitDoubleClick, now: u64) -> Transition {
    if timed_out(w.click_date, now) {
        Transition::to(normal_at(w.mouse_position), Consequence::Nothing)
    } else {
        Transition::stay(Consequence::Nothing)
    }
}

/// What a second left release does to a state waiting for a double click.
pub open spec fn wait_release(w: WaitDoubleClick) -> Transition {
    Transition::to(normal_at(w.mouse_position), Consequence::DoubleClick(w.element))
}

/// A second release that comes no later than the delay after the first one finds the
/// automaton still waiting, since the timer check leaves it there, and makes a double
/// click of the element. Later than the delay, the timer check has already sent the
/// automaton back to its normal state, and from there a left press on an element that
/// is no grid and no widget starts a new selection.
pub proof fn lemma_double_click_window(
    w: WaitDoubleClick,
    now: u64,
    position: Pixel,
    ctx: InputContext,
    probe: SceneProbe,
)
    requires
        now >= w.click_date,
        !(probe.element matches Some(SceneElement::Grid(_, _))),
        !(probe.element matches Some(SceneElement::WidgetElement(_))),
    ensures
        now - w.click_date <= CLICK_DELAY_MS ==> wait_timer(w, now) == Transition::stay(
            Consequence::Nothing,
        ) && wait_release(w).consequences == Consequence::DoubleClick(w.element),
        now - w.click_date > CLICK_DELAY_MS ==> wait_timer(w, now).new_state == Some(
            normal_at(w.mouse_position),
        ) && wait_timer(w, now).consequences == Consequence::Nothing && left_press(
            position,
            now,
            ctx,
            probe,
        ) == Transition::to(selecting_state(probe.element, position, now, ctx), Consequence::Nothing),
{
}

} // verus!
