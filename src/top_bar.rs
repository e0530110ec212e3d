//! The toolbar: each button posts a request for the main loop, and at most one file
//! dialog is open at a time.
use vstd::prelude::*;

verus! {

/// Which views the window shows.
#[derive(Debug, Clone, Copy, PartialEq, Eq, Structural)]
pub enum SplitMode {
    Flat,
    Scene3D,
    Both,
}

/// What the application tells the toolbar about itself.
#[derive(Debug, Clone, Copy, PartialEq, Eq, Structural)]
pub struct ApplicationState {
    pub can_undo: bool,
    pub can_redo: bool,
}

/// The requests that the toolbar posts for the main loop.
#[derive(Debug, Clone, Copy, PartialEq, Eq, Structural)]
pub struct Requests {
    pub fitting: bool,
    pub file_clear: bool,
    pub toggle_scene: Option<SplitMode>,
    pub oxdna: bool,
    pub split2d: bool,
    pub undo: bool,
    pub redo: bool,
    pub force_help: bool,
    pub show_tutorial: bool,
}

impl Requests {
    pub fn new() -> (r: Requests)
        ensures
            !r.fitting && !r.file_clear && r.toggle_scene is None && !r.oxdna && !r.split2d
                && !r.undo && !r.redo && !r.force_help && !r.show_tutorial,
    {
        Requests {
            fitting: false,
            file_clear: false,
            toggle_scene: None,
            oxdna: false,
            split2d: false,
            undo: false,
            redo: false,
            force_help: false,
            show_tutorial: false,
        }
    }
}

/// The messages of the toolbar's buttons. `K` says what to do once a save is done.
pub enum Message<K> {
    SceneFitRequested,
    FileAddRequested,
    OpenFileButtonPressed,
    FileReplaceRequested,
    FileSaveRequested(Option<K>),
    ToggleView(SplitMode),
    OxDNARequested,
    Split2d,
    NewApplicationState(ApplicationState),
    ForceHelp,
    ShowTutorial,
    Undo,
    Redo,
    ButtonNewEmptyDesignPressed,
}

/// What the owner of the toolbar must do besides the posted requests.
pub enum TopBarAction<K> {
    Nothing,
    /// Open a dialog to pick a file to load.
    PickFile,
    /// Open a dialog to pick where to save, then go on with `K`.
    PickSavePath(Option<K>),
    /// Offer to save before opening another design.
    SaveBeforeOpen,
    /// Offer to save before starting an empty design.
    SaveBeforeNew,
}

pub struct TopBar {
    /// Whether a file dialog is open.
    pub dialoging: bool,
    pub application_state: ApplicationState,
}

impl TopBar {
    pub fn new() -> (r: TopBar)
        ensures
            !r.dialoging,
            !r.application_state.can_undo,
            !r.application_state.can_redo,
    {
        TopBar {
            dialoging: false,
            application_state: ApplicationState { can_undo: false, can_redo: false },
        }
    }

    /// Whether the undo button can be pressed.
    pub fn undo_enabled(&self) -> (r: bool)
        ensures
            r == self.application_state.can_undo,
    {
        self.application_state.can_undo
    }

    /// Whether the redo button can be pressed.
    pub fn redo_enabled(&self) -> (r: bool)
        ensures
            r == self.application_state.can_redo,
    {
        self.application_state.can_redo
    }

    /// A file dialog has been closed, whatever it returned.
    pub fn dialog_closed(&mut self)
        ensures
            !final(self).dialoging,
            final(self).application_state == old(self).application_state,
    {
        self.dialoging = false;
    }

    /// Handle a button's message: post its request, or say which dialog to open. A
    /// file dialog is only opened when none is, and then counts as open.
    pub fn update<K>(&mut self, message: Message<K>, requests: &mut Requests) -> (r: TopBarAction<K>)
        ensures
            message is FileAddRequested || message is FileSaveRequested ==> {
                &&& old(self).dialoging ==> r is Nothing && *final(self) == *old(self)
                &&& !old(self).dialoging ==> final(self).dialoging && final(self).application_state
                    == old(self).application_state
                &&& *final(requests) == *old(requests)
            },
            message is FileAddRequested && !old(self).dialoging ==> r is PickFile,
            message matches Message::FileSaveRequested(k) ==> (!old(self).dialoging ==> r
                == TopBarAction::PickSavePath(k)),
            message matches Message::NewApplicationState(s) ==> (final(self).application_state == s
                && final(self).dialoging == old(self).dialoging && r is Nothing && *final(requests)
                == *old(requests)),
            !(message is FileAddRequested || message is FileSaveRequested
                || message is NewApplicationState) ==> *final(self) == *old(self),
            message is SceneFitRequested ==> r is Nothing && *final(requests) == (Requests {
                fitting: true,
                ..*old(requests)
            }),
            message is OpenFileButtonPressed ==> r is SaveBeforeOpen && *final(requests) == *old(
                requests,
            ),
            message is FileReplaceRequested ==> r is Nothing && *final(requests) == (Requests {
                file_clear: false,
                ..*old(requests)
            }),
            message matches Message::ToggleView(m) ==> (r is Nothing && *final(requests) == (
            Requests { toggle_scene: Some(m), ..*old(requests) })),
            message is OxDNARequested ==> r is Nothing && *final(requests) == (Requests {
                oxdna: true,
                ..*old(requests)
            }),
            message is Split2d ==> r is Nothing && *final(requests) == (Requests {
                split2d: true,
                ..*old(requests)
            }),
            message is Undo ==> r is Nothing && *final(requests) == (Requests {
                undo: true,
                ..*old(requests)
            }),
            message is Redo ==> r is Nothing && *final(requests) == (Requests {
                redo: true,
                ..*old(requests)
            }),
            message is ForceHelp ==> r is Nothing && *final(requests) == (Requests {
                force_help: true,
                ..*old(requests)
            }),
            message is ShowTutorial ==> r is Nothing && *final(requests) == (Requests {
                show_tutorial: true,
                ..*old(requests)
            }),
            message is ButtonNewEmptyDesignPressed ==> r is SaveBeforeNew && *final(requests)
                == *old(requests),
    {
        match message {
            Message::SceneFitRequested => {
                requests.fitting = true;
                TopBarAction::Nothing
            },
            Message::OpenFileButtonPressed => TopBarAction::SaveBeforeOpen,
            Message::FileAddRequested => {
                if !self.dialoging {
                    self.dialoging = true;
                    TopBarAction::PickFile
                } else {
                    TopBarAction::Nothing
                }
            },
            Message::FileReplaceRequested => {
                requests.file_clear = false;
                TopBarAction::Nothing
            },
            Message::FileSaveRequested(keep_proceed) => {
                if !self.dialoging {
                    self.dialoging = true;
                    TopBarAction::PickSavePath(keep_proceed)
                } else {
                    TopBarAction::Nothing
                }
            },
            Message::ToggleView(b) => {
                requests.toggle_scene = Some(b);
                TopBarAction::Nothing
            },
            Message::OxDNARequested => {
                requests.oxdna = true;
                TopBarAction::Nothing
            },
            Message::Split2d => {
                requests.split2d = true;
                TopBarAction::Nothing
            },
            Message::NewApplicationState(state) => {
                self.application_state = state;
                TopBarAction::Nothing
            },
            Message::Undo => {
                requests.undo = true;
                TopBarAction::Nothing
            },
            Message::Redo => {
                requests.redo = true;
                TopBarAction::Nothing
            },
            Message::ForceHelp => {
                requests.force_help = true;
                TopBarAction::Nothing
            },
            Message::ShowTutorial => {
                requests.show_tutorial = true;
                TopBarAction::Nothing
            },
            Message::ButtonNewEmptyDesignPressed => TopBarAction::SaveBeforeNew,
        }
    }
}

} // verus!
