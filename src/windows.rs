//! Open and closed state of the player's tool windows.
use vstd::prelude::*;

verus! {

/// A window opened by a button: clicking the button of an open window
/// closes it for one frame and opens it again, which brings it to the front.
#[derive(PartialEq, Eq, Debug, Clone, Copy, Structural)]
pub enum OpenState {
    Closed,
    Open,
    Reopen,
}

pub struct ButtonWindow {
    open: OpenState,
}

impl ButtonWindow {
    pub closed spec fn state(&self) -> OpenState {
        self.open
    }

    pub fn create() -> (r: ButtonWindow)
        ensures
            r.state() == OpenState::Closed,
    {
        ButtonWindow { open: OpenState::Closed }
    }

    pub fn is_open(&self) -> (r: bool)
        ensures
            r == (self.state() == OpenState::Open),
    {
        matches!(self.open, OpenState::Open)
    }

    /// Open (by way of a reopen) or close the window.
    pub fn set_open(&mut self, b: bool)
        ensures
            final(self).state() == if b {
                OpenState::Reopen
            } else {
                OpenState::Closed
            },
    {
        self.open = if b {
            OpenState::Reopen
        } else {
            OpenState::Closed
        }
    }
}

/// The transcript window: whether a transcript is being written, and where.
pub struct TranscriptWindowState {
    pub changed: bool,
    pub window: ButtonWindow,
    pub transcript_path: String,
    pub is_active: bool,
    // If true, activate or choose the transcript as soon as it opens
    pub activate_on_open: bool,
}

impl TranscriptWindowState {
    pub fn create() -> (r: TranscriptWindowState)
        ensures
            r.window.state() == OpenState::Closed,
            !r.changed,
            !r.is_active,
            !r.activate_on_open,
            r.transcript_path@.len() == 0,
    {
        TranscriptWindowState {
            window: ButtonWindow::create(),
            changed: false,
            is_active: false,
            activate_on_open: false,
            transcript_path: String::new(),
        }
    }

    pub fn is_open(&self) -> (r: bool)
        ensures
            r == (self.window.state() == OpenState::Open),
    {
        self.window.is_open()
    }

    pub fn open(&mut self)
        ensures
            final(self).window.state() == OpenState::Reopen,
            final(self).changed == old(self).changed,
            final(self).is_active == old(self).is_active,
            final(self).activate_on_open == old(self).activate_on_open,
            final(self).transcript_path@ == old(self).transcript_path@,
    {
        self.window.set_open(true);
    }
}

/// The command output window: whether typed commands are being written out,
/// and where.
pub struct CommandOutputWindowState {
    pub changed: bool,
    pub window: ButtonWindow,
    pub command_output_path: String,
    pub is_active: bool,
    // If true, activate or choose the output as soon as it opens
    pub activate_on_open: bool,
}

impl CommandOutputWindowState {
    pub fn create() -> (r: CommandOutputWindowState)
        ensures
            r.window.state() == OpenState::Closed,
            !r.changed,
            !r.is_active,
            !r.activate_on_open,
            r.command_output_path@.len() == 0,
    {
        CommandOutputWindowState {
            window: ButtonWindow::create(),
            changed: false,
            is_active: false,
            activate_on_open: false,
            command_output_path: String::new(),
        }
    }

    pub fn is_open(&self) -> (r: bool)
        ensures
            r == (self.window.state() == OpenState::Open),
    {
        self.window.is_open()
    }

    pub fn open(&mut self)
        ensures
            final(self).window.state() == OpenState::Reopen,
            final(self).changed == old(self).changed,
            final(self).is_active == old(self).is_active,
            final(self).activate_on_open == old(self).activate_on_open,
            final(self).command_output_path@ == old(self).command_output_path@,
    {
        self.window.set_open(true);
    }
}

} // verus!
