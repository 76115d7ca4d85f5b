use vstd::prelude::*;

verus! {

/// What a key or mouse action asks the application to do.
#[derive(Clone, Copy, Debug, PartialEq, Eq, Structural)]
pub enum InputEvent {
    Quit,
    TogglePause,
    SpeedUp,
    SpeedDown,
    ToggleReplay,
    SeekBackward,
    SeekForward,
    ToggleHeatMap,
    ToggleTrails,
    ToggleLandmarks,
    ClearHeatMap,
    ToggleHelp,
    CycleDisplayMode,
    SetModeMinimal,
    SetModeStandard,
    SetModeDebug,
    MouseHover { x: u16, y: u16 },
    MouseClick { x: u16, y: u16 },
    Resize { width: u16, height: u16 },
    CloseHelp,
    EnterFilterMode,
    CharInput(char),
    ApplyFilter,
    ClearFilter,
    ExitFilterMode,
    NoOp,
}

/// The keys the application tells apart.
#[derive(Clone, Copy, Debug, PartialEq, Eq, Structural)]
pub enum KeyCode {
    Char(char),
    Esc,
    Enter,
    Backspace,
    Left,
    Right,
    Other,
}

/// A key press, with whether Control was held.
#[derive(Clone, Copy, Debug, PartialEq, Eq, Structural)]
pub struct KeyPress {
    pub code: KeyCode,
    pub ctrl: bool,
}

/// The mouse actions the application tells apart.
#[derive(Clone, Copy, Debug, PartialEq, Eq, Structural)]
pub enum MouseAction {
    Moved,
    LeftDown,
    Other,
}

/// The event for a key while typing a filter.
pub open spec fn filter_key_event(key: KeyPress) -> InputEvent {
    match key.code {
        KeyCode::Esc => InputEvent::ExitFilterMode,
        KeyCode::Enter => InputEvent::ApplyFilter,
        KeyCode::Char(c) => InputEvent::CharInput(c),
        KeyCode::Backspace => InputEvent::CharInput('\x08'),
        _ => InputEvent::NoOp,
    }
}

/// The event for a key in normal use.
pub open spec fn command_key_event(key: KeyPress) -> InputEvent {
    match key.code {
        KeyCode::Esc => InputEvent::Quit,
        KeyCode::Left => InputEvent::SeekBackward,
        KeyCode::Right => InputEvent::SeekForward,
        KeyCode::Char(c) => if c == 'q' || (c == 'c' && key.ctrl) {
            InputEvent::Quit
        } else if c == ' ' {
            InputEvent::TogglePause
        } else if c == '+' || c == '=' {
            InputEvent::SpeedUp
        } else if c == '-' || c == '_' {
            InputEvent::SpeedDown
        } else if c == 'r' {
            InputEvent::ToggleReplay
        } else if c == 'h' {
            InputEvent::ToggleHeatMap
        } else if c == 't' {
            InputEvent::ToggleTrails
        } else if c == 'l' {
            InputEvent::ToggleLandmarks
        } else if c == 'c' {
            InputEvent::ClearHeatMap
        } else if c == 'm' {
            InputEvent::CycleDisplayMode
        } else if c == '1' {
            InputEvent::SetModeMinimal
        } else if c == '2' {
            InputEvent::SetModeStandard
        } else if c == '3' {
            InputEvent::SetModeDebug
        } else if c == '?' {
            InputEvent::ToggleHelp
        } else if c == '/' {
            InputEvent::EnterFilterMode
        } else if c == '0' {
            InputEvent::ClearFilter
        } else {
            InputEvent::NoOp
        },
        _ => InputEvent::NoOp,
    }
}

/// Turns key and mouse actions into input events, given whether the help
/// panel is open and whether a filter is being typed.
pub struct InputHandler {
    help_visible: bool,
    filter_mode: bool,
}

impl InputHandler {
    pub closed spec fn help(&self) -> bool {
        self.help_visible
    }

    pub closed spec fn filtering(&self) -> bool {
        self.filter_mode
    }

    /// Help closed, no filter being typed.
    pub fn new() -> (r: Self)
        ensures
            !r.help(),
            !r.filtering(),
    {
        InputHandler { help_visible: false, filter_mode: false }
    }

    pub fn set_help_visible(&mut self, visible: bool)
        ensures
            final(self).help() == visible,
            final(self).filtering() == old(self).filtering(),
    {
        self.help_visible = visible;
    }

    pub fn set_filter_mode(&mut self, active: bool)
        ensures
            final(self).filtering() == active,
            final(self).help() == old(self).help(),
    {
        self.filter_mode = active;
    }

    pub fn is_filter_mode(&self) -> (r: bool)
        ensures
            r == self.filtering(),
    {
        self.filter_mode
    }

    /// The event for a key: any key closes an open help panel; while a
    /// filter is typed, keys edit it; otherwise keys are commands.
    pub fn handle_key(&self, key: KeyPress) -> (r: InputEvent)
        ensures
            r == if self.help() {
                InputEvent::CloseHelp
            } else if self.filtering() {
                filter_key_event(key)
            } else {
                command_key_event(key)
            },
    {
        if self.help_visible {
            return InputEvent::CloseHelp;
        }
        if self.filter_mode {
            return match key.code {
                KeyCode::Esc => InputEvent::ExitFilterMode,
                KeyCode::Enter => InputEvent::ApplyFilter,
                KeyCode::Char(c) => InputEvent::CharInput(c),
                KeyCode::Backspace => InputEvent::CharInput('\x08'),
                _ => InputEvent::NoOp,
            };
        }
        match key.code {
            KeyCode::Esc => InputEvent::Quit,
            KeyCode::Left => InputEvent::SeekBackward,
            KeyCode::Right => InputEvent::SeekForward,
            KeyCode::Char(c) => {
                if c == 'q' || (c == 'c' && key.ctrl) {
                    InputEvent::Quit
                } else if c == ' ' {
                    InputEvent::TogglePause
                } else if c == '+' || c == '=' {
                    InputEvent::SpeedUp
                } else if c == '-' || c == '_' {
                    InputEvent::SpeedDown
                } else if c == 'r' {
                    InputEvent::ToggleReplay
                } else if c == 'h' {
                    InputEvent::ToggleHeatMap
                } else if c == 't' {
                    InputEvent::ToggleTrails
                } else if c == 'l' {
                    InputEvent::ToggleLandmarks
                } else if c == 'c' {
                    InputEvent::ClearHeatMap
                } else if c == 'm' {
                    InputEvent::CycleDisplayMode
                } else if c == '1' {
                    InputEvent::SetModeMinimal
                } else if c == '2' {
                    InputEvent::SetModeStandard
                } else if c == '3' {
                    InputEvent::SetModeDebug
                } else if c == '?' {
                    InputEvent::ToggleHelp
                } else if c == '/' {
                    InputEvent::EnterFilterMode
                } else if c == '0' {
                    InputEvent::ClearFilter
                } else {
                    InputEvent::NoOp
                }
            },
            _ => InputEvent::NoOp,
        }
    }

    /// Hovering and left clicks at a cell; other mouse actions do nothing.
    pub fn handle_mouse(&self, action: MouseAction, column: u16, row: u16) -> (r: InputEvent)
        ensures
            r == match action {
                MouseAction::Moved => InputEvent::MouseHover { x: column, y: row },
                MouseAction::LeftDown => InputEvent::MouseClick { x: column, y: row },
                MouseAction::Other => InputEvent::NoOp,
            },
    {
        match action {
            MouseAction::Moved => InputEvent::MouseHover { x: column, y: row },
            MouseAction::LeftDown => InputEvent::MouseClick { x: column, y: row },
            MouseAction::Other => InputEvent::NoOp,
        }
    }
}

impl Default for InputHandler {
    fn default() -> (r: Self)
        ensures
            !r.help(),
            !r.filtering(),
    {
        Self::new()
    }
}

} // verus!
