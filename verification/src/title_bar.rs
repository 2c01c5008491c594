//! The settings window's own title bar: dragging, double-click to maximise, and the three
//! window buttons.

use vstd::prelude::*;

verus! {

/// A command sent to the window.
#[derive(Clone, Copy, Debug, PartialEq, Eq, Structural)]
pub enum WindowCommand {
    Maximized(bool),
    Minimized(bool),
    StartDrag,
    Close,
}

/// A window button.
#[derive(Clone, Copy, Debug, PartialEq, Eq, Structural)]
pub enum WindowAction {
    Minimize,
    Maximize,
    Close,
}

/// On the drag area: a double click toggles maximised, starting a drag moves the window.
pub fn title_drag_command(double_clicked: bool, drag_started: bool, maximized: bool) -> (r: Option<WindowCommand>)
    ensures
        double_clicked ==> r == Some(WindowCommand::Maximized(!maximized)),
        !double_clicked && drag_started ==> r == Some(WindowCommand::StartDrag),
        !double_clicked && !drag_started ==> r is None,
{
    if double_clicked {
        Some(WindowCommand::Maximized(!maximized))
    } else if drag_started {
        Some(WindowCommand::StartDrag)
    } else {
        None
    }
}

/// The command of a clicked window button; maximise toggles.
pub fn window_button_command(action: WindowAction, maximized: bool) -> (r: WindowCommand)
    ensures
        r == match action {
            WindowAction::Minimize => WindowCommand::Minimized(true),
            WindowAction::Maximize => WindowCommand::Maximized(!maximized),
            WindowAction::Close => WindowCommand::Close,
        },
{
    match action {
        WindowAction::Minimize => WindowCommand::Minimized(true),
        WindowAction::Maximize => WindowCommand::Maximized(!maximized),
        WindowAction::Close => WindowCommand::Close,
    }
}

/// The close button turns red with a white glyph while hovered; the others use the selection
/// fill and the text colour.
pub fn alarming_hover(action: WindowAction, hovered: bool) -> (r: bool)
    ensures
        r == (hovered && action == WindowAction::Close),
{
    hovered && match action {
        WindowAction::Close => true,
        _ => false,
    }
}

} // verus!
