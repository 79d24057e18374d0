use vstd::prelude::*;
use crate::error::Error;
use crate::event::Key;

verus! {

/// Text emphasis for a status-line entry.
#[derive(Clone, Copy, PartialEq, Eq, Structural)]
pub enum Style {
    Regular,
    Bold,
}

/// Colour pairing for a status-line entry.
#[derive(Clone, Copy, PartialEq, Eq, Structural)]
pub enum Colors {
    Standard,
    Warning,
}

/// One entry of the status line.
pub struct StatusLineData {
    pub content: String,
    pub style: Style,
    pub colors: Colors,
}

/// A handle on the terminal backend the rendering surface draws through.
/// Driving the terminal at the cell level is the backend's own affair;
/// the core only holds the handle and passes it to the surface.
pub struct Terminal {}

/// The rendering surface, as the core sees it: the most recent key (kept
/// for key-hint display) and the error entry currently occupying the
/// status line, if any. Drawing a mode's visual state onto the terminal
/// is the presenters' work; what the core decides — and what this record
/// therefore carries — is which error, if any, the status line shows.
pub struct Surface {
    pub terminal: Terminal,
    pub last_key: Option<Key>,
    pub error_display: Option<StatusLineData>,
}

impl Surface {
    /// A fresh surface over the given backend: no key seen, nothing on
    /// the status line.
    pub fn new(terminal: Terminal) -> (r: Surface)
        ensures
            r.terminal == terminal,
            r.last_key is None,
            r.error_display is None,
    {
        Surface { terminal, last_key: Option::None, error_display: Option::None }
    }
}

/// Puts an error's description on the status line, emphasised as a
/// warning. The rest of the surface — in particular the recorded last
/// key — is untouched.
pub fn render_error(view: &mut Surface, error: &Error)
    ensures
        final(view).error_display == Option::Some(
            (StatusLineData {
                content: error.message,
                style: Style::Bold,
                colors: Colors::Warning,
            }),
        ),
        final(view).last_key == old(view).last_key,
        final(view).terminal == old(view).terminal,
{
    view.error_display = Option::Some(StatusLineData {
        content: error.message.clone(),
        style: Style::Bold,
        colors: Colors::Warning,
    });
}

} // verus!
