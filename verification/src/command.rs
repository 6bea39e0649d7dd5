//! What the library asks of the platform adapter.
//!
//! The adapter owns the native window and the engine inside it. The library
//! never calls it: an operation that needs it returns a [`Command`], which
//! the host hands to the adapter, and where the adapter reports a status the
//! host hands that back through [`Command::outcome`].

use vstd::prelude::*;
use crate::color::Color;
use crate::error::{outcome_view, Error, ErrorView, WVResult};
use crate::native::NativeString;

verus! {

/// Everything the adapter needs to create a window and its engine.
#[derive(Debug, PartialEq, Eq)]
pub struct WindowSpec {
    pub title: NativeString,
    pub url: NativeString,
    pub width: i32,
    pub height: i32,
    pub resizable: bool,
    /// Whether the engine's debugging aids are on; `None` leaves it to the
    /// host's build profile.
    pub debug: Option<bool>,
    pub frameless: bool,
    pub visible: bool,
    pub min_width: i32,
    pub min_height: i32,
}

/// One request to the adapter of an existing window.
#[derive(Debug, PartialEq, Eq)]
pub enum Command {
    /// Evaluate the script in the page.
    Eval(NativeString),
    /// Evaluate the script, which adds a style sheet to the page.
    InjectCss(NativeString),
    /// Set the window's title.
    SetTitle(NativeString),
    /// Replace the page by the given HTML.
    SetHtml(NativeString),
    /// Set the window's background color.
    SetColor(Color),
    /// Enter or leave fullscreen.
    SetFullscreen(bool),
    /// Maximize the window or restore it.
    SetMaximized(bool),
    /// Minimize the window or restore it.
    SetMinimized(bool),
    /// Show or hide the window.
    SetVisible(bool),
    /// Ask the event loop to end; the next pump iteration reports it.
    Exit,
    /// Destroy the window and the engine and free what the adapter holds.
    Destroy,
}

/// The mathematical value of a [`Command`].
pub ghost enum CommandView {
    Eval(Seq<u8>),
    InjectCss(Seq<u8>),
    SetTitle(Seq<u8>),
    SetHtml(Seq<u8>),
    SetColor(Color),
    SetFullscreen(bool),
    SetMaximized(bool),
    SetMinimized(bool),
    SetVisible(bool),
    Exit,
    Destroy,
}

impl View for Command {
    type V = CommandView;

    open spec fn view(&self) -> CommandView {
        match self {
            Command::Eval(script) => CommandView::Eval(script@),
            Command::InjectCss(script) => CommandView::InjectCss(script@),
            Command::SetTitle(title) => CommandView::SetTitle(title@),
            Command::SetHtml(html) => CommandView::SetHtml(html@),
            Command::SetColor(color) => CommandView::SetColor(*color),
            Command::SetFullscreen(on) => CommandView::SetFullscreen(*on),
            Command::SetMaximized(on) => CommandView::SetMaximized(*on),
            Command::SetMinimized(on) => CommandView::SetMinimized(*on),
            Command::SetVisible(on) => CommandView::SetVisible(*on),
            Command::Exit => CommandView::Exit,
            Command::Destroy => CommandView::Destroy,
        }
    }
}

impl CommandView {
    /// What the caller of the operation is told once the adapter has
    /// carried the command out and reported `status`. Only the two commands
    /// that evaluate a script can fail, each with its own error, and they
    /// fail exactly when the status is not zero.
    pub open spec fn outcome(self, status: int) -> Result<(), ErrorView> {
        match self {
            CommandView::Eval(_) => if status != 0 {
                Err(ErrorView::JsEvaluation)
            } else {
                Ok(())
            },
            CommandView::InjectCss(_) => if status != 0 {
                Err(ErrorView::CssInjection)
            } else {
                Ok(())
            },
            _ => Ok(()),
        }
    }
}

impl Command {
    /// Turns the status that the adapter reported for this command into the
    /// result of the operation that issued it.
    pub fn outcome(&self, status: i32) -> (r: WVResult)
        ensures
            outcome_view(r) == self@.outcome(status as int),
    {
        match self {
            Command::Eval(_) => if status != 0 {
                Err(Error::JsEvaluation)
            } else {
                Ok(())
            },
            Command::InjectCss(_) => if status != 0 {
                Err(Error::CssInjection)
            } else {
                Ok(())
            },
            _ => Ok(()),
        }
    }
}

} // verus!
