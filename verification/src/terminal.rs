//! The terminal's types that pass through the controller: key events on
//! their way to a screen, and the area and buffer that a screen draws into.

use vstd::prelude::*;
use crossterm::event::KeyEvent;
use crossterm::event::KeyEventKind;

verus! {

/// `crossterm::event::KeyEventKind`, with its three variants.
#[verifier::external_type_specification]
pub struct ExKeyEventKind(crossterm::event::KeyEventKind);

/// `crossterm::event::KeyCode`. Only the screens look into it.
#[verifier::external_type_specification]
#[verifier::external_body]
pub struct ExKeyCode(crossterm::event::KeyCode);

/// `crossterm::event::KeyModifiers`. Only the screens look into it.
#[verifier::external_type_specification]
#[verifier::external_body]
pub struct ExKeyModifiers(crossterm::event::KeyModifiers);

/// `crossterm::event::KeyEventState`. Only the screens look into it.
#[verifier::external_type_specification]
#[verifier::external_body]
pub struct ExKeyEventState(crossterm::event::KeyEventState);

/// `crossterm::event::KeyEvent`, with its four public fields. The
/// controller reads `kind` and hands the event on as it is.
#[verifier::external_type_specification]
pub struct ExKeyEvent(crossterm::event::KeyEvent);

/// `ratatui::layout::Rect`. The controller hands it on as it is.
#[verifier::external_type_specification]
#[verifier::external_body]
pub struct ExRect(ratatui::layout::Rect);

/// `ratatui::buffer::Buffer`. The controller hands it on as it is.
#[verifier::external_type_specification]
#[verifier::external_body]
pub struct ExBuffer(ratatui::buffer::Buffer);

/// Whether the event reports that a key went down. A terminal may report
/// repeats and releases of the same keystroke as events of their own.
pub open spec fn is_press(key: KeyEvent) -> bool {
    key.kind == KeyEventKind::Press
}

/// Tells presses from repeats and releases.
pub fn pressed(key: &KeyEvent) -> (r: bool)
    ensures
        r == is_press(*key),
{
    match key.kind {
        KeyEventKind::Press => true,
        KeyEventKind::Repeat => false,
        KeyEventKind::Release => false,
    }
}

} // verus!
