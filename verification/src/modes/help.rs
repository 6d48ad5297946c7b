//! Help mode: shows the legend of the key bindings until a key is pressed.

use vstd::prelude::*;
use crate::event::{KeyEvent, MouseEvent};
use crate::keyboard::Keyboard;
use crate::modes::Modes;
use crate::state::{Parameters, TermState};

verus! {

/// Help mode.
pub struct HelpMode<'a> {
    pub padding: u16,
    pub keyboard: &'a Keyboard,
}

impl<'a> HelpMode<'a> {
    /// Help mode for the bindings of `keyboard`.
    pub fn new(padding: u16, keyboard: &'a Keyboard) -> (mode: HelpMode<'a>)
        ensures
            mode.padding == padding,
            mode.keyboard == keyboard,
    {
        HelpMode { padding, keyboard }
    }

    /// Any key leads back to the bytes.
    pub fn handle_input(
        &mut self,
        event: &KeyEvent,
        state: &mut TermState,
        parameters: &Parameters,
    ) -> (next: Modes)
        ensures
            next == Modes::Bytes,
            *final(self) == *old(self),
            *final(state) == *old(state),
    {
        Modes::Bytes
    }

    /// The mouse does nothing in this mode.
    pub fn handle_mouse(
        &mut self,
        event: &MouseEvent,
        state: &mut TermState,
        parameters: &Parameters,
    ) -> (next: Modes)
        ensures
            next == Modes::Help,
            *final(self) == *old(self),
            *final(state) == *old(state),
    {
        Modes::Help
    }

    /// A resize does nothing in this mode.
    pub fn handle_resize(
        &mut self,
        width: u16,
        height: u16,
        state: &mut TermState,
        parameters: &Parameters,
    ) -> (next: Modes)
        ensures
            next == Modes::Help,
            *final(self) == *old(self),
            *final(state) == *old(state),
    {
        Modes::Help
    }
}

} // verus!
