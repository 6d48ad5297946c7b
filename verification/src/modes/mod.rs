//! The editor's modes and the dispatcher that routes events to the active
//! one.

use vstd::prelude::*;
use crate::actions::{lemma_operation_keeps_cursor_on_screen, operation_mode, operation_view};
use crate::draw::{
    bytes_mode_frame, change_frame, frame, help_frame, prompt_frame, status_text, DrawCommand,
    DrawCommandView,
};
use crate::event::{Event, KeyEvent, MouseEvent};
use crate::keyboard::{Keyboard, Operation};
use crate::state::{Parameters, TermState, TermStateView};

pub mod bytes;
pub mod change;
pub mod goto;
pub mod help;
pub mod search;

pub use bytes::{BytesMode, BytesScreens};
pub use change::ChangeMode;
pub use goto::GoToMode;
pub use help::HelpMode;
pub use search::SearchMode;

use bytes::{bound_operation, bytes_key_handled, bytes_resized, mouse_view};
use change::change_key_handled;
use goto::goto_key_handled;
use search::search_key_handled;

verus! {

/// The mode that handles input. `Quit` is terminal: once a handler returns
/// it the session is over.
#[derive(Clone, Copy, Debug, PartialEq, Eq, Structural)]
pub enum Modes {
    Bytes,
    Help,
    Change,
    GoTo,
    Search,
    Quit,
}

/// What the host of the editor is to do after an event.
#[derive(Clone, Copy, Debug, PartialEq, Eq, Structural)]
pub enum Directive {
    /// Draw the active mode.
    Render,
    /// Draw nothing: the terminal is too narrow for the grid.
    Skip,
    /// Write the compacted buffer to the file, report the outcome with the
    /// save operation, and draw the active mode.
    Save,
    /// End the session.
    Quit,
}

/// What every mode offers: a handler for each kind of event, which gives the
/// mode to go on in, and a screen.
pub trait Mode {
    /// What the mode asks of itself and of the state before an event.
    spec fn ready(&self, state: &TermState, parameters: &Parameters) -> bool;

    /// What the mode asks of the state before it draws.
    spec fn drawable(&self, state: &TermState) -> bool;

    /// What a key does.
    spec fn key_handled(
        pre: &Self,
        post: &Self,
        event: KeyEvent,
        before: TermStateView,
        after: TermStateView,
        byte_size: u16,
        next: Modes,
    ) -> bool;

    /// What the mouse does.
    spec fn mouse_handled(
        pre: &Self,
        post: &Self,
        event: MouseEvent,
        before: TermStateView,
        after: TermStateView,
        next: Modes,
    ) -> bool;

    /// What a resize to `width` columns and `height` rows does.
    spec fn resize_handled(
        pre: &Self,
        post: &Self,
        width: u16,
        height: u16,
        before: TermStateView,
        after: TermStateView,
        next: Modes,
    ) -> bool;

    /// What the mode draws.
    spec fn screen(&self, v: TermStateView) -> Seq<DrawCommandView>;

    /// Handles a key.
    fn handle_input(&mut self, event: &KeyEvent, state: &mut TermState, parameters: &Parameters) -> (next:
        Modes)
        requires
            old(self).ready(old(state), parameters),
        ensures
            final(self).ready(final(state), parameters),
            Self::key_handled(
                old(self),
                final(self),
                *event,
                old(state)@,
                final(state)@,
                parameters.byte_size,
                next,
            ),
    ;

    /// Handles a mouse event.
    fn handle_mouse(&mut self, event: &MouseEvent, state: &mut TermState, parameters: &Parameters) -> (next:
        Modes)
        requires
            old(self).ready(old(state), parameters),
        ensures
            final(self).ready(final(state), parameters),
            Self::mouse_handled(old(self), final(self), *event, old(state)@, final(state)@, next),
    ;

    /// Handles a resize of the terminal.
    fn handle_resize(
        &mut self,
        width: u16,
        height: u16,
        state: &mut TermState,
        parameters: &Parameters,
    ) -> (next: Modes)
        requires
            old(self).ready(old(state), parameters),
        ensures
            final(self).ready(final(state), parameters),
            Self::resize_handled(
                old(self),
                final(self),
                width,
                height,
                old(state)@,
                final(state)@,
                next,
            ),
    ;

    /// Draws the mode.
    fn draw(&self, state: &TermState) -> (commands: Vec<DrawCommand>)
        requires
            self.drawable(state),
        ensures
            frame(commands@) == self.screen(state@),
    ;
}

impl Mode for SearchMode {
    open spec fn ready(&self, state: &TermState, parameters: &Parameters) -> bool {
        self.wf() && state.wf(parameters)
    }

    open spec fn drawable(&self, state: &TermState) -> bool {
        true
    }

    open spec fn key_handled(
        pre: &Self,
        post: &Self,
        event: KeyEvent,
        before: TermStateView,
        after: TermStateView,
        byte_size: u16,
        next: Modes,
    ) -> bool {
        search_key_handled(*pre, *post, event.code, before, after, next)
    }

    open spec fn mouse_handled(
        pre: &Self,
        post: &Self,
        event: MouseEvent,
        before: TermStateView,
        after: TermStateView,
        next: Modes,
    ) -> bool {
        post == pre && after == before && next == Modes::Search
    }

    open spec fn resize_handled(
        pre: &Self,
        post: &Self,
        width: u16,
        height: u16,
        before: TermStateView,
        after: TermStateView,
        next: Modes,
    ) -> bool {
        post == pre && after == before && next == Modes::Search
    }

    open spec fn screen(&self, v: TermStateView) -> Seq<DrawCommandView> {
        prompt_frame("Search for: "@, self.input@, self.cursor, self.draw_error, v)
    }

    fn handle_input(&mut self, event: &KeyEvent, state: &mut TermState, parameters: &Parameters) -> (next:
        Modes) {
        SearchMode::handle_input(self, event, state, parameters)
    }

    fn handle_mouse(&mut self, event: &MouseEvent, state: &mut TermState, parameters: &Parameters) -> (next:
        Modes) {
        SearchMode::handle_mouse(self, event, state, parameters)
    }

    fn handle_resize(
        &mut self,
        width: u16,
        height: u16,
        state: &mut TermState,
        parameters: &Parameters,
    ) -> (next: Modes) {
        SearchMode::handle_resize(self, width, height, state, parameters)
    }

    fn draw(&self, state: &TermState) -> (commands: Vec<DrawCommand>) {
        SearchMode::draw(self, state)
    }
}

impl<'a> Mode for BytesMode<'a> {
    open spec fn ready(&self, state: &TermState, parameters: &Parameters) -> bool {
        state.wf(parameters)
    }

    open spec fn drawable(&self, state: &TermState) -> bool {
        state.wf(self.parameters)
    }

    open spec fn key_handled(
        pre: &Self,
        post: &Self,
        event: KeyEvent,
        before: TermStateView,
        after: TermStateView,
        byte_size: u16,
        next: Modes,
    ) -> bool {
        bytes_key_handled(*pre, *post, event, before, after, byte_size, next)
    }

    open spec fn mouse_handled(
        pre: &Self,
        post: &Self,
        event: MouseEvent,
        before: TermStateView,
        after: TermStateView,
        next: Modes,
    ) -> bool {
        post == pre && after == mouse_view(before, event) && next == Modes::Bytes
    }

    open spec fn resize_handled(
        pre: &Self,
        post: &Self,
        width: u16,
        height: u16,
        before: TermStateView,
        after: TermStateView,
        next: Modes,
    ) -> bool {
        bytes_resized(*pre, *post, width, height, before, after) && next == Modes::Bytes
    }

    open spec fn screen(&self, v: TermStateView) -> Seq<DrawCommandView> {
        bytes_mode_frame(
            v,
            self.parameters.byte_size,
            self.to_draw,
            self.offsets,
            status_text(v, self.parameters.file_path@, self.keyboard),
        )
    }

    fn handle_input(&mut self, event: &KeyEvent, state: &mut TermState, parameters: &Parameters) -> (next:
        Modes) {
        BytesMode::handle_input(self, event, state, parameters)
    }

    fn handle_mouse(&mut self, event: &MouseEvent, state: &mut TermState, parameters: &Parameters) -> (next:
        Modes) {
        BytesMode::handle_mouse(self, event, state, parameters)
    }

    fn handle_resize(
        &mut self,
        width: u16,
        height: u16,
        state: &mut TermState,
        parameters: &Parameters,
    ) -> (next: Modes) {
        BytesMode::handle_resize(self, width, height, state, parameters)
    }

    fn draw(&self, state: &TermState) -> (commands: Vec<DrawCommand>) {
        BytesMode::draw(self, state)
    }
}

impl<'a> Mode for HelpMode<'a> {
    open spec fn ready(&self, state: &TermState, parameters: &Parameters) -> bool {
        true
    }

    open spec fn drawable(&self, state: &TermState) -> bool {
        true
    }

    open spec fn key_handled(
        pre: &Self,
        post: &Self,
        event: KeyEvent,
        before: TermStateView,
        after: TermStateView,
        byte_size: u16,
        next: Modes,
    ) -> bool {
        post == pre && after == before && next == Modes::Bytes
    }

    open spec fn mouse_handled(
        pre: &Self,
        post: &Self,
        event: MouseEvent,
        before: TermStateView,
        after: TermStateView,
        next: Modes,
    ) -> bool {
        post == pre && after == before && next == Modes::Help
    }

    open spec fn resize_handled(
        pre: &Self,
        post: &Self,
        width: u16,
        height: u16,
        before: TermStateView,
        after: TermStateView,
        next: Modes,
    ) -> bool {
        post == pre && after == before && next == Modes::Help
    }

    open spec fn screen(&self, v: TermStateView) -> Seq<DrawCommandView> {
        help_frame(self.padding, self.keyboard@.legend)
    }

    fn handle_input(&mut self, event: &KeyEvent, state: &mut TermState, parameters: &Parameters) -> (next:
        Modes) {
        HelpMode::handle_input(self, event, state, parameters)
    }

    fn handle_mouse(&mut self, event: &MouseEvent, state: &mut TermState, parameters: &Parameters) -> (next:
        Modes) {
        HelpMode::handle_mouse(self, event, state, parameters)
    }

    fn handle_resize(
        &mut self,
        width: u16,
        height: u16,
        state: &mut TermState,
        parameters: &Parameters,
    ) -> (next: Modes) {
        HelpMode::handle_resize(self, width, height, state, parameters)
    }

    fn draw(&self, state: &TermState) -> (commands: Vec<DrawCommand>) {
        HelpMode::draw(self, state)
    }
}

impl<'a> Mode for ChangeMode<'a> {
    open spec fn ready(&self, state: &TermState, parameters: &Parameters) -> bool {
        self.wf()
    }

    open spec fn drawable(&self, state: &TermState) -> bool {
        true
    }

    open spec fn key_handled(
        pre: &Self,
        post: &Self,
        event: KeyEvent,
        before: TermStateView,
        after: TermStateView,
        byte_size: u16,
        next: Modes,
    ) -> bool {
        change_key_handled(*pre, *post, event.code, before, after, next)
    }

    open spec fn mouse_handled(
        pre: &Self,
        post: &Self,
        event: MouseEvent,
        before: TermStateView,
        after: TermStateView,
        next: Modes,
    ) -> bool {
        post == pre && after == before && next == Modes::Change
    }

    open spec fn resize_handled(
        pre: &Self,
        post: &Self,
        width: u16,
        height: u16,
        before: TermStateView,
        after: TermStateView,
        next: Modes,
    ) -> bool {
        post == pre && after == before && next == Modes::Change
    }

    open spec fn screen(&self, v: TermStateView) -> Seq<DrawCommandView> {
        change_frame(self.input@, v)
    }

    fn handle_input(&mut self, event: &KeyEvent, state: &mut TermState, parameters: &Parameters) -> (next:
        Modes) {
        ChangeMode::handle_input(self, event, state, parameters)
    }

    fn handle_mouse(&mut self, event: &MouseEvent, state: &mut TermState, parameters: &Parameters) -> (next:
        Modes) {
        ChangeMode::handle_mouse(self, event, state, parameters)
    }

    fn handle_resize(
        &mut self,
        width: u16,
        height: u16,
        state: &mut TermState,
        parameters: &Parameters,
    ) -> (next: Modes) {
        ChangeMode::handle_resize(self, width, height, state, parameters)
    }

    fn draw(&self, state: &TermState) -> (commands: Vec<DrawCommand>) {
        ChangeMode::draw(self, state)
    }
}

impl Mode for GoToMode {
    open spec fn ready(&self, state: &TermState, parameters: &Parameters) -> bool {
        self.wf() && state.wf(parameters)
    }

    open spec fn drawable(&self, state: &TermState) -> bool {
        true
    }

    open spec fn key_handled(
        pre: &Self,
        post: &Self,
        event: KeyEvent,
        before: TermStateView,
        after: TermStateView,
        byte_size: u16,
        next: Modes,
    ) -> bool {
        goto_key_handled(*pre, *post, event.code, before, after, byte_size, next)
    }

    open spec fn mouse_handled(
        pre: &Self,
        post: &Self,
        event: MouseEvent,
        before: TermStateView,
        after: TermStateView,
        next: Modes,
    ) -> bool {
        post == pre && after == before && next == Modes::GoTo
    }

    open spec fn resize_handled(
        pre: &Self,
        post: &Self,
        width: u16,
        height: u16,
        before: TermStateView,
        after: TermStateView,
        next: Modes,
    ) -> bool {
        post == pre && after == before && next == Modes::GoTo
    }

    open spec fn screen(&self, v: TermStateView) -> Seq<DrawCommandView> {
        prompt_frame("Go to offset: 0x"@, self.input@, self.cursor, self.draw_error, v)
    }

    fn handle_input(&mut self, event: &KeyEvent, state: &mut TermState, parameters: &Parameters) -> (next:
        Modes) {
        GoToMode::handle_input(self, event, state, parameters)
    }

    fn handle_mouse(&mut self, event: &MouseEvent, state: &mut TermState, parameters: &Parameters) -> (next:
        Modes) {
        GoToMode::handle_mouse(self, event, state, parameters)
    }

    fn handle_resize(
        &mut self,
        width: u16,
        height: u16,
        state: &mut TermState,
        parameters: &Parameters,
    ) -> (next: Modes) {
        GoToMode::handle_resize(self, width, height, state, parameters)
    }

    fn draw(&self, state: &TermState) -> (commands: Vec<DrawCommand>) {
        GoToMode::draw(self, state)
    }
}

/// The five modes and which of them is active.
pub struct Editor<'a> {
    pub bytes: BytesMode<'a>,
    pub help: HelpMode<'a>,
    pub change: ChangeMode<'a>,
    pub goto: GoToMode,
    pub search: SearchMode,
    pub active: Modes,
}

/// Whether the event is a key that the bindings give the save operation,
/// pressed in Bytes mode.
pub open spec fn asks_to_save(pre: Editor, event: Event) -> bool {
    &&& pre.active == Modes::Bytes
    &&& event matches Event::Key(key)
    &&& bound_operation(pre.bytes.keyboard, key) == Some(Operation::Save)
}

/// What the host is to do after an event that left the editor as `post`.
/// Drawing is skipped after a key or the mouse while Bytes mode has no room
/// for the grid; a resize is always drawn.
pub open spec fn directive_after(pre: Editor, post: Editor, event: Event) -> Directive {
    if post.active == Modes::Quit {
        Directive::Quit
    } else if asks_to_save(pre, event) {
        Directive::Save
    } else if !(event is Resize) && post.active == Modes::Bytes && post.bytes.to_draw
        == BytesScreens::TooSmall {
        Directive::Skip
    } else {
        Directive::Render
    }
}

/// What an event does: the active mode handles it, the mode it returns is
/// the active mode from then on, and the other modes are left alone. After
/// the session has ended nothing changes any more.
pub open spec fn event_handled(
    pre: Editor,
    post: Editor,
    event: Event,
    before: TermStateView,
    after: TermStateView,
    byte_size: u16,
) -> bool {
    match pre.active {
        Modes::Bytes => {
            &&& post.help == pre.help
            &&& post.change == pre.change
            &&& post.goto == pre.goto
            &&& post.search == pre.search
            &&& match event {
                Event::Key(key) => {
                    &&& post.bytes == pre.bytes
                    &&& match bound_operation(pre.bytes.keyboard, key) {
                        Some(operation) => after == operation_view(before, operation, byte_size)
                            && post.active == operation_mode(before, operation),
                        None => after == before && post.active == Modes::Bytes,
                    }
                },
                Event::Mouse(mouse) => {
                    &&& post.bytes == pre.bytes
                    &&& after == mouse_view(before, mouse)
                    &&& post.active == Modes::Bytes
                },
                Event::Resize(width, height) => {
                    &&& bytes_resized(pre.bytes, post.bytes, width, height, before, after)
                    &&& post.active == Modes::Bytes
                },
            }
        },
        Modes::Help => {
            &&& post.bytes == pre.bytes
            &&& post.help == pre.help
            &&& post.change == pre.change
            &&& post.goto == pre.goto
            &&& post.search == pre.search
            &&& after == before
            &&& post.active == (if event is Key {
                Modes::Bytes
            } else {
                Modes::Help
            })
        },
        Modes::Change => {
            &&& post.bytes == pre.bytes
            &&& post.help == pre.help
            &&& post.goto == pre.goto
            &&& post.search == pre.search
            &&& match event {
                Event::Key(key) => change_key_handled(
                    pre.change,
                    post.change,
                    key.code,
                    before,
                    after,
                    post.active,
                ),
                _ => post.change == pre.change && after == before && post.active == Modes::Change,
            }
        },
        Modes::GoTo => {
            &&& post.bytes == pre.bytes
            &&& post.help == pre.help
            &&& post.change == pre.change
            &&& post.search == pre.search
            &&& match event {
                Event::Key(key) => goto_key_handled(
                    pre.goto,
                    post.goto,
                    key.code,
                    before,
                    after,
                    byte_size,
                    post.active,
                ),
                _ => post.goto == pre.goto && after == before && post.active == Modes::GoTo,
            }
        },
        Modes::Search => {
            &&& post.bytes == pre.bytes
            &&& post.help == pre.help
            &&& post.change == pre.change
            &&& post.goto == pre.goto
            &&& match event {
                Event::Key(key) => search_key_handled(
                    pre.search,
                    post.search,
                    key.code,
                    before,
                    after,
                    post.active,
                ),
                _ => post.search == pre.search && after == before && post.active == Modes::Search,
            }
        },
        Modes::Quit => post == pre && after == before,
    }
}

impl<'a> Editor<'a> {
    /// The inputs of the modes are well-formed and no save is waiting.
    pub open spec fn wf(&self) -> bool {
        &&& self.change.wf()
        &&& self.goto.wf()
        &&& self.search.wf()
        &&& !self.bytes.save_requested
    }

    /// An editor in Bytes mode, for a file of `file_size` bytes.
    pub fn new(keyboard: &'a Keyboard, parameters: &'a Parameters, padding: u16, file_size: usize) -> (editor:
        Editor<'a>)
        requires
            parameters.byte_size >= 1,
        ensures
            editor.wf(),
            editor.active == Modes::Bytes,
            editor.bytes.keyboard == keyboard,
            editor.bytes.parameters == parameters,
            editor.bytes.to_draw == BytesScreens::Bytes,
            editor.help.keyboard == keyboard,
            editor.help.padding == padding,
            editor.change.parameters == parameters,
    {
        Editor {
            bytes: BytesMode::new(keyboard, parameters, file_size),
            help: HelpMode::new(padding, keyboard),
            change: ChangeMode::new(parameters),
            goto: GoToMode::new(),
            search: SearchMode::new(),
            active: Modes::Bytes,
        }
    }

    /// Hands an event to the active mode, makes the mode that it returns
    /// the active one, and says what the host is to do next.
    pub fn handle_event(&mut self, event: &Event, state: &mut TermState, parameters: &Parameters) -> (directive:
        Directive)
        requires
            old(self).wf(),
            old(state).wf(parameters),
        ensures
            final(self).wf(),
            final(state).wf(parameters),
            event_handled(
                *old(self),
                *final(self),
                *event,
                old(state)@,
                final(state)@,
                parameters.byte_size,
            ),
            directive == directive_after(*old(self), *final(self), *event),
    {
        let new_mode = match self.active {
            Modes::Bytes => match event {
                Event::Key(key) => self.bytes.handle_input(key, state, parameters),
                Event::Mouse(mouse) => self.bytes.handle_mouse(mouse, state, parameters),
                Event::Resize(width, height) => self.bytes.handle_resize(
                    *width,
                    *height,
                    state,
                    parameters,
                ),
            },
            Modes::Help => match event {
                Event::Key(key) => self.help.handle_input(key, state, parameters),
                Event::Mouse(mouse) => self.help.handle_mouse(mouse, state, parameters),
                Event::Resize(width, height) => self.help.handle_resize(
                    *width,
                    *height,
                    state,
                    parameters,
                ),
            },
            Modes::Change => match event {
                Event::Key(key) => self.change.handle_input(key, state, parameters),
                Event::Mouse(mouse) => self.change.handle_mouse(mouse, state, parameters),
                Event::Resize(width, height) => self.change.handle_resize(
                    *width,
                    *height,
                    state,
                    parameters,
                ),
            },
            Modes::GoTo => match event {
                Event::Key(key) => self.goto.handle_input(key, state, parameters),
                Event::Mouse(mouse) => self.goto.handle_mouse(mouse, state, parameters),
                Event::Resize(width, height) => self.goto.handle_resize(
                    *width,
                    *height,
                    state,
                    parameters,
                ),
            },
            Modes::Search => match event {
                Event::Key(key) => self.search.handle_input(key, state, parameters),
                Event::Mouse(mouse) => self.search.handle_mouse(mouse, state, parameters),
                Event::Resize(width, height) => self.search.handle_resize(
                    *width,
                    *height,
                    state,
                    parameters,
                ),
            },
            Modes::Quit => return Directive::Quit,
        };
        let save = self.bytes.take_save_request();
        if new_mode != self.active {
            self.active = new_mode;
        }
        if new_mode == Modes::Quit {
            return Directive::Quit;
        }
        if save {
            return Directive::Save;
        }
        let resized = match event {
            Event::Resize(_, _) => true,
            _ => false,
        };
        if !resized && new_mode == Modes::Bytes && self.bytes.skip_rendering() {
            return Directive::Skip;
        }
        Directive::Render
    }
}

/// No event takes the cursor off the screen, where the screen is wide
/// enough for the bytes region.
pub proof fn lemma_event_keeps_cursor_on_screen(
    pre: Editor,
    post: Editor,
    event: Event,
    before: TermStateView,
    after: TermStateView,
    byte_size: u16,
)
    requires
        event_handled(pre, post, event, before, after, byte_size),
        before.wf(byte_size),
        before.cursor_on_screen(),
        before.dimensions.bytes.1 <= before.term_width,
    ensures
        after.cursor_on_screen(),
{
    if pre.active == Modes::Bytes {
        match event {
            Event::Key(key) => match bound_operation(pre.bytes.keyboard, key) {
                Some(operation) => lemma_operation_keeps_cursor_on_screen(
                    before,
                    operation,
                    byte_size,
                ),
                None => {},
            },
            _ => {},
        }
    }
}

/// Once the session has ended it stays ended, and every event is answered
/// with the directive to quit.
pub proof fn lemma_quit_is_terminal(
    pre: Editor,
    post: Editor,
    event: Event,
    before: TermStateView,
    after: TermStateView,
    byte_size: u16,
)
    requires
        pre.active == Modes::Quit,
        event_handled(pre, post, event, before, after, byte_size),
    ensures
        post.active == Modes::Quit,
        after == before,
        directive_after(pre, post, event) == Directive::Quit,
{
}

} // verus!
