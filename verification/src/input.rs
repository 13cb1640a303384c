//! Key handling: which operation a key stands for, and what it does to the
//! navigator.

use vstd::prelude::*;
use crate::navigator::{Navigator, NavigatorView};

verus! {

/// The character that ends the session.
pub const QUIT_KEY: char = 'q';

/// The character that descends, like the right arrow.
pub const DESCEND_KEY: char = 'l';

/// The character that ascends, like the left arrow.
pub const ASCEND_KEY: char = 'h';

/// The character that moves the cursor down, like the down arrow.
pub const DOWN_KEY: char = 'j';

/// The character that moves the cursor up, like the up arrow.
pub const UP_KEY: char = 'k';

/// A key press, as far as the browser tells keys apart.
#[derive(Clone, Copy, Debug, PartialEq, Eq, Structural)]
pub enum Key {
    /// A character key.
    Char(char),
    Left,
    Right,
    Up,
    Down,
    /// Any other key.
    Other,
}

/// What a key press asks for.
#[derive(Clone, Copy, Debug, PartialEq, Eq, Structural)]
pub enum Action {
    /// End the session.
    Quit,
    /// Open the selected directory as a new column.
    Descend,
    /// Close the deepest column.
    Ascend,
    /// Move the cursor one row down.
    MoveDown,
    /// Move the cursor one row up.
    MoveUp,
    /// Nothing: the key has no meaning.
    Ignore,
}

/// The key table: the arrows and their letters navigate, the quit key quits,
/// every other key means nothing.
pub open spec fn action_for(key: Key) -> Action {
    match key {
        Key::Right => Action::Descend,
        Key::Left => Action::Ascend,
        Key::Down => Action::MoveDown,
        Key::Up => Action::MoveUp,
        Key::Char(c) => if c == QUIT_KEY {
            Action::Quit
        } else if c == DESCEND_KEY {
            Action::Descend
        } else if c == ASCEND_KEY {
            Action::Ascend
        } else if c == DOWN_KEY {
            Action::MoveDown
        } else if c == UP_KEY {
            Action::MoveUp
        } else {
            Action::Ignore
        },
        Key::Other => Action::Ignore,
    }
}

/// Looks `key` up in the key table.
pub fn map_key(key: Key) -> (action: Action)
    ensures
        action == action_for(key),
{
    match key {
        Key::Right => Action::Descend,
        Key::Left => Action::Ascend,
        Key::Down => Action::MoveDown,
        Key::Up => Action::MoveUp,
        Key::Char(c) => {
            if c == QUIT_KEY {
                Action::Quit
            } else if c == DESCEND_KEY {
                Action::Descend
            } else if c == ASCEND_KEY {
                Action::Ascend
            } else if c == DOWN_KEY {
                Action::MoveDown
            } else if c == UP_KEY {
                Action::MoveUp
            } else {
                Action::Ignore
            }
        },
        Key::Other => Action::Ignore,
    }
}

/// What the caller has to do after a key was handled.
#[derive(Debug, PartialEq, Eq)]
pub enum Effect {
    /// Leave the event loop.
    Quit,
    /// List the directory at this path and hand the outcome to
    /// [`Navigator::navigate_into`].
    List(String),
    /// Nothing more: go on with the next frame.
    Continue,
}

/// The mathematical value of an [`Effect`].
pub enum EffectView {
    Quit,
    List(Seq<char>),
    Continue,
}

impl View for Effect {
    type V = EffectView;

    open spec fn view(&self) -> EffectView {
        match self {
            Effect::Quit => EffectView::Quit,
            Effect::List(path) => EffectView::List(path@),
            Effect::Continue => EffectView::Continue,
        }
    }
}

impl NavigatorView {
    /// The stack after `action`, with `viewport_rows` entry rows on screen.
    /// Only the ascent and the cursor moves act at once; a descent waits for
    /// the listing, and quitting leaves the stack alone.
    pub open spec fn after(self, action: Action, viewport_rows: nat) -> NavigatorView {
        match action {
            Action::Ascend => self.navigate_back(),
            Action::MoveDown => self.scroll_down(viewport_rows),
            Action::MoveUp => self.scroll_up(),
            _ => self,
        }
    }

    /// What `action` leaves for the caller to do: to quit, or to list the
    /// directory that a descent would open, if there is one.
    pub open spec fn effect_of(self, action: Action) -> EffectView {
        match action {
            Action::Quit => EffectView::Quit,
            Action::Descend => match self.descend_target() {
                Some(path) => EffectView::List(path),
                None => EffectView::Continue,
            },
            _ => EffectView::Continue,
        }
    }
}

/// Handles one key press while `viewport_rows` entry rows fit on screen.
///
/// An ascent or a cursor move is carried out on `navigator`. A descent
/// needs the selected directory's listing first: the effect names the
/// directory, and the stack changes only when the caller hands the listing
/// to [`Navigator::navigate_into`]. Every other key leaves the stack as it
/// is.
pub fn handle_key(navigator: &mut Navigator, key: Key, viewport_rows: usize) -> (effect: Effect)
    requires
        old(navigator).wf(),
    ensures
        final(navigator).wf(),
        final(navigator)@ == old(navigator)@.after(action_for(key), viewport_rows as nat),
        effect@ == old(navigator)@.effect_of(action_for(key)),
{
    match map_key(key) {
        Action::Quit => Effect::Quit,
        Action::Descend => match navigator.descend_target() {
            Some(path) => Effect::List(path),
            None => Effect::Continue,
        },
        Action::Ascend => {
            navigator.navigate_back();
            Effect::Continue
        },
        Action::MoveDown => {
            navigator.scroll_down(viewport_rows);
            Effect::Continue
        },
        Action::MoveUp => {
            navigator.scroll_up();
            Effect::Continue
        },
        Action::Ignore => Effect::Continue,
    }
}

} // verus!
