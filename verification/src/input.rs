//! From input events to grid changes.
//!
//! The caller reads one event from the terminal and hands it over as an
//! `InputEvent`; what the event means for the grid is decided here.

use crate::grid::{Grid, GridView, Operation};
use vstd::prelude::*;

verus! {

/// The character that ends the session.
pub const QUIT_KEY: char = 'q';

/// A key that has a name rather than a character.
#[derive(Clone, Copy, Debug, PartialEq, Eq, Structural)]
pub enum NamedKey {
    Up,
    Down,
    Left,
    Right,
    Home,
    End,
    PageUp,
    PageDown,
    Enter,
    Tab,
    Backspace,
    Delete,
    Escape,
    Other,
}

/// One event from the terminal.
#[derive(Clone, Copy, Debug, PartialEq, Eq, Structural)]
pub enum InputEvent {
    /// A key that types a character.
    Char(char),
    /// A key with a name.
    Named(NamedKey),
    /// The terminal's new size, columns then rows.
    Resize(u16, u16),
    /// Anything the mouse did.
    Mouse,
    /// Any other event.
    Other,
}

/// What an event asks of the grid.
#[derive(Clone, Copy, Debug, PartialEq, Eq, Structural)]
pub enum Command {
    Quit,
    MoveUp,
    MoveDown,
    Ignore,
}

impl Command {
    /// The operation that carries the command out, if it needs one.
    pub open spec fn effect(self) -> Option<Operation> {
        match self {
            Command::Quit => Some(Operation::RequestQuit),
            Command::MoveUp => Some(Operation::MoveUp),
            Command::MoveDown => Some(Operation::MoveDown),
            Command::Ignore => None,
        }
    }
}

/// The command of an event: `QUIT_KEY` quits, the up and down arrows move
/// the cursor, and everything else is ignored.
pub open spec fn command_for(event: InputEvent) -> Command {
    match event {
        InputEvent::Char(c) => if c == QUIT_KEY {
            Command::Quit
        } else {
            Command::Ignore
        },
        InputEvent::Named(NamedKey::Up) => Command::MoveUp,
        InputEvent::Named(NamedKey::Down) => Command::MoveDown,
        _ => Command::Ignore,
    }
}

impl GridView {
    /// The grid after a command.
    pub open spec fn execute(self, command: Command) -> GridView {
        match command.effect() {
            Some(op) => self.after(op),
            None => self,
        }
    }

    /// The grid after an event.
    pub open spec fn apply(self, event: InputEvent) -> GridView {
        self.execute(command_for(event))
    }

    /// The grid after a sequence of events, first to last.
    pub open spec fn apply_all(self, events: Seq<InputEvent>) -> GridView
        decreases events.len(),
    {
        if events.len() == 0 {
            self
        } else {
            self.apply_all(events.drop_last()).apply(events.last())
        }
    }

    /// An event moves nothing but the cursor and the run flag: the cursor
    /// stays on the grid, the steps keep what they hold, and a stopped grid
    /// stays stopped.
    pub proof fn lemma_apply_is_tame(self, event: InputEvent)
        requires
            self.valid(),
        ensures
            self.apply(event).valid(),
            self.apply(event).cells == self.cells,
            !self.running ==> !self.apply(event).running,
    {
    }

    /// However many events arrive, the cursor stays on the grid, the steps
    /// keep what they hold, and a stopped grid stays stopped.
    pub proof fn lemma_apply_all_is_tame(self, events: Seq<InputEvent>)
        requires
            self.valid(),
        ensures
            self.apply_all(events).valid(),
            self.apply_all(events).cells == self.cells,
            !self.running ==> !self.apply_all(events).running,
        decreases events.len(),
    {
        if events.len() > 0 {
            self.lemma_apply_all_is_tame(events.drop_last());
            self.apply_all(events.drop_last()).lemma_apply_is_tame(events.last());
        }
    }

    /// An event that is neither `QUIT_KEY` nor the up or down arrow changes
    /// nothing.
    pub proof fn lemma_other_events_change_nothing(self, event: InputEvent)
        requires
            event != InputEvent::Char(QUIT_KEY),
            event != InputEvent::Named(NamedKey::Up),
            event != InputEvent::Named(NamedKey::Down),
        ensures
            self.apply(event) == self,
    {
    }
}

/// Reads an event as a command.
pub fn interpret(event: InputEvent) -> (command: Command)
    ensures
        command == command_for(event),
{
    match event {
        InputEvent::Char(c) => {
            if c == QUIT_KEY {
                Command::Quit
            } else {
                Command::Ignore
            }
        },
        InputEvent::Named(NamedKey::Up) => Command::MoveUp,
        InputEvent::Named(NamedKey::Down) => Command::MoveDown,
        _ => Command::Ignore,
    }
}

impl Grid {
    /// Carries out a command.
    pub fn execute(&mut self, command: Command)
        ensures
            final(self)@ == old(self)@.execute(command),
            final(self)@.valid(),
    {
        proof {
            use_type_invariant(&*self);
        }
        match command {
            Command::Quit => self.request_quit(),
            Command::MoveUp => self.move_selection_up(),
            Command::MoveDown => self.move_selection_down(),
            Command::Ignore => {},
        }
    }

    /// Applies one event: the grid changes as the event's command says, and
    /// not at all for an event without one.
    pub fn apply(&mut self, event: InputEvent)
        ensures
            final(self)@ == old(self)@.apply(event),
            final(self)@.valid(),
    {
        self.execute(interpret(event))
    }
}

} // verus!
