//! The interactive commands: which key asks for what, and what a command
//! does to the navigation state.

use vstd::prelude::*;
use crate::app::App;
use crate::app::AppView;

verus! {

/// A key press, as far as the viewer tells keys apart.
#[derive(Debug, Clone, Copy, PartialEq, Eq, Structural)]
pub enum Key {
    /// A character key. Upper and lower case are different keys.
    Char(char),
    /// The tab key.
    Tab,
    /// Any other key.
    Other,
}

/// What the user can ask for.
#[derive(Debug, Clone, Copy, PartialEq, Eq, Structural)]
pub enum Command {
    NextStep,
    PrevStep,
    ToggleView,
    Quit,
}

/// The command that a key asks for: `n` the next step, `p` the previous
/// step, the tab key the other view, `q` the end. Other keys ask for nothing.
pub open spec fn command_of(key: Key) -> Option<Command> {
    match key {
        Key::Char(c) => if c == 'n' {
            Some(Command::NextStep)
        } else if c == 'p' {
            Some(Command::PrevStep)
        } else if c == 'q' {
            Some(Command::Quit)
        } else {
            None
        },
        Key::Tab => Some(Command::ToggleView),
        Key::Other => None,
    }
}

impl AppView {
    /// The state after `command`: at most one move in the navigation.
    pub open spec fn apply(self, command: Command) -> AppView {
        match command {
            Command::NextStep => self.next_step(),
            Command::PrevStep => self.prev_step(),
            Command::ToggleView => self.toggle_tab(),
            Command::Quit => self,
        }
    }

    /// The state after a press of `key`.
    pub open spec fn handle_key(self, key: Key) -> AppView {
        match command_of(key) {
            Some(command) => self.apply(command),
            None => self,
        }
    }
}

/// The command that `key` asks for, if any.
pub fn command_for_key(key: Key) -> (command: Option<Command>)
    ensures
        command == command_of(key),
{
    match key {
        Key::Char(c) => {
            if c == 'n' {
                Some(Command::NextStep)
            } else if c == 'p' {
                Some(Command::PrevStep)
            } else if c == 'q' {
                Some(Command::Quit)
            } else {
                None
            }
        },
        Key::Tab => Some(Command::ToggleView),
        Key::Other => None,
    }
}

impl App {
    /// Carries out `command` and says whether the viewer is to end.
    ///
    /// A command makes at most one move in the navigation state; the loaded
    /// data stay as they are.
    pub fn apply(&mut self, command: Command) -> (quit: bool)
        ensures
            quit == (command == Command::Quit),
            final(self)@ == old(self)@.apply(command),
            final(self).steps == old(self).steps,
            final(self).benchmark_results == old(self).benchmark_results,
            old(self).wf() ==> final(self).wf(),
    {
        match command {
            Command::NextStep => {
                self.next_step();
                false
            },
            Command::PrevStep => {
                self.prev_step();
                false
            },
            Command::ToggleView => {
                self.toggle_tab();
                false
            },
            Command::Quit => true,
        }
    }

    /// Reacts to a key press and says whether the viewer is to end. A key
    /// that asks for nothing changes nothing.
    pub fn handle_key(&mut self, key: Key) -> (quit: bool)
        ensures
            quit == (command_of(key) == Some(Command::Quit)),
            final(self)@ == old(self)@.handle_key(key),
            final(self).steps == old(self).steps,
            final(self).benchmark_results == old(self).benchmark_results,
            old(self).wf() ==> final(self).wf(),
    {
        match command_for_key(key) {
            Some(command) => self.apply(command),
            None => false,
        }
    }
}

} // verus!
