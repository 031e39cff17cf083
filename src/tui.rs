//! The state of the terminal interface and its reaction to key events.
use vstd::prelude::*;

verus! {

/// What a key press asks of the interface.
#[derive(Clone, Copy, Debug, PartialEq, Eq, Structural)]
pub enum AppEvent {
    /// Leave the interface.
    Quit,
    /// Raise the counter by one.
    Increment,
    /// Lower the counter by one.
    Decrement,
    /// A key with no meaning here.
    Other,
}

/// The interface's state: a counter and whether the user asked to leave.
#[derive(Clone, Copy, Debug, PartialEq, Eq, Structural)]
pub struct App {
    counter: u8,
    exit: bool,
}

impl Default for App {
    fn default() -> (r: Self)
        ensures
            r.counter_spec() == 0,
            !r.exit_spec(),
    {
        App { counter: 0, exit: false }
    }
}

impl App {
    pub closed spec fn counter_spec(&self) -> u8 {
        self.counter
    }

    pub closed spec fn exit_spec(&self) -> bool {
        self.exit
    }

    /// A fresh state: counter at zero, not leaving.
    pub fn new() -> (r: Self)
        ensures
            r.counter_spec() == 0,
            !r.exit_spec(),
    {
        App { counter: 0, exit: false }
    }

    /// Applies one event. The counter stays within `0..=255`: raising it at 255
    /// or lowering it at 0 leaves it as it is.
    pub fn handle_events(&mut self, event: AppEvent)
        ensures
            event == AppEvent::Quit ==> final(self).exit_spec() && final(self).counter_spec() == old(
                self,
            ).counter_spec(),
            event == AppEvent::Increment ==> final(self).exit_spec() == old(self).exit_spec()
                && final(self).counter_spec() == if old(self).counter_spec() < 255 {
                (old(self).counter_spec() + 1) as u8
            } else {
                255u8
            },
            event == AppEvent::Decrement ==> final(self).exit_spec() == old(self).exit_spec()
                && final(self).counter_spec() == if old(self).counter_spec() > 0 {
                (old(self).counter_spec() - 1) as u8
            } else {
                0u8
            },
            event == AppEvent::Other ==> *final(self) == *old(self),
    {
        match event {
            AppEvent::Quit => {
                self.exit = true;
            },
            AppEvent::Increment => {
                if self.counter < 255 {
                    self.counter = self.counter + 1;
                }
            },
            AppEvent::Decrement => {
                if self.counter > 0 {
                    self.counter = self.counter - 1;
                }
            },
            AppEvent::Other => {},
        }
    }

    /// The counter's value.
    pub fn counter(&self) -> (r: u8)
        ensures
            r == self.counter_spec(),
    {
        self.counter
    }

    /// Whether the user asked to leave.
    pub fn should_exit(&self) -> (r: bool)
        ensures
            r == self.exit_spec(),
    {
        self.exit
    }
}

/// An object that can be told apart from every object of every network.
pub trait Identified {
    /// A text that holds the network's name and the matricule or id that the
    /// network gives the object.
    fn object_id(&self) -> String;
}

} // verus!
