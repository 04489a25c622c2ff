use vstd::prelude::*;

use crate::message;

verus! {

/// Events of the home screen; it has none that need handling.
#[derive(Debug, Clone, PartialEq, Eq)]
pub enum Message {
    Noop,
}

/// The home screen holds no state.
#[derive(Debug, Clone, PartialEq, Eq)]
pub struct Home {}

impl Home {
    /// A fresh home screen.
    pub fn new() -> (h: Self)
        ensures
            h == (Home {}),
    {
        Home {}
    }

    /// Wraps a home-screen event for the top-level dispatcher.
    pub fn route(msg: Message) -> (r: message::Message)
        ensures
            r == message::Message::Home(msg),
    {
        message::Message::Home(msg)
    }

    /// Handles one event; there is nothing to do.
    pub fn update(&mut self, _msg: Message)
        ensures
            *final(self) == *old(self),
    {
    }
}

} // verus!
