//! The chat screen. It holds no state, knows no event and shows nothing
//! yet; it has the shape that the dispatcher asks of every screen.

use crate::ui::Item;
use core::convert::Infallible;
use vstd::prelude::*;

verus! {

/// The state of the chat screen.
#[derive(Clone, Copy, Debug, PartialEq, Eq)]
pub struct App {}

/// An event of the chat screen. None is defined, so no value of this type
/// can be made.
#[derive(Debug, PartialEq, Eq)]
pub enum Message {
    Never(Infallible),
}

/// Work that the chat screen asks for. None is defined, so no value of this
/// type can be made.
#[derive(Debug, PartialEq, Eq)]
pub enum Task {
    Never(Infallible),
}

/// What an update of the chat screen hands back.
#[derive(Debug, PartialEq, Eq)]
pub enum Action {
    /// No work.
    Nothing,
    /// Perform this work and deliver its outcome to the screen.
    Task(Task),
}

impl App {
    /// The chat screen as it is entered.
    pub fn new() -> (app: App)
        ensures
            app == (App {  }),
    {
        App {  }
    }

    /// Applies one event: the screen stays as it is and asks for nothing.
    pub fn update(&mut self, message: Message) -> (action: Action)
        ensures
            *final(self) == *old(self),
            action is Nothing,
    {
        Action::Nothing
    }

    /// Describes the screen: it shows nothing.
    pub fn view(&self) -> (items: Vec<Item>)
        ensures
            items@ == Seq::<Item>::empty(),
    {
        Vec::new()
    }
}

} // verus!
