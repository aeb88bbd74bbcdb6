//! The browser client: what its screens hold, and how they change.

use vstd::prelude::*;

use crate::frontend::chat::ChatMessage;

pub mod api;
pub mod chat;
pub mod setup;

verus! {

/// Which screen is shown.
#[derive(Debug, Clone, Copy, PartialEq, Eq, Structural)]
pub enum Phase {
    Setup,
    Chat,
}

/// The client: the screen, and what the chat starts with.
#[derive(Debug)]
pub struct App {
    pub phase: Phase,
    pub session_id: String,
    pub initial_messages: Vec<ChatMessage>,
}

impl App {
    /// The client opens on the setup screen.
    pub fn new() -> (r: Self)
        ensures
            r.phase == Phase::Setup,
            r.session_id@ == Seq::<char>::empty(),
            r.initial_messages@ == Seq::<ChatMessage>::empty(),
    {
        App { phase: Phase::Setup, session_id: String::new(), initial_messages: Vec::new() }
    }

    /// A session started: the chat takes over with its first messages.
    pub fn start(&mut self, session_id: String, messages: Vec<ChatMessage>)
        ensures
            *final(self) == (App {
                phase: Phase::Chat,
                session_id,
                initial_messages: messages,
            }),
    {
        self.session_id = session_id;
        self.initial_messages = messages;
        self.phase = Phase::Chat;
    }

    /// The chat was left: the setup screen is back.
    pub fn end(&mut self)
        ensures
            *final(self) == (App { phase: Phase::Setup, ..*old(self) }),
    {
        self.phase = Phase::Setup;
    }
}

} // verus!
