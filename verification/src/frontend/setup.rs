//! The setup screen: pick a user and a study set, then start a session.

use vstd::prelude::*;

use crate::frontend::chat::ChatMessage;
use crate::text::cat2;

verus! {

#[derive(Debug, Clone)]
pub struct User {
    pub id: String,
    pub email: String,
}

#[derive(Debug, Clone)]
pub struct StudySet {
    pub id: String,
    pub name: String,
}

#[derive(Debug)]
pub struct StartRequest {
    pub study_set_id: String,
    pub user_id: String,
}

#[derive(Debug)]
pub struct StartResponse {
    pub session_id: String,
    pub opening_message: String,
}

/// Where a session is started.
pub const START_PATH: &'static str = "/socratic/start";

/// Where the users are listed.
pub const USERS_PATH: &'static str = "/users";

/// What the setup screen holds.
#[derive(Debug)]
pub struct SetupPhase {
    pub users: Vec<User>,
    pub selected_user: String,
    pub study_sets: Vec<StudySet>,
    pub selected_set: String,
    pub error: String,
    pub starting: bool,
}

impl SetupPhase {
    /// Nothing is loaded and nothing is picked.
    pub fn new() -> (r: Self)
        ensures
            r.users@.len() == 0 && r.study_sets@.len() == 0,
            r.selected_user@.len() == 0 && r.selected_set@.len() == 0,
            r.error@.len() == 0 && !r.starting,
    {
        SetupPhase {
            users: Vec::new(),
            selected_user: String::new(),
            study_sets: Vec::new(),
            selected_set: String::new(),
            error: String::new(),
            starting: false,
        }
    }

    /// Everything but the error is as in `before`.
    pub open spec fn same_but_error(self, before: Self) -> bool {
        self == (SetupPhase { error: self.error, ..before })
    }

    /// The users came back.
    pub fn users_loaded(&mut self, users: Result<Vec<User>, String>)
        ensures
            match users {
                Ok(users) => *final(self) == (SetupPhase { users, ..*old(self) }),
                Err(e) => final(self).same_but_error(*old(self)) && final(self).error@
                    == "Failed to load users: "@ + e@,
            },
    {
        match users {
            Ok(users) => self.users = users,
            Err(e) => self.error = cat2("Failed to load users: ", e.as_str()),
        }
    }

    /// The screen after another user was picked: no study set is picked and
    /// none is listed.
    pub open spec fn repicked(self, before: Self, user: Seq<char>) -> bool {
        &&& self.selected_user@ == user
        &&& self.study_sets@.len() == 0
        &&& self.selected_set@.len() == 0
        &&& self.users == before.users
        &&& self.error == before.error
        &&& self.starting == before.starting
    }

    /// Another user was picked, or none. The path of the user's study sets
    /// comes back, where there is a user.
    pub fn user_changed(&mut self, user: &str) -> (r: Option<String>)
        ensures
            final(self).repicked(*old(self), user@),
            match r {
                None => user@.len() == 0,
                Some(path) => user@.len() > 0 && path@ == "/study_sets?user_id="@ + user@,
            },
    {
        self.selected_user = user.to_owned();
        self.study_sets = Vec::new();
        self.selected_set = String::new();
        if user.is_empty() {
            None
        } else {
            Some(cat2("/study_sets?user_id=", user))
        }
    }

    /// The study sets came back.
    pub fn study_sets_loaded(&mut self, study_sets: Result<Vec<StudySet>, String>)
        ensures
            match study_sets {
                Ok(study_sets) => *final(self) == (SetupPhase { study_sets, ..*old(self) }),
                Err(e) => final(self).same_but_error(*old(self)) && final(self).error@
                    == "Failed to load study sets: "@ + e@,
            },
    {
        match study_sets {
            Ok(study_sets) => self.study_sets = study_sets,
            Err(e) => self.error = cat2("Failed to load study sets: ", e.as_str()),
        }
    }

    /// A study set was picked, or none.
    pub fn set_changed(&mut self, study_set: String)
        ensures
            *final(self) == (SetupPhase { selected_set: study_set, ..*old(self) }),
    {
        self.selected_set = study_set;
    }

    /// A user and a study set are picked.
    pub open spec fn complete(self) -> bool {
        self.selected_user@.len() > 0 && self.selected_set@.len() > 0
    }

    /// The button can be pressed.
    pub open spec fn startable(self) -> bool {
        self.complete() && !self.starting
    }

    /// Whether the button can be pressed.
    pub fn can_start(&self) -> (r: bool)
        ensures
            r == self.startable(),
    {
        !self.selected_user.as_str().is_empty() && !self.selected_set.as_str().is_empty()
            && !self.starting
    }

    /// What the button says.
    pub fn start_label(&self) -> (r: &'static str)
        ensures
            r@ == if self.starting {
                "Starting..."@
            } else {
                "Start Socratic Session"@
            },
    {
        if self.starting {
            "Starting..."
        } else {
            "Start Socratic Session"
        }
    }

    /// The screen while the session starts: the old error is gone.
    pub open spec fn waits(self, before: Self) -> bool {
        &&& self == (SetupPhase { error: self.error, starting: true, ..before })
        &&& self.error@.len() == 0
    }

    /// The button was pressed. Without a user or a study set nothing happens.
    pub fn start(&mut self) -> (r: Option<StartRequest>)
        ensures
            match r {
                None => !old(self).complete() && *final(self) == *old(self),
                Some(request) => old(self).complete() && final(self).waits(*old(self))
                    && request.study_set_id@ == old(self).selected_set@ && request.user_id@
                    == old(self).selected_user@,
            },
    {
        if self.selected_user.as_str().is_empty() || self.selected_set.as_str().is_empty() {
            return None;
        }
        self.starting = true;
        self.error = String::new();
        Some(
            StartRequest {
                study_set_id: self.selected_set.clone(),
                user_id: self.selected_user.clone(),
            },
        )
    }

    /// The session came back: the chat starts with the tutor's question. After
    /// a failure the button can be pressed again.
    pub fn started(&mut self, response: Result<StartResponse, String>) -> (r: Option<
        (String, Vec<ChatMessage>),
    >)
        ensures
            match response {
                Ok(response) => {
                    &&& *final(self) == *old(self)
                    &&& r matches Some(chat) && chat.0 == response.session_id && chat.1@.len()
                        == 1 && chat.1@[0].says("assistant"@, response.opening_message@, None)
                },
                Err(e) => r is None && *final(self) == (SetupPhase {
                    error: e,
                    starting: false,
                    ..*old(self)
                }),
            },
    {
        match response {
            Ok(response) => {
                let mut messages: Vec<ChatMessage> = Vec::new();
                messages.push(
                    ChatMessage {
                        role: "assistant".to_owned(),
                        content: response.opening_message,
                        flagged_misconception: None,
                    },
                );
                Some((response.session_id, messages))
            },
            Err(e) => {
                self.error = e;
                self.starting = false;
                None
            },
        }
    }
}

/// Picking another user takes the study set back, so that a session never
/// starts with the set of someone else.
pub proof fn law_a_new_user_needs_a_new_set(before: SetupPhase, after: SetupPhase, user: Seq<char>)
    requires
        after.repicked(before, user),
    ensures
        !after.complete(),
        !after.startable(),
{
}

/// While a session starts, the button cannot be pressed.
pub proof fn law_a_session_starts_once(before: SetupPhase, after: SetupPhase)
    requires
        after.waits(before),
    ensures
        !after.startable(),
{
}

} // verus!
