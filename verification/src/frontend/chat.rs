//! The chat screen: the conversation and the reply being written.

use vstd::prelude::*;

use crate::handlers::socratic::{ReplyRequest, ReplyResponse};
use crate::text;
use crate::text::{cat2, cat3, same_text, trim};

verus! {

/// A message on the screen.
#[derive(Debug, Clone)]
pub struct ChatMessage {
    pub role: String,
    pub content: String,
    pub flagged_misconception: Option<String>,
}

impl ChatMessage {
    pub open spec fn says(
        self,
        role: Seq<char>,
        content: Seq<char>,
        flagged: Option<String>,
    ) -> bool {
        &&& self.role@ == role
        &&& self.content@ == content
        &&& self.flagged_misconception == flagged
    }

    /// The style class of the message.
    pub fn class(&self) -> (r: String)
        ensures
            r@ == "msg msg-"@ + self.role@,
    {
        cat2("msg msg-", self.role.as_str())
    }

    /// The badge of a message in which the tutor saw a misconception.
    pub fn badge(&self) -> (r: Option<String>)
        ensures
            match self.flagged_misconception {
                None => r is None,
                Some(flagged) => r matches Some(badge) && badge@ == "⚠ misconception noted: "@
                    + flagged@,
            },
    {
        match &self.flagged_misconception {
            None => None,
            Some(flagged) => Some(cat2("⚠ misconception noted: ", flagged.as_str())),
        }
    }
}

/// A reply on its way to the server.
#[derive(Debug)]
pub struct SentReply {
    pub path: String,
    pub request: ReplyRequest,
}

/// What the chat screen holds.
#[derive(Debug)]
pub struct ChatPhase {
    pub session_id: String,
    pub messages: Vec<ChatMessage>,
    pub input_text: String,
    pub sending: bool,
    pub error: String,
}

impl ChatPhase {
    /// The chat opens with the messages it is given.
    pub fn new(session_id: String, initial_messages: Vec<ChatMessage>) -> (r: Self)
        ensures
            r.session_id == session_id,
            r.messages == initial_messages,
            r.input_text@.len() == 0 && r.error@.len() == 0 && !r.sending,
    {
        ChatPhase {
            session_id,
            messages: initial_messages,
            input_text: String::new(),
            sending: false,
            error: String::new(),
        }
    }

    /// The student typed.
    pub fn typed(&mut self, input_text: String)
        ensures
            *final(self) == (ChatPhase { input_text, ..*old(self) }),
    {
        self.input_text = input_text;
    }

    /// There is something to send and nothing on its way.
    pub open spec fn sendable(self) -> bool {
        !text::is_blank(self.input_text@) && !self.sending
    }

    /// The screen right after the reply `sent` went out: it is shown at once,
    /// the input and the error are cleared, and nothing else can be sent.
    pub open spec fn sent(self, before: Self, sent: SentReply) -> bool {
        let content = text::trimmed(before.input_text@);
        &&& self.session_id == before.session_id
        &&& self.sending
        &&& self.input_text@.len() == 0
        &&& self.error@.len() == 0
        &&& self.messages@.len() == before.messages@.len() + 1
        &&& self.messages@.drop_last() == before.messages@
        &&& self.messages@.last().says("user"@, content, None)
        &&& sent.path@ == "/socratic/"@ + before.session_id@ + "/reply"@
        &&& sent.request.message@ == content
    }

    /// The student pressed the button. A blank input is not sent, and neither
    /// is a reply while another is on its way.
    pub fn send(&mut self) -> (r: Option<SentReply>)
        ensures
            match r {
                None => !old(self).sendable() && *final(self) == *old(self),
                Some(sent) => old(self).sendable() && final(self).sent(*old(self), sent),
            },
    {
        let content = trim(self.input_text.as_str()).to_owned();
        proof {
            text::law_blank_iff_trimmed_empty(self.input_text@);
        }
        if content.as_str().is_empty() || self.sending {
            return None;
        }
        self.sending = true;
        self.error = String::new();
        self.input_text = String::new();
        self.messages.push(
            ChatMessage {
                role: "user".to_owned(),
                content: content.clone(),
                flagged_misconception: None,
            },
        );
        assert(self.messages@.drop_last() =~= old(self).messages@);
        let path = cat3("/socratic/", self.session_id.as_str(), "/reply");
        Some(SentReply { path, request: ReplyRequest { message: content } })
    }

    /// The student pressed a key; the enter key sends.
    pub fn key_pressed(&mut self, key: &str) -> (r: Option<SentReply>)
        ensures
            match r {
                None => (key@ != "Enter"@ || !old(self).sendable()) && *final(self) == *old(
                    self,
                ),
                Some(sent) => key@ == "Enter"@ && old(self).sendable() && final(self).sent(
                    *old(self),
                    sent,
                ),
            },
    {
        if same_text(key, "Enter") && !self.sending {
            self.send()
        } else {
            None
        }
    }

    /// The screen after the server's answer: the tutor's reply is shown, or
    /// the error; either way the student can send again.
    pub open spec fn answered_of(
        self,
        before: Self,
        response: Result<ReplyResponse, String>,
    ) -> bool {
        match response {
            Ok(response) => {
                &&& self.session_id == before.session_id
                &&& !self.sending
                &&& self.input_text == before.input_text
                &&& self.error == before.error
                &&& self.messages@.len() == before.messages@.len() + 1
                &&& self.messages@.drop_last() == before.messages@
                &&& self.messages@.last().says(
                    "assistant"@,
                    response.reply@,
                    response.flagged_misconception,
                )
            },
            Err(e) => self == (ChatPhase { error: e, sending: false, ..before }),
        }
    }

    /// The server's answer came back.
    pub fn answered(&mut self, response: Result<ReplyResponse, String>)
        ensures
            final(self).answered_of(*old(self), response),
    {
        match response {
            Ok(response) => {
                self.messages.push(
                    ChatMessage {
                        role: "assistant".to_owned(),
                        content: response.reply,
                        flagged_misconception: response.flagged_misconception,
                    },
                );
                assert(self.messages@.drop_last() =~= old(self).messages@);
            },
            Err(e) => {
                self.error = e;
            },
        }
        self.sending = false;
    }

    /// What the button says.
    pub fn send_label(&self) -> (r: &'static str)
        ensures
            r@ == if self.sending {
                "Sending..."@
            } else {
                "Send"@
            },
    {
        if self.sending {
            "Sending..."
        } else {
            "Send"
        }
    }
}

/// A round of the conversation adds the student's reply and the tutor's, in
/// this order and behind everything said before, and then the student can
/// write again.
pub proof fn law_a_round_adds_both_sides(
    before: ChatPhase,
    sent: SentReply,
    waiting: ChatPhase,
    response: ReplyResponse,
    after: ChatPhase,
)
    requires
        waiting.sent(before, sent),
        after.answered_of(waiting, Ok::<ReplyResponse, String>(response)),
    ensures
        after.messages@.len() == before.messages@.len() + 2,
        after.messages@.take(before.messages@.len() as int) == before.messages@,
        after.messages@[before.messages@.len() as int].says(
            "user"@,
            text::trimmed(before.input_text@),
            None,
        ),
        after.messages@.last().says(
            "assistant"@,
            response.reply@,
            response.flagged_misconception,
        ),
        !after.sending,
{
    let n = before.messages@.len() as int;
    assert(after.messages@.take(n) =~= waiting.messages@.drop_last());
    assert(after.messages@[n] == after.messages@.drop_last()[n]);
}

/// A failed round keeps what the student said on the screen and shows the
/// error; the student can write again.
pub proof fn law_a_failed_round_keeps_the_reply(
    before: ChatPhase,
    sent: SentReply,
    waiting: ChatPhase,
    error: String,
    after: ChatPhase,
)
    requires
        waiting.sent(before, sent),
        after.answered_of(waiting, Err::<ReplyResponse, String>(error)),
    ensures
        after.messages == waiting.messages,
        after.error == error,
        !after.sending,
{
}

/// Nothing can be sent while a reply is on its way.
pub proof fn law_one_reply_at_a_time(before: ChatPhase, sent: SentReply, waiting: ChatPhase)
    requires
        waiting.sent(before, sent),
    ensures
        !waiting.sendable(),
{
}

} // verus!
