//! Laws of the browser client.

use vstd::prelude::*;

use crate::frontend::api::{api_url, check_get, check_post, ApiFailure};
use crate::frontend::chat::{ChatMessage, ChatPhase, SentReply};
use crate::frontend::setup::{SetupPhase, StartRequest, StartResponse, StudySet, User};
use crate::frontend::App;
use crate::handlers::socratic::ReplyResponse;
use crate::laws;
use crate::text;

verus! {

/// Every path stands behind the server's address.
pub proof fn law_a_path_stands_behind_the_server(path: &str, r: String)
    requires
        call_ensures(api_url, (path,), r),
    ensures
        r@ == "http://localhost:8081"@ + path@,
{
}

/// A failed request is told with what went wrong.
pub proof fn law_a_failed_request_tells_what_went_wrong(failure: &ApiFailure, r: String)
    requires
        call_ensures(ApiFailure::describe, (failure,), r),
    ensures
        match *failure {
            ApiFailure::Serialize(e) => r@ == "serialize: "@ + e@,
            ApiFailure::Body(e) => r@ == "body error: "@ + e@,
            ApiFailure::Network(e) => r@ == "network error: "@ + e@,
            ApiFailure::Refused { status } => r@ == "HTTP "@ + text::decimal(status as nat),
            ApiFailure::RefusedWith { status, text } => r@ == "HTTP "@ + text::decimal(
                status as nat,
            ) + ": "@ + text@,
            ApiFailure::Parse(e) => r@ == "parse error: "@ + e@,
        },
{
}

/// An answer is read exactly where its status is a success; a refusal keeps the
/// status and, of a write, what the server said.
pub proof fn law_a_refusal_keeps_its_status(
    status: u16,
    said: String,
    r: Result<(), ApiFailure>,
    s: Result<(), ApiFailure>,
)
    requires
        call_ensures(check_get, (status,), r),
        call_ensures(check_post, (status, said), s),
    ensures
        r is Ok <==> status / 100 == 2,
        s is Ok <==> status / 100 == 2,
        r matches Err(e) ==> (e matches ApiFailure::Refused { status: code } && code == status),
        s matches Err(e) ==> (e matches ApiFailure::RefusedWith { status: code, text } && code
            == status && text@ == said@),
{
}

/// The client opens on the setup screen with nothing to show.
pub proof fn law_the_client_opens_on_the_setup_screen(r: App)
    requires
        call_ensures(App::new, (), r),
    ensures
        r.phase is Setup,
        r.session_id@.len() == 0 && r.initial_messages@.len() == 0,
{
}

/// A started session is shown in the chat, its own id and its own messages.
pub proof fn law_a_started_session_is_shown(
    app: &mut App,
    session_id: String,
    messages: Vec<ChatMessage>,
)
    requires
        call_ensures(App::start, (app, session_id, messages), ()),
    ensures
        final(app).phase is Chat,
        final(app).session_id@ == session_id@,
        final(app).initial_messages@ == messages@,
{
}

/// Leaving the chat brings the setup screen back and changes nothing else.
pub proof fn law_leaving_brings_the_setup_screen_back(app: &mut App)
    requires
        call_ensures(App::end, (app,), ()),
    ensures
        final(app).phase is Setup,
        final(app).session_id == old(app).session_id,
        final(app).initial_messages == old(app).initial_messages,
{
}

/// A message shows its role in its style, and a misconception exactly where one
/// was flagged.
pub proof fn law_a_message_shows_its_misconception(
    message: &ChatMessage,
    class: String,
    badge: Option<String>,
)
    requires
        call_ensures(ChatMessage::class, (message,), class),
        call_ensures(ChatMessage::badge, (message,), badge),
    ensures
        class@ == "msg msg-"@ + message.role@,
        badge is None <==> message.flagged_misconception is None,
        message.flagged_misconception matches Some(flagged) ==> (badge matches Some(b) && b@
            == "⚠ misconception noted: "@ + flagged@),
{
}

/// A chat opens with the messages it is given, ready for the student.
pub proof fn law_a_chat_opens_ready(session_id: String, messages: Vec<ChatMessage>, r: ChatPhase)
    requires
        call_ensures(ChatPhase::new, (session_id, messages), r),
    ensures
        r.session_id@ == session_id@,
        r.messages@ == messages@,
        r.input_text@.len() == 0 && r.error@.len() == 0 && !r.sending,
{
}

/// Typing changes what is typed and nothing else.
pub proof fn law_typing_only_types(chat: &mut ChatPhase, input_text: String)
    requires
        call_ensures(ChatPhase::typed, (chat, input_text), ()),
    ensures
        final(chat).input_text@ == input_text@,
        final(chat).session_id == old(chat).session_id,
        final(chat).messages == old(chat).messages,
        final(chat).sending == old(chat).sending,
        final(chat).error == old(chat).error,
{
}

/// What sending does: what the student wrote, without the white space around
/// it, is shown as the student's and goes to the session; nothing shown before
/// changes, the input and the error are cleared, and the chat waits.
pub open spec fn goes_out(before: ChatPhase, after: ChatPhase, sent: SentReply) -> bool {
    let n = before.messages@.len() as int;
    let words = text::trimmed(before.input_text@);
    &&& sent.path@ == "/socratic/"@ + before.session_id@ + "/reply"@
    &&& sent.request.message@ == words
    &&& after.messages@.len() == n + 1
    &&& after.messages@.take(n) == before.messages@
    &&& after.messages@[n].role@ == "user"@
    &&& after.messages@[n].content@ == words
    &&& after.messages@[n].flagged_misconception is None
    &&& after.session_id@ == before.session_id@
    &&& after.input_text@.len() == 0
    &&& after.error@.len() == 0
    &&& after.sending
}

/// A reply goes out exactly where there is something to say and nothing on its
/// way; else nothing changes.
pub proof fn law_a_reply_goes_out_once(chat: &mut ChatPhase, r: Option<SentReply>)
    requires
        call_ensures(ChatPhase::send, (chat,), r),
    ensures
        r is Some <==> !text::is_blank(old(chat).input_text@) && !old(chat).sending,
        r matches Some(sent) ==> goes_out(*old(chat), *final(chat), sent),
        r is None ==> *final(chat) == *old(chat),
{
    if r is Some {
        let n = old(chat).messages@.len() as int;
        assert(final(chat).messages@.take(n) =~= final(chat).messages@.drop_last());
        assert(final(chat).messages@[n] == final(chat).messages@.last());
    }
}

/// The enter key sends, under the same conditions, and no other key does.
pub proof fn law_only_the_enter_key_sends(
    chat: &mut ChatPhase,
    key: &str,
    r: Option<SentReply>,
)
    requires
        call_ensures(ChatPhase::key_pressed, (chat, key), r),
    ensures
        r is Some <==> key@ == "Enter"@ && !text::is_blank(old(chat).input_text@) && !old(chat).sending,
        r matches Some(sent) ==> goes_out(*old(chat), *final(chat), sent),
        r is None ==> *final(chat) == *old(chat),
{
    if r is Some {
        let n = old(chat).messages@.len() as int;
        assert(final(chat).messages@.take(n) =~= final(chat).messages@.drop_last());
        assert(final(chat).messages@[n] == final(chat).messages@.last());
    }
}

/// The tutor's answer is shown last, in the tutor's words and with the
/// misconception that it flags; an error is shown as it reads. Either way
/// nothing shown before changes, what the student is typing stays, and the
/// student can send again.
pub proof fn law_the_tutors_answer_is_shown(
    chat: &mut ChatPhase,
    response: Result<ReplyResponse, String>,
)
    requires
        call_ensures(ChatPhase::answered, (chat, response), ()),
    ensures
        !final(chat).sending,
        final(chat).input_text@ == old(chat).input_text@,
        final(chat).session_id@ == old(chat).session_id@,
        final(chat).messages@.take(old(chat).messages@.len() as int) == old(chat).messages@,
        response matches Ok(answer) ==> {
            let n = old(chat).messages@.len() as int;
            let shown = final(chat).messages@[n];
            &&& final(chat).messages@.len() == n + 1
            &&& shown.role@ == "assistant"@
            &&& shown.content@ == answer.reply@
            &&& laws::same_option(shown.flagged_misconception, answer.flagged_misconception)
            &&& final(chat).error@ == old(chat).error@
        },
        response matches Err(e) ==> final(chat).messages@.len() == old(chat).messages@.len()
            && final(chat).error@ == e@,
{
    let n = old(chat).messages@.len() as int;
    match response {
        Ok(answer) => {
            assert(final(chat).messages@.take(n) =~= final(chat).messages@.drop_last());
            assert(final(chat).messages@[n] == final(chat).messages@.last());
        },
        Err(e) => {
            assert(final(chat).messages@.take(n) =~= old(chat).messages@);
        },
    }
}

/// The buttons say what happens.
pub proof fn law_the_buttons_say_what_happens(
    chat: &ChatPhase,
    screen: &SetupPhase,
    send: &'static str,
    start: &'static str,
)
    requires
        call_ensures(ChatPhase::send_label, (chat,), send),
        call_ensures(SetupPhase::start_label, (screen,), start),
    ensures
        chat.sending ==> send@ == "Sending..."@,
        !chat.sending ==> send@ == "Send"@,
        screen.starting ==> start@ == "Starting..."@,
        !screen.starting ==> start@ == "Start Socratic Session"@,
{
}

/// The setup screen opens with nothing loaded, nothing picked and nothing on
/// its way.
pub proof fn law_the_setup_screen_opens_empty(r: SetupPhase)
    requires
        call_ensures(SetupPhase::new, (), r),
    ensures
        r.users@.len() == 0 && r.study_sets@.len() == 0,
        r.selected_user@.len() == 0 && r.selected_set@.len() == 0,
        r.error@.len() == 0 && !r.starting,
{
}

/// Loaded users are listed as they came, and a failure is told; nothing else
/// changes.
pub proof fn law_loaded_users_are_listed(
    screen: &mut SetupPhase,
    users: Result<Vec<User>, String>,
)
    requires
        call_ensures(SetupPhase::users_loaded, (screen, users), ()),
    ensures
        users matches Ok(users) ==> final(screen).users@ == users@ && final(screen).error
            == old(screen).error,
        users matches Err(e) ==> final(screen).users == old(screen).users && final(screen).error@
            == "Failed to load users: "@ + e@,
        final(screen).selected_user == old(screen).selected_user,
        final(screen).study_sets == old(screen).study_sets,
        final(screen).selected_set == old(screen).selected_set,
        final(screen).starting == old(screen).starting,
{
}

/// Loaded study sets are listed as they came, and a failure is told; nothing
/// else changes.
pub proof fn law_loaded_sets_are_listed(
    screen: &mut SetupPhase,
    study_sets: Result<Vec<StudySet>, String>,
)
    requires
        call_ensures(SetupPhase::study_sets_loaded, (screen, study_sets), ()),
    ensures
        study_sets matches Ok(sets) ==> final(screen).study_sets@ == sets@ && final(screen).error
            == old(screen).error,
        study_sets matches Err(e) ==> final(screen).study_sets == old(screen).study_sets
            && final(screen).error@ == "Failed to load study sets: "@ + e@,
        final(screen).users == old(screen).users,
        final(screen).selected_user == old(screen).selected_user,
        final(screen).selected_set == old(screen).selected_set,
        final(screen).starting == old(screen).starting,
{
}

/// The picked user is the one that was picked, whose sets are asked for, where
/// it is one; the set of the user before is taken back.
pub proof fn law_a_picked_user_brings_its_sets(
    screen: &mut SetupPhase,
    user: &str,
    r: Option<String>,
)
    requires
        call_ensures(SetupPhase::user_changed, (screen, user), r),
    ensures
        final(screen).selected_user@ == user@,
        final(screen).study_sets@.len() == 0 && final(screen).selected_set@.len() == 0,
        final(screen).users == old(screen).users,
        final(screen).error == old(screen).error,
        final(screen).starting == old(screen).starting,
        r is Some <==> user@.len() > 0,
        r matches Some(path) ==> path@ == "/study_sets?user_id="@ + user@,
{
}

/// The picked set is the one that was picked; nothing else changes.
pub proof fn law_a_picked_set_is_picked(screen: &mut SetupPhase, study_set: String)
    requires
        call_ensures(SetupPhase::set_changed, (screen, study_set), ()),
    ensures
        final(screen).selected_set@ == study_set@,
        final(screen).users == old(screen).users,
        final(screen).selected_user == old(screen).selected_user,
        final(screen).study_sets == old(screen).study_sets,
        final(screen).error == old(screen).error,
        final(screen).starting == old(screen).starting,
{
}

/// A session can be started exactly where a user and a set are picked and none
/// is starting.
pub proof fn law_a_start_needs_a_user_and_a_set(screen: &SetupPhase, r: bool)
    requires
        call_ensures(SetupPhase::can_start, (screen,), r),
    ensures
        r <==> screen.selected_user@.len() > 0 && screen.selected_set@.len() > 0
            && !screen.starting,
{
}

/// A start asks for the picked set and the picked user, clears the error and
/// waits; without both nothing changes.
pub proof fn law_a_start_asks_for_what_is_picked(
    screen: &mut SetupPhase,
    r: Option<StartRequest>,
)
    requires
        call_ensures(SetupPhase::start, (screen,), r),
    ensures
        r is Some <==> old(screen).selected_user@.len() > 0 && old(screen).selected_set@.len() > 0,
        r matches Some(request) ==> request.study_set_id@ == old(screen).selected_set@
            && request.user_id@ == old(screen).selected_user@ && final(screen).starting && final(screen).error@.len() == 0 && final(screen).users == old(screen).users && final(screen).study_sets == old(screen).study_sets && final(screen).selected_user == old(screen).selected_user && final(screen).selected_set == old(screen).selected_set,
        r is None ==> *final(screen) == *old(screen),
{
}

/// A started session is handed on with the tutor's opening question; a failure
/// is shown and the session can be started again.
pub proof fn law_a_start_hands_the_question_on(
    screen: &mut SetupPhase,
    response: Result<StartResponse, String>,
    r: Option<(String, Vec<ChatMessage>)>,
)
    requires
        call_ensures(SetupPhase::started, (screen, response), r),
    ensures
        response matches Ok(started) ==> (r matches Some(chat) && chat.0@ == started.session_id@
            && chat.1@.len() == 1 && chat.1@[0].role@ == "assistant"@ && chat.1@[0].content@
            == started.opening_message@ && chat.1@[0].flagged_misconception is None) && *final(screen) == *old(screen),
        response matches Err(e) ==> r is None && final(screen).error@ == e@ && !final(screen).starting && final(screen).users == old(screen).users && final(screen).study_sets == old(screen).study_sets && final(screen).selected_user == old(screen).selected_user && final(screen).selected_set == old(screen).selected_set,
{
}

} // verus!
