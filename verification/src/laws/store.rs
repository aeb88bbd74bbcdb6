//! Laws of the Knowledge Store client.

use vstd::prelude::*;

use crate::ids;
use crate::ids::RecordId;
use crate::ks_client;
use crate::ks_client::{
    bare_nodes, base_url_for_port, check_status, find_node, health, parse_health_response,
    parse_nodes_response, parse_save_response, percent_encode_query_value, saved,
    server_bug_notice, HealthBody, KsClient, KsError, KsNode, SaveTranscriptBody,
    SaveTranscriptOutcome, SaveTranscriptRequest, TranscriptTurn,
};
use crate::laws;
use crate::text;

verus! {

/// The tutor's turns are the coach's and the student's are the learner's, each
/// with its own text; no other role has a turn.
pub proof fn law_a_turn_keeps_its_speaker(
    role: &str,
    content: &str,
    coach: TranscriptTurn,
    learner: TranscriptTurn,
    r: Option<TranscriptTurn>,
)
    requires
        call_ensures(TranscriptTurn::coach, (content,), coach),
        call_ensures(TranscriptTurn::learner, (content,), learner),
        call_ensures(TranscriptTurn::from_socratic_role, (role, content), r),
    ensures
        coach.role@ == "coach"@ && coach.content@ == content@,
        learner.role@ == "learner"@ && learner.content@ == content@,
        role@ == "assistant"@ ==> (r matches Some(t) && t.role@ == "coach"@ && t.content@
            == content@),
        role@ == "user"@ ==> (r matches Some(t) && t.role@ == "learner"@ && t.content@
            == content@),
        r is Some ==> role@ == "assistant"@ || role@ == "user"@,
{
}

/// A failure is told with what went wrong.
pub proof fn law_a_store_failure_tells_what_went_wrong(err: &KsError, r: String)
    requires
        call_ensures(KsError::describe, (err,), r),
    ensures
        match *err {
            KsError::Unreachable(m) => r@ == "knowledge store unreachable: "@ + m@,
            KsError::Http { status, body } => r@ == "knowledge store HTTP "@ + text::decimal(
                status as nat,
            ) + ": "@ + laws::start_of(body@),
            KsError::Parse(m) => r@ == "knowledge store parse error: "@ + m@,
        },
{
    if let KsError::Http { status, body } = *err {
        assert(text::snippet(body@) =~= laws::start_of(body@));
    }
}

/// A character that stands for itself in a query string.
pub open spec fn plain(c: char) -> bool {
    ||| 'a' <= c && c <= 'z'
    ||| 'A' <= c && c <= 'Z'
    ||| '0' <= c && c <= '9'
    ||| c == '-' || c == '_' || c == '.' || c == '~'
}

proof fn lemma_plain_is_kept(s: Seq<char>)
    requires
        forall|i: int| 0 <= i < s.len() ==> plain(#[trigger] s[i]),
    ensures
        ks_client::percent_encoded(vstd::utf8::encode_utf8(s)) == s,
    decreases s.len(),
{
    if s.len() > 0 {
        let rest = s.drop_first();
        assert forall|i: int| 0 <= i < rest.len() implies plain(#[trigger] rest[i]) by {
            assert(plain(s[i + 1]));
        }
        lemma_plain_is_kept(rest);
        assert(plain(s[0]));
        let b = vstd::utf8::encode_utf8(s);
        let head = vstd::utf8::encode_scalar(s[0] as u32);
        assert(b == head + vstd::utf8::encode_utf8(rest));
        let v = s[0] as u32;
        assert((v & 0x7F) as u8 == v as u8) by (bit_vector)
            requires
                v < 0x80,
        ;
        assert(head =~= seq![s[0] as u8]);
        assert(b.drop_first() =~= vstd::utf8::encode_utf8(rest));
        assert(seq![s[0]] + rest =~= s);
    } else {
        assert(vstd::utf8::encode_utf8(s) =~= Seq::<u8>::empty());
    }
}

/// An encoded value reads back as the bytes of the value, holds nothing but
/// plain characters and escapes, and leaves a plain value as it is.
pub proof fn law_an_encoded_value_reads_back(value: &str, r: String)
    requires
        call_ensures(percent_encode_query_value, (value,), r),
    ensures
        ks_client::percent_decoded(r@) == vstd::utf8::encode_utf8(value@),
        forall|i: int| 0 <= i < r@.len() ==> #[trigger] r@[i] == '%' || plain(r@[i]),
        (forall|i: int| 0 <= i < value@.len() ==> plain(#[trigger] value@[i])) ==> r@ == value@,
{
    let bytes = vstd::utf8::encode_utf8(value@);
    ks_client::law_percent_encoding_is_undone(bytes);
    assert forall|i: int| 0 <= i < r@.len() implies #[trigger] r@[i] == '%' || plain(r@[i]) by {
        ks_client::law_percent_encoding_is_url_safe(bytes, i);
    }
    if forall|i: int| 0 <= i < value@.len() ==> plain(#[trigger] value@[i]) {
        lemma_plain_is_kept(value@);
    }
}

/// A status passes exactly where it is a success; any other is refused with
/// the status and the body.
pub proof fn law_a_status_is_checked(status: u16, body: &str, r: Result<(), KsError>)
    requires
        call_ensures(check_status, (status, body), r),
    ensures
        r is Ok <==> status / 100 == 2,
        r matches Err(e) ==> (e matches KsError::Http { status: s, body: b } && s == status && b@
            == body@),
{
}

/// Exactly the server errors are reported, with their status and the start of
/// their body.
pub proof fn law_a_server_error_is_reported(status: u16, body: &str, r: Option<String>)
    requires
        call_ensures(server_bug_notice, (status, body), r),
    ensures
        r is Some <==> status >= 500,
        r matches Some(notice) ==> notice@ == "[ks] BUG on the KS side: HTTP "@ + text::decimal(
            status as nat,
        ) + " from an endpoint documented never to return 5xx. Body: "@ + laws::start_of(body@),
{
    assert(text::snippet(body@) =~= laws::start_of(body@));
}

/// A schema error that quotes the decoder and the start of the body.
pub open spec fn unreadable(e: KsError, error: Seq<char>, body: Seq<char>) -> bool {
    e matches KsError::Parse(m) && m@ == error + "; body snippet: "@ + laws::start_of(body)
}

/// What a decoded answer to a sent transcript means: `ok: true` with an id is a
/// stored transcript under that id, `ok: false` is a database that is down and
/// says why, and anything else is a schema error.
pub open spec fn fares(
    decoded: Result<SaveTranscriptBody, String>,
    body: Seq<char>,
    r: Result<SaveTranscriptOutcome, KsError>,
) -> bool {
    match decoded {
        Err(e) => r matches Err(k) && unreadable(k, e@, body),
        Ok(parsed) => {
            &&& parsed.ok ==> (parsed.transcript_id matches Some(id) ==> (id@.len() > 0 ==> (
            r matches Ok(SaveTranscriptOutcome::Saved { transcript_id }) && transcript_id@
                == id@)))
            &&& parsed.ok && !(parsed.transcript_id matches Some(id) && id@.len() > 0) ==> (
            r matches Err(KsError::Parse(m)) && m@
                == "response had ok:true but no transcript_id"@)
            &&& !parsed.ok ==> (r matches Ok(SaveTranscriptOutcome::KsDbUnavailable { error }) && (
            parsed.error matches Some(m) ==> error@ == m@) && (parsed.error is None ==> error@
                == "ok:false with no error field"@))
        },
    }
}

/// A sent transcript fares as the answer says.
pub proof fn law_a_transcript_fares_as_answered(
    decoded: Result<SaveTranscriptBody, String>,
    body: &str,
    r: Result<SaveTranscriptOutcome, KsError>,
)
    requires
        call_ensures(saved, (decoded, body), r),
    ensures
        fares(decoded, body@, r),
{
    assert(text::snippet(body@) =~= laws::start_of(body@));
}

/// The same holds of an answer that is still to be decoded.
pub proof fn law_a_save_answer_is_read<F: Fn(&str) -> Result<SaveTranscriptBody, String>>(
    body: &str,
    decode: F,
    decoded: Result<SaveTranscriptBody, String>,
    r: Result<SaveTranscriptOutcome, KsError>,
)
    requires
        call_ensures(parse_save_response::<F>, (body, decode), r),
        laws::always(decode, body@, decoded),
    ensures
        fares(decoded, body@, r),
{
    assert(text::snippet(body@) =~= laws::start_of(body@));
}

/// The service is healthy exactly where it says `ok`; anything else is an error
/// that quotes it.
pub open spec fn lives(
    decoded: Result<HealthBody, String>,
    body: Seq<char>,
    r: Result<(), KsError>,
) -> bool {
    &&& r is Ok <==> (decoded matches Ok(parsed) && parsed.status@ == "ok"@)
    &&& decoded matches Err(e) ==> (r matches Err(k) && unreadable(k, e@, body))
    &&& decoded matches Ok(parsed) ==> (parsed.status@ != "ok"@ ==> (r matches Err(
        KsError::Parse(m),
    ) && m@ == "unexpected health status: "@ + parsed.status@))
}

/// The service is as healthy as it says.
pub proof fn law_health_is_what_the_service_says(
    decoded: Result<HealthBody, String>,
    body: &str,
    r: Result<(), KsError>,
)
    requires
        call_ensures(health, (decoded, body), r),
    ensures
        lives(decoded, body@, r),
{
    assert(text::snippet(body@) =~= laws::start_of(body@));
}

/// The same holds of an answer that is still to be decoded.
pub proof fn law_a_health_answer_is_read<F: Fn(&str) -> Result<HealthBody, String>>(
    body: &str,
    decode: F,
    decoded: Result<HealthBody, String>,
    r: Result<(), KsError>,
)
    requires
        call_ensures(parse_health_response::<F>, (body, decode), r),
        laws::always(decode, body@, decoded),
    ensures
        lives(decoded, body@, r),
{
    assert(text::snippet(body@) =~= laws::start_of(body@));
}

/// What two readings of a node list come to: the envelope's nodes, or else the
/// bare array's, or else an error that names both shapes.
pub open spec fn lists(
    envelope: Result<Vec<KsNode>, String>,
    array: Result<Vec<KsNode>, String>,
    body: Seq<char>,
    r: Result<Vec<KsNode>, KsError>,
) -> bool {
    match (envelope, array) {
        (Ok(nodes), _) => r matches Ok(given) && given == nodes,
        (Err(_), Ok(nodes)) => r matches Ok(given) && given == nodes,
        (Err(_), Err(e)) => r matches Err(KsError::Parse(m)) && m@ == e@
            + "; expected either {\"nodes\": [...]} or a bare array; body snippet: "@
            + laws::start_of(body),
    }
}

/// The nodes of a bare array are handed on as they are; an error names both
/// shapes.
pub proof fn law_a_bare_array_is_handed_on(
    array: Result<Vec<KsNode>, String>,
    body: &str,
    r: Result<Vec<KsNode>, KsError>,
)
    requires
        call_ensures(bare_nodes, (array, body), r),
    ensures
        lists(Err::<Vec<KsNode>, String>(arbitrary()), array, body@, r),
{
    assert(text::snippet(body@) =~= laws::start_of(body@));
}

/// A node list is read in either shape.
pub proof fn law_a_node_answer_is_read<
    F: Fn(&str) -> Result<Vec<KsNode>, String>,
    G: Fn(&str) -> Result<Vec<KsNode>, String>,
>(
    body: &str,
    decode_envelope: F,
    decode_array: G,
    envelope: Result<Vec<KsNode>, String>,
    array: Result<Vec<KsNode>, String>,
    r: Result<Vec<KsNode>, KsError>,
)
    requires
        call_ensures(parse_nodes_response::<F, G>, (body, decode_envelope, decode_array), r),
        laws::always(decode_envelope, body@, envelope),
        laws::always(decode_array, body@, array),
    ensures
        lists(envelope, array, body@, r),
{
    assert(text::snippet(body@) =~= laws::start_of(body@));
}

/// The node that is found is the first listed one with the wanted id, each of
/// its fields in its own place; none is found only where none is listed.
pub proof fn law_a_node_is_found_as_it_is_listed(
    nodes: Vec<KsNode>,
    id: RecordId,
    r: Option<KsNode>,
)
    requires
        call_ensures(find_node, (nodes, id), r),
    ensures
        r is None ==> forall|i: int|
            0 <= i < nodes@.len() ==> #[trigger] nodes@[i].id@ != ids::hyphenated(id),
        r matches Some(node) ==> exists|k: int|
            {
                &&& 0 <= k < nodes@.len()
                &&& node.id@ == #[trigger] nodes@[k].id@
                &&& node.title@ == nodes@[k].title@
                &&& node.subject@ == nodes@[k].subject@
                &&& node.summary@ == nodes@[k].summary@
                &&& node.id@ == ids::hyphenated(id)
                &&& forall|j: int| 0 <= j < k ==> #[trigger] nodes@[j].id@ != node.id@
            },
{
    if let Some(node) = r {
        let k = choose|k: int|
            0 <= k < nodes@.len() && #[trigger] nodes@[k].id@ == ids::hyphenated(id)
                && ks_client::same_node(nodes@[k], node) && forall|j: int|
                0 <= j < k ==> #[trigger] nodes@[j].id@ != ids::hyphenated(id);
        assert(nodes@[k].id@ == ids::hyphenated(id));
    }
}

/// Every node reads as itself, and two nodes that read the same agree field by
/// field.
pub proof fn law_reading_the_same_is_field_by_field(a: KsNode, b: KsNode)
    ensures
        ks_client::same_node(a, a),
        ks_client::same_node(a, b) <==> a.id@ == b.id@ && a.title@ == b.title@ && a.subject@
            == b.subject@ && a.summary@ == b.summary@,
{
}

/// There is a client exactly where there is a token; it holds that token, and
/// it talks to this machine only, on the configured port or else on 8080.
pub proof fn law_a_store_client_stays_on_this_machine(
    token: Option<String>,
    port: Option<String>,
    r: Option<KsClient>,
)
    requires
        call_ensures(KsClient::from_env, (token, port), r),
    ensures
        r is Some <==> (token matches Some(t) && t@.len() > 0),
        r matches Some(client) ==> {
            &&& token matches Some(t) && client.token@ == t@
            &&& port matches Some(p) ==> client.base_url@ == "http://127.0.0.1:"@ + p@
            &&& port is None ==> client.base_url@ == "http://127.0.0.1:"@ + "8080"@
        },
{
}

/// Every route stands behind the base address, and a subject is asked for in
/// its encoded form.
pub proof fn law_the_routes_stand_behind_the_base(
    port: &str,
    base: String,
    client: &KsClient,
    subject: Option<&str>,
    health: String,
    transcripts: String,
    nodes: String,
)
    requires
        call_ensures(base_url_for_port, (port,), base),
        call_ensures(KsClient::health_url, (client,), health),
        call_ensures(KsClient::transcripts_url, (client,), transcripts),
        call_ensures(KsClient::nodes_url, (client, subject), nodes),
    ensures
        base@ == "http://127.0.0.1:"@ + port@,
        health@ == client.base_url@ + "/health"@,
        transcripts@ == client.base_url@ + "/transcripts"@,
        subject is None ==> nodes@ == client.base_url@ + "/nodes"@,
        subject matches Some(s) ==> exists|encoded: Seq<char>|
            nodes@ == client.base_url@ + "/nodes?subject="@ + encoded
                && #[trigger] ks_client::percent_decoded(encoded) == vstd::utf8::encode_utf8(s@),
{
    if let Some(s) = subject {
        let bytes = vstd::utf8::encode_utf8(s@);
        ks_client::law_percent_encoding_is_undone(bytes);
        let encoded = ks_client::percent_encoded(bytes);
        assert(ks_client::percent_decoded(encoded) == bytes);
    }
}

/// A transcript is sent under its reference, with all its turns in order.
pub proof fn law_a_transcript_is_sent_as_given<'a>(
    client: &KsClient,
    session_ref: &'a str,
    content: &'a Vec<TranscriptTurn>,
    r: SaveTranscriptRequest<'a>,
)
    requires
        call_ensures(KsClient::save_request, (client, session_ref, content), r),
    ensures
        r.session_ref@ == session_ref@,
        r.content@ == content@,
{
}

/// What came of a call: nothing came, it was refused, or it has a body.
pub open spec fn brought<T>(
    transport: Result<(u16, String), String>,
    r: Result<T, KsError>,
) -> bool {
    &&& (r matches Err(KsError::Unreachable(_))) <==> transport is Err
    &&& transport matches Err(e) ==> (r matches Err(KsError::Unreachable(m)) && m@ == e@)
    &&& transport matches Ok(answer) ==> (answer.0 / 100 != 2 ==> (r matches Err(
        KsError::Http { status, body },
    ) && status == answer.0 && body@ == answer.1@))
}

/// A transcript that was sent fares as the transport and the answer say.
pub proof fn law_sending_fares_as_its_transport<
    F: Fn(&str) -> Result<SaveTranscriptBody, String>,
>(
    client: &KsClient,
    transport: Result<(u16, String), String>,
    decode: F,
    decoded: Result<SaveTranscriptBody, String>,
    r: Result<SaveTranscriptOutcome, KsError>,
)
    requires
        call_ensures(KsClient::save_transcript::<F>, (client, transport, decode), r),
        transport matches Ok(answer) ==> laws::always(decode, answer.1@, decoded),
    ensures
        brought(transport, r),
        transport matches Ok(answer) ==> (answer.0 / 100 == 2 ==> fares(decoded, answer.1@, r)),
{
    if let Ok(answer) = transport {
        assert(text::snippet(answer.1@) =~= laws::start_of(answer.1@));
    }
}

/// A health check fares as the transport and the answer say.
pub proof fn law_a_health_check_fares_as_its_transport<
    F: Fn(&str) -> Result<HealthBody, String>,
>(
    client: &KsClient,
    transport: Result<(u16, String), String>,
    decode: F,
    decoded: Result<HealthBody, String>,
    r: Result<(), KsError>,
)
    requires
        call_ensures(KsClient::health::<F>, (client, transport, decode), r),
        transport matches Ok(answer) ==> laws::always(decode, answer.1@, decoded),
    ensures
        brought(transport, r),
        transport matches Ok(answer) ==> (answer.0 / 100 == 2 ==> lives(decoded, answer.1@, r)),
{
    if let Ok(answer) = transport {
        assert(text::snippet(answer.1@) =~= laws::start_of(answer.1@));
    }
}

/// A listing of nodes fares as the transport and the answer say.
pub proof fn law_a_listing_fares_as_its_transport<
    F: Fn(&str) -> Result<Vec<KsNode>, String>,
    G: Fn(&str) -> Result<Vec<KsNode>, String>,
>(
    client: &KsClient,
    transport: Result<(u16, String), String>,
    decode_envelope: F,
    decode_array: G,
    envelope: Result<Vec<KsNode>, String>,
    array: Result<Vec<KsNode>, String>,
    r: Result<Vec<KsNode>, KsError>,
)
    requires
        call_ensures(
            KsClient::get_nodes::<F, G>,
            (client, transport, decode_envelope, decode_array),
            r,
        ),
        transport matches Ok(answer) ==> laws::always(decode_envelope, answer.1@, envelope),
        transport matches Ok(answer) ==> laws::always(decode_array, answer.1@, array),
    ensures
        brought(transport, r),
        transport matches Ok(answer) ==> (answer.0 / 100 == 2 ==> lists(envelope, array, answer.1@, r)),
{
    if let Ok(answer) = transport {
        assert(text::snippet(answer.1@) =~= laws::start_of(answer.1@));
    }
}

/// The same holds of answers that are there already.
pub proof fn law_an_answer_is_read_by_its_status<
    F: Fn(&str) -> Result<SaveTranscriptBody, String>,
    G: Fn(&str) -> Result<HealthBody, String>,
    H: Fn(&str) -> Result<Vec<KsNode>, String>,
    I: Fn(&str) -> Result<Vec<KsNode>, String>,
>(
    client: &KsClient,
    status: u16,
    body: &str,
    decode_save: F,
    decode_health: G,
    decode_envelope: H,
    decode_array: I,
    save: Result<SaveTranscriptBody, String>,
    life: Result<HealthBody, String>,
    envelope: Result<Vec<KsNode>, String>,
    array: Result<Vec<KsNode>, String>,
    rs: Result<SaveTranscriptOutcome, KsError>,
    rh: Result<(), KsError>,
    rn: Result<Vec<KsNode>, KsError>,
)
    requires
        call_ensures(KsClient::read_saved::<F>, (client, status, body, decode_save), rs),
        call_ensures(KsClient::read_health::<G>, (client, status, body, decode_health), rh),
        call_ensures(
            KsClient::read_nodes::<H, I>,
            (client, status, body, decode_envelope, decode_array),
            rn,
        ),
        laws::always(decode_save, body@, save),
        laws::always(decode_health, body@, life),
        laws::always(decode_envelope, body@, envelope),
        laws::always(decode_array, body@, array),
    ensures
        status / 100 == 2 ==> fares(save, body@, rs) && lives(life, body@, rh) && lists(
            envelope,
            array,
            body@,
            rn,
        ),
        status / 100 != 2 ==> {
            &&& rs matches Err(KsError::Http { status: s, body: b }) && s == status && b@ == body@
            &&& rh matches Err(KsError::Http { status: s, body: b }) && s == status && b@ == body@
            &&& rn matches Err(KsError::Http { status: s, body: b }) && s == status && b@ == body@
        },
{
    assert(text::snippet(body@) =~= laws::start_of(body@));
}

} // verus!
