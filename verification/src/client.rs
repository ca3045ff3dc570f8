//! A connection to the browser backend: numbering requests, framing them, and
//! telling answers from events.
use crate::error::{json_result, ControlError, ErrorOf, ErrorView};
use crate::json::{
    as_unsigned, compact, count, field, fields_map, json_bytes, no_fields, object, parse_json,
    parsed, Fields, Json, JsonView,
};
use crate::protocol::{words, MAX_BACKEND_FRAME_BYTES};
use std::collections::VecDeque;
use vstd::prelude::*;
use vstd::utf8::encode_utf8;

verus! {

broadcast use vstd::string::group_string_axioms;

/// The state of a connection.
#[derive(Debug)]
pub struct IabClient {
    /// The number of the next request.
    pub next_id: u64,
    pub session_id: String,
    pub turn_id: String,
    pub socket_path: Vec<u8>,
    /// Messages that answer no request, oldest first.
    pub events: VecDeque<Json>,
}

/// What the state of a connection says.
pub struct ClientView {
    pub next_id: u64,
    pub session_id: Seq<char>,
    pub turn_id: Seq<char>,
    pub socket_path: Seq<u8>,
    pub events: Seq<JsonView>,
}

impl View for IabClient {
    type V = ClientView;

    open spec fn view(&self) -> ClientView {
        ClientView {
            next_id: self.next_id,
            session_id: self.session_id@,
            turn_id: self.turn_id@,
            socket_path: self.socket_path@,
            events: self.events@.map_values(|j: Json| j@),
        }
    }
}

/// A request on its way: its number, and the bytes to write.
#[derive(Debug)]
pub struct Frame {
    pub id: u64,
    pub bytes: Vec<u8>,
}

/// What a request carries besides its own parameters: the session, the turn,
/// and that the session is live.
pub open spec fn addressed(client: ClientView, params: Map<Seq<char>, JsonView>) -> Map<
    Seq<char>,
    JsonView,
> {
    params.insert("session_id"@, words(client.session_id)).insert(
        "turn_id"@,
        words(client.turn_id),
    ).insert("session_context"@, words("live"@))
}

/// The document of the next request of a connection.
pub open spec fn request_document(
    client: ClientView,
    method: Seq<char>,
    params: Map<Seq<char>, JsonView>,
) -> JsonView {
    object(
        no_fields().push(("jsonrpc"@, words("2.0"@))).push(("id"@, count(client.next_id))).push(
            ("method"@, words(method)),
        ).push(("params"@, JsonView::Object(addressed(client, params)))),
    )
}

/// The bytes of the next request of a connection, behind its header.
pub open spec fn request_payload(
    client: ClientView,
    method: Seq<char>,
    params: Map<Seq<char>, JsonView>,
) -> Seq<u8> {
    encode_utf8(compact(request_document(client, method, params)))
}

/// The four bytes of a number below two to the power of 32, the lowest first.
pub open spec fn header(n: nat) -> Seq<u8> {
    Seq::empty().push((n % 256) as u8).push((n / 256 % 256) as u8).push(
        (n / 65536 % 256) as u8,
    ).push((n / 16777216 % 256) as u8)
}

/// The number that four bytes stand for, the lowest first.
pub open spec fn header_value(h: Seq<u8>) -> nat {
    (h[0] + 256 * h[1] + 65536 * h[2] + 16777216 * h[3]) as nat
}

/// The frame that carries a payload.
pub open spec fn framed(payload: Seq<u8>) -> Seq<u8> {
    header(payload.len()) + payload
}

/// What becomes of a request: the connection after it, and its frame or an
/// error.
pub open spec fn requested(client: ClientView, method: Seq<char>, params: JsonView) -> (
    ClientView,
    Result<(u64, Seq<u8>), ErrorView>,
) {
    match params {
        JsonView::Object(fields) => {
            let after = ClientView { next_id: (client.next_id + 1) as u64, ..client };
            let payload = request_payload(client, method, fields);
            if payload.len() > MAX_BACKEND_FRAME_BYTES {
                (after, Err(ErrorOf::RequestTooLarge))
            } else {
                (after, Ok((client.next_id, framed(payload))))
            }
        },
        _ => (client, Err(ErrorOf::ParamsNotObject)),
    }
}

/// How many bytes follow a header.
pub open spec fn announced(h: Seq<u8>) -> Result<usize, ErrorView> {
    let n = header_value(h);
    if n > MAX_BACKEND_FRAME_BYTES {
        Err(ErrorOf::ResponseTooLarge(n as u64))
    } else {
        Ok(n as usize)
    }
}

/// What a message means to the request `id`: an event to be kept, the error
/// that the backend answers with, or the result.
pub open spec fn accepted(client: ClientView, id: u64, method: Seq<char>, message: JsonView) -> (
    ClientView,
    Result<Option<JsonView>, ErrorView>,
) {
    if as_unsigned(field(message, "id"@)) != Some(id) {
        (ClientView { events: client.events.push(message), ..client }, Ok(None))
    } else {
        match field(message, "error"@) {
            Some(error) => (client, Err(ErrorOf::Refused { method, error })),
            None => (
                client,
                Ok(
                    Some(
                        match field(message, "result"@) {
                            Some(result) => result,
                            None => JsonView::Null,
                        },
                    ),
                ),
            ),
        }
    }
}

/// The message that the bytes of a frame hold.
pub open spec fn message_of(body: Seq<u8>) -> Result<JsonView, ErrorView> {
    match parsed(body) {
        Ok(message) => Ok(message),
        Err(words) => Err(ErrorOf::Outside(words)),
    }
}

/// What the bytes of a message mean to the request `id`.
pub open spec fn received(client: ClientView, id: u64, method: Seq<char>, body: Seq<u8>) -> (
    ClientView,
    Result<Option<JsonView>, ErrorView>,
) {
    match message_of(body) {
        Ok(message) => accepted(client, id, method, message),
        Err(e) => (client, Err(e)),
    }
}

/// The view of what a message meant.
pub open spec fn answer_view(r: Result<Option<Json>, ControlError>) -> Result<
    Option<JsonView>,
    ErrorView,
> {
    match r {
        Ok(Some(j)) => Ok(Some(j@)),
        Ok(None) => Ok(None),
        Err(e) => Err(e@),
    }
}

/// The exec form of [`header`].
fn header_of(n: usize) -> (h: Vec<u8>)
    ensures
        h@ == header(n as nat),
{
    let mut h: Vec<u8> = Vec::new();
    h.push((n % 256) as u8);
    h.push((n / 256 % 256) as u8);
    h.push((n / 65536 % 256) as u8);
    h.push((n / 16777216 % 256) as u8);
    h
}

/// Four bytes of a number give it back.
proof fn lemma_header(n: nat)
    requires
        n < 4294967296,
    ensures
        header_value(header(n)) == n,
{
    let a = n / 256;
    let b = a / 256;
    let c = b / 256;
    assert(n / 65536 == b && n / 16777216 == c && c < 256) by (nonlinear_arith)
        requires
            a == n / 256,
            b == a / 256,
            c == b / 256,
            n < 4294967296,
    ;
}

impl IabClient {
    /// A connection over which nothing has gone yet.
    pub fn new(socket_path: Vec<u8>, session_id: String, turn_id: String) -> (client: IabClient)
        ensures
            client@ == (ClientView {
                next_id: 1,
                session_id: session_id@,
                turn_id: turn_id@,
                socket_path: socket_path@,
                events: Seq::empty(),
            }),
    {
        let client = IabClient {
            next_id: 1,
            session_id,
            turn_id,
            socket_path,
            events: VecDeque::new(),
        };
        assert(client@.events =~= Seq::<JsonView>::empty());
        client
    }

    /// Numbers and frames a request.
    pub fn request(&mut self, method: &str, params: Json) -> (r: Result<Frame, ControlError>)
        requires
            old(self).next_id < u64::MAX,
        ensures
            (
                final(self)@,
                match r {
                    Ok(frame) => Ok((frame.id, frame.bytes@)),
                    Err(e) => Err(e@),
                },
            ) == requested(old(self)@, method@, params@),
    {
        broadcast use crate::json::lemma_json_view;

        let ghost before = self@;
        let ghost whole = params@;
        let mut fields = match params {
            Json::Object(fields) => fields,
            _ => return Err(ErrorOf::ParamsNotObject),
        };
        let ghost given = crate::json::fields_view(fields@);
        fields.push(("session_id".to_owned(), Json::text(&self.session_id)));
        fields.push(("turn_id".to_owned(), Json::text(&self.turn_id)));
        fields.push(("session_context".to_owned(), Json::text("live")));
        proof {
            let one = given.push(("session_id"@, words(before.session_id)));
            let two = one.push(("turn_id"@, words(before.turn_id)));
            let three = two.push(("session_context"@, words("live"@)));
            assert(crate::json::fields_view(fields@) =~= three);
            assert(one.drop_last() =~= given);
            assert(two.drop_last() =~= one);
            assert(three.drop_last() =~= two);
            assert(fields_map(one) == fields_map(given).insert("session_id"@, one.last().1));
            assert(fields_map(two) == fields_map(one).insert("turn_id"@, two.last().1));
            assert(fields_map(three) == addressed(before, whole->Object_0));
        }
        let id = self.next_id;
        self.next_id = id + 1;
        assert(self@.events =~= before.events);
        let document = Fields::new().with("jsonrpc", Json::text("2.0")).with(
            "id",
            Json::unsigned(id),
        ).with("method", Json::text(method)).with("params", Json::Object(fields)).object();
        let mut payload = json_bytes(&document);
        if payload.len() > MAX_BACKEND_FRAME_BYTES {
            return Err(ErrorOf::RequestTooLarge);
        }
        let mut bytes = header_of(payload.len());
        bytes.append(&mut payload);
        Ok(Frame { id, bytes })
    }

    /// How many bytes follow a header.
    pub fn frame_length(h: [u8; 4]) -> (r: Result<usize, ControlError>)
        ensures
            (match r {
                Ok(n) => Ok(n),
                Err(e) => Err(e@),
            }) == announced(h@),
    {
        let n: u64 = h[0] as u64 + 256 * (h[1] as u64) + 65536 * (h[2] as u64) + 16777216 * (
        h[3] as u64);
        if n > MAX_BACKEND_FRAME_BYTES as u64 {
            Err(ErrorOf::ResponseTooLarge(n))
        } else {
            Ok(n as usize)
        }
    }

    /// Reads the message that a frame holds.
    pub fn read_message(body: &[u8]) -> (r: Result<Json, ControlError>)
        ensures
            json_result(r) == message_of(body@),
    {
        match parse_json(body) {
            Ok(message) => Ok(message),
            Err(words) => Err(ErrorOf::Outside(words)),
        }
    }

    /// Takes in a message while the request `id` waits for its answer: `None`
    /// where it is an event, which is kept.
    pub fn accept(&mut self, id: u64, method: &str, message: Json) -> (r: Result<
        Option<Json>,
        ControlError,
    >)
        ensures
            (final(self)@, answer_view(r)) == accepted(old(self)@, id, method@, message@),
    {
        let ghost before = self@;
        let own = match message.get("id") {
            Some(n) => n.as_u64() == Some(id),
            None => false,
        };
        if !own {
            let ghost view = message@;
            self.events.push_back(message);
            assert(self@.events =~= before.events.push(view));
            return Ok(None);
        }
        if message.get("error").is_some() {
            let error = match message.take("error") {
                Some(error) => error,
                None => Json::Null,
            };
            return Err(ErrorOf::Refused { method: method.to_owned(), error });
        }
        match message.take("result") {
            Some(result) => Ok(Some(result)),
            None => Ok(Some(Json::Null)),
        }
    }

    /// Takes in the bytes of a message while the request `id` waits for its
    /// answer.
    pub fn receive(&mut self, id: u64, method: &str, body: &[u8]) -> (r: Result<
        Option<Json>,
        ControlError,
    >)
        ensures
            (final(self)@, answer_view(r)) == received(old(self)@, id, method@, body@),
    {
        match IabClient::read_message(body) {
            Ok(message) => self.accept(id, method, message),
            Err(e) => Err(e),
        }
    }

    /// The oldest event that was kept, which is then no longer kept.
    pub fn next_event(&mut self) -> (event: Option<Json>)
        ensures
            old(self)@.events.len() == 0 ==> event is None && final(self)@ == old(self)@,
            old(self)@.events.len() > 0 ==> event is Some && event->0@ == old(self)@.events[0]
                && final(self)@ == (ClientView {
                events: old(self)@.events.drop_first(),
                ..old(self)@
            }),
    {
        let ghost before = self@;
        let event = self.events.pop_front();
        assert(before.events.len() > 0 ==> self@.events =~= before.events.drop_first());
        assert(before.events.len() == 0 ==> self@.events =~= before.events);
        event
    }
}

/// A frame gives back what was framed: its header announces the length of the
/// payload, which follows it.
pub proof fn law_frame_round_trip(payload: Seq<u8>)
    requires
        payload.len() <= MAX_BACKEND_FRAME_BYTES,
    ensures
        announced(framed(payload).take(4)) == Ok::<usize, ErrorView>(payload.len() as usize),
        framed(payload).skip(4) == payload,
{
    lemma_header(payload.len());
    assert(framed(payload).take(4) =~= header(payload.len()));
    assert(framed(payload).skip(4) =~= payload);
}

/// Whatever a header says, no more bytes are taken in than a frame may hold.
pub proof fn law_frames_are_bounded(h: Seq<u8>)
    ensures
        announced(h) matches Ok(n) ==> n <= MAX_BACKEND_FRAME_BYTES,
{
}

/// Requests are numbered in turn: a request bears the number that the
/// connection had next, and the connection then has the one after it.
pub proof fn law_requests_are_numbered(client: ClientView, method: Seq<char>, params: JsonView)
    requires
        client.next_id < u64::MAX,
        params is Object,
    ensures
        requested(client, method, params).0.next_id == client.next_id + 1,
        requested(client, method, params).1 matches Ok(frame) ==> frame.0 == client.next_id,
        field(request_document(client, method, params->Object_0), "id"@) == Some(
            count(client.next_id),
        ),
{
    reveal_strlit("id");
    reveal_strlit("method");
    reveal_strlit("params");
    let one = no_fields().push(("jsonrpc"@, words("2.0"@)));
    let two = one.push(("id"@, count(client.next_id)));
    let three = two.push(("method"@, words(method)));
    let four = three.push(
        ("params"@, JsonView::Object(addressed(client, params->Object_0))),
    );
    assert("id"@.len() != "method"@.len() && "id"@.len() != "params"@.len());
    assert forall|k: int| 1 < k < four.len() implies (#[trigger] four[k]).0 != four[1].0 by {
        assert(k == 2 || k == 3);
    }
    crate::json::lemma_fields_last(four, 1);
}

/// Every request carries the session and the turn of its connection, whatever
/// its own parameters say.
pub proof fn law_requests_are_addressed(client: ClientView, params: Map<Seq<char>, JsonView>)
    ensures
        addressed(client, params)["session_id"@] == words(client.session_id),
        addressed(client, params)["turn_id"@] == words(client.turn_id),
        addressed(client, params)["session_context"@] == words("live"@),
        forall|key: Seq<char>|
            params.dom().contains(key) && key != "session_id"@ && key != "turn_id"@ && key
                != "session_context"@ ==> #[trigger] addressed(client, params)[key] == params[key],
{
    reveal_strlit("session_id");
    reveal_strlit("turn_id");
    reveal_strlit("session_context");
    assert("session_id"@.len() == 10);
    assert("turn_id"@.len() == 7);
    assert("session_context"@.len() == 15);
}

/// Whether a message is not the answer to a request.
pub open spec fn is_event(message: JsonView, id: u64) -> bool {
    as_unsigned(field(message, "id"@)) != Some(id)
}

/// A connection after it took in some messages while a request waited.
pub open spec fn taken_in(
    client: ClientView,
    id: u64,
    method: Seq<char>,
    messages: Seq<JsonView>,
) -> ClientView
    decreases messages.len(),
{
    if messages.len() == 0 {
        client
    } else {
        accepted(taken_in(client, id, method, messages.drop_last()), id, method, messages.last()).0
    }
}

/// Messages that come while a request waits are not lost: those that do not
/// answer it are kept behind the others, in the order in which they came.
pub proof fn law_events_are_kept(
    client: ClientView,
    id: u64,
    method: Seq<char>,
    messages: Seq<JsonView>,
)
    requires
        forall|k: int| 0 <= k < messages.len() ==> is_event(#[trigger] messages[k], id),
    ensures
        taken_in(client, id, method, messages) == (ClientView {
            events: client.events + messages,
            ..client
        }),
    decreases messages.len(),
{
    if messages.len() == 0 {
        assert(client.events + messages =~= client.events);
    } else {
        let before = messages.drop_last();
        assert forall|k: int| 0 <= k < before.len() implies is_event(#[trigger] before[k], id) by {
            assert(before[k] == messages[k]);
        }
        law_events_are_kept(client, id, method, before);
        assert(is_event(messages[messages.len() - 1], id));
        assert((client.events + before).push(messages.last()) =~= client.events + messages);
    }
}

/// The answer to a request leaves the events alone, and is taken for the
/// result unless it bears an error.
pub proof fn law_answers_are_told(
    client: ClientView,
    id: u64,
    method: Seq<char>,
    message: JsonView,
)
    requires
        !is_event(message, id),
    ensures
        accepted(client, id, method, message).0 == client,
        accepted(client, id, method, message).1 matches Ok(answer) ==> answer is Some,
        accepted(client, id, method, message).1 is Err <==> field(message, "error"@) is Some,
{
}

/// A request says all that it is to say: the frame holds, behind its header, a
/// document with the version of the protocol, the number, the method and the
/// parameters, these with the session and the turn. Only one that is too large
/// is not sent, and parameters that are no object change nothing.
pub proof fn law_request_is_whole(client: ClientView, method: Seq<char>, params: JsonView)
    ensures
        params matches JsonView::Object(own) ==> {
            let document = request_document(client, method, own);
            let payload = encode_utf8(compact(document));
            &&& field(document, "jsonrpc"@) == Some(JsonView::Text("2.0"@))
            &&& field(document, "id"@) == Some(count(client.next_id))
            &&& field(document, "method"@) == Some(JsonView::Text(method))
            &&& field(document, "params"@) == Some(JsonView::Object(addressed(client, own)))
            &&& requested(client, method, params).1 == if payload.len() <= 67108864 {
                Ok::<(u64, Seq<u8>), ErrorView>((client.next_id, framed(payload)))
            } else {
                Err(ErrorOf::RequestTooLarge)
            }
            &&& requested(client, method, params).0 == (ClientView {
                next_id: (client.next_id + 1) as u64,
                ..client
            })
        },
        !(params is Object) ==> requested(client, method, params) == (
            client,
            Err::<(u64, Seq<u8>), ErrorView>(ErrorOf::ParamsNotObject),
        ),
{
    broadcast use crate::json::lemma_last_field;

    reveal_strlit("jsonrpc");
    assert("jsonrpc"@.len() == 7);
    reveal_strlit("id");
    assert("id"@.len() == 2);
    reveal_strlit("method");
    assert("method"@.len() == 6);
    reveal_strlit("params");
    assert("params"@.len() == 6);
    assert("method"@[0] != "params"@[0]);
}

/// A frame that says it is larger than frames may be is not taken in, and its
/// size is told.
pub proof fn law_large_frame_is_refused(n: nat)
    requires
        67108864 < n < 4294967296,
    ensures
        announced(header(n)) == Err::<usize, ErrorView>(ErrorOf::ResponseTooLarge(n as u64)),
{
    lemma_header(n);
}

/// The answer to a request is its result, or null where it has none; the error
/// of the backend is told with the method that was refused. Bytes that are no
/// document are an error, and change nothing.
pub proof fn law_answer_is_the_result(
    client: ClientView,
    id: u64,
    method: Seq<char>,
    message: JsonView,
    v: JsonView,
    body: Seq<u8>,
)
    ensures
        field(message, "id"@) == Some(count(id)) && field(message, "error"@) == Some(v) ==> accepted(
            client,
            id,
            method,
            message,
        ) == (client, Err::<Option<JsonView>, ErrorView>(ErrorOf::Refused { method, error: v })),
        field(message, "id"@) == Some(count(id)) && field(message, "error"@) is None && field(
            message,
            "result"@,
        ) == Some(v) ==> accepted(client, id, method, message) == (
            client,
            Ok::<Option<JsonView>, ErrorView>(Some(v)),
        ),
        field(message, "id"@) == Some(count(id)) && field(message, "error"@) is None && field(
            message,
            "result"@,
        ) is None ==> accepted(client, id, method, message) == (
            client,
            Ok::<Option<JsonView>, ErrorView>(Some(JsonView::Null)),
        ),
        parsed(body) matches Ok(read) ==> received(client, id, method, body) == accepted(
            client,
            id,
            method,
            read,
        ),
        parsed(body) matches Err(told) ==> received(client, id, method, body) == (
            client,
            Err::<Option<JsonView>, ErrorView>(ErrorOf::Outside(told)),
        ),
{
}

/// A header has four bytes, the lowest first.
pub proof fn law_header_has_lowest_first(n: nat)
    requires
        n < 4294967296,
    ensures
        header(n).len() == 4,
        header(n)[0] + 256 * header(n)[1] + 65536 * header(n)[2] + 16777216 * header(n)[3] == n,
{
    lemma_header(n);
}

} // verus!
