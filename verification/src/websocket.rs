use crate::encode::{encode_envelope, spec_envelope_text, strings_view};
use crate::error::TonApiResult;
use crate::json::{json_of, obj_get, parse_json, spec_lookup, JsonValue};
use crate::server::Server;
use crate::ws::{
    WebSocketFacade, WebSocketFacadeConfig, WebSocketReadFacade, WebSocketSplitFacade,
    WebSocketWriteFacade,
};
use vstd::prelude::*;

verus! {

/// Configuration for a new client: which server endpoint to connect to.
pub struct WebSocketConfig {
    pub server: Server,
}

/// Parameters carried by a trace event: the account addresses the event
/// touches, in the order the server sent them, and the trace hash.
#[derive(Debug)]
pub struct TraceParams {
    pub accounts: Vec<String>,
    pub hash: String,
}

/// An inbound protocol message, keyed by the `method` discriminant of the
/// frame it was decoded from. New variants may be added without changing
/// the read path's control flow.
#[derive(Debug)]
pub enum WebSocketMessage {
    /// Acknowledgment of a subscription request: the echoed request id, if
    /// any, the protocol version string, and a result string.
    SubscribeTrace { id: Option<u64>, jsonrpc: String, result: String },
    /// A trace event with its parameters.
    Trace { jsonrpc: String, params: TraceParams },
}

/// The outcome of receiving one frame: a recognized protocol message, or
/// the original text preserved verbatim when its shape was not recognized.
#[derive(Debug)]
pub enum ReceiveResult {
    /// A frame whose shape was recognized and decoded.
    Message(WebSocketMessage),
    /// A frame whose shape was not recognized; decoding failure is not an
    /// error, the payload is handed over unchanged.
    Raw(String),
}

/// The mathematical value of an inbound protocol message.
#[verifier::ext_equal]
pub enum MessageModel {
    Ack { id: Option<u64>, jsonrpc: Seq<char>, result: Seq<char> },
    TraceEvent { jsonrpc: Seq<char>, accounts: Seq<Seq<char>>, hash: Seq<char> },
}

/// The mathematical value of a receive outcome.
#[verifier::ext_equal]
pub enum OutcomeModel {
    Message(MessageModel),
    Raw(Seq<char>),
}

/// The model of a message value.
pub open spec fn msg_model(m: WebSocketMessage) -> MessageModel {
    match m {
        WebSocketMessage::SubscribeTrace { id, jsonrpc, result } => (MessageModel::Ack {
            id,
            jsonrpc: jsonrpc@,
            result: result@,
        }),
        WebSocketMessage::Trace { jsonrpc, params } => (MessageModel::TraceEvent {
            jsonrpc: jsonrpc@,
            accounts: strings_view(params.accounts),
            hash: params.hash@,
        }),
    }
}

/// The model of a receive outcome.
pub open spec fn outcome_model(o: ReceiveResult) -> OutcomeModel {
    match o {
        ReceiveResult::Message(m) => OutcomeModel::Message(msg_model(m)),
        ReceiveResult::Raw(t) => OutcomeModel::Raw(t@),
    }
}

/// The string each array element holds, for an array known to hold only strings.
pub open spec fn spec_string_items(a: Seq<JsonValue>) -> Seq<Seq<char>> {
    a.map_values(
        |v: JsonValue|
            match v {
                JsonValue::Str(s) => s@,
                _ => Seq::<char>::empty(),
            },
    )
}

/// Whether every element of the array is a string.
pub open spec fn spec_all_strings(a: Seq<JsonValue>) -> bool {
    forall|i: int| 0 <= i < a.len() ==> a[i] is Str
}

/// The subscription-acknowledgment message an object decodes to, if its
/// fields have the acknowledged shape: string `jsonrpc` and `result`
/// members, and an `id` member that is absent, null, or an unsigned
/// integer. Any other shape is not an acknowledgment.
pub open spec fn spec_ack_of(fields: Seq<(String, JsonValue)>) -> Option<MessageModel> {
    match (spec_lookup(fields, "jsonrpc"@), spec_lookup(fields, "result"@)) {
        (Some(JsonValue::Str(j)), Some(JsonValue::Str(r))) => match spec_lookup(fields, "id"@) {
            None => Some(MessageModel::Ack { id: None, jsonrpc: j@, result: r@ }),
            Some(JsonValue::Null) => Some(MessageModel::Ack { id: None, jsonrpc: j@, result: r@ }),
            Some(JsonValue::UInt(u)) => Some(
                MessageModel::Ack { id: Some(u), jsonrpc: j@, result: r@ },
            ),
            Some(_) => None,
        },
        _ => None,
    }
}

/// The trace-event message an object decodes to, if its fields have the
/// trace shape: a string `jsonrpc` member and a `params` object holding an
/// `accounts` array of strings and a string `hash` member.
pub open spec fn spec_trace_of(fields: Seq<(String, JsonValue)>) -> Option<MessageModel> {
    match (spec_lookup(fields, "jsonrpc"@), spec_lookup(fields, "params"@)) {
        (Some(JsonValue::Str(j)), Some(JsonValue::Obj(p))) => match (
            spec_lookup(p@, "accounts"@),
            spec_lookup(p@, "hash"@),
        ) {
            (Some(JsonValue::Arr(accs)), Some(JsonValue::Str(h))) => if spec_all_strings(accs@) {
                Some(
                    MessageModel::TraceEvent {
                        jsonrpc: j@,
                        accounts: spec_string_items(accs@),
                        hash: h@,
                    },
                )
            } else {
                None
            },
            _ => None,
        },
        _ => None,
    }
}

/// The protocol message a JSON document decodes to, if any: the document
/// must be an object whose `method` member is a recognized discriminant,
/// and whose remaining members fit that variant's shape.
pub open spec fn spec_classify(v: JsonValue) -> Option<MessageModel> {
    match v {
        JsonValue::Obj(fields) => match spec_lookup(fields@, "method"@) {
            Some(JsonValue::Str(name)) => if name@ == "subscribe_trace"@ {
                spec_ack_of(fields@)
            } else if name@ == "trace"@ {
                spec_trace_of(fields@)
            } else {
                None
            },
            _ => None,
        },
        _ => None,
    }
}

/// What receiving a textual frame yields: the decoded protocol message when
/// the text is JSON of a recognized shape, and otherwise the original text,
/// preserved unchanged. Decoding failure never surfaces as an error.
pub open spec fn spec_decode(text: Seq<char>) -> OutcomeModel {
    match json_of(text) {
        Some(v) => match spec_classify(v) {
            Some(m) => OutcomeModel::Message(m),
            None => OutcomeModel::Raw(text),
        },
        None => OutcomeModel::Raw(text),
    }
}

/// Extract the strings of an array, failing on the first element that is
/// not a string.
fn extract_strings(items: &Vec<JsonValue>) -> (r: Option<Vec<String>>)
    ensures
        match r {
            Some(ss) => spec_all_strings(items@) && strings_view(ss) == spec_string_items(items@),
            None => !spec_all_strings(items@),
        },
{
    let mut out: Vec<String> = Vec::new();
    let mut i: usize = 0;
    while i < items.len()
        invariant
            0 <= i <= items@.len(),
            out@.len() == i,
            forall|k: int| 0 <= k < i ==> items@[k] is Str,
            forall|k: int| 0 <= k < i ==> out@[k]@ == spec_string_items(items@)[k],
        decreases items@.len() - i,
    {
        match &items[i] {
            JsonValue::Str(s) => {
                out.push(s.clone());
            },
            _ => {
                return None;
            },
        }
        i = i + 1;
    }
    proof {
        assert(strings_view(out) =~= spec_string_items(items@));
    }
    Some(out)
}

/// Decode an object with the subscription-acknowledgment discriminant.
fn extract_ack(fields: &Vec<(String, JsonValue)>) -> (r: Option<WebSocketMessage>)
    ensures
        match r {
            Some(m) => spec_ack_of(fields@) == Some(msg_model(m)),
            None => spec_ack_of(fields@) is None,
        },
{
    let jv = obj_get(fields, "jsonrpc");
    let rv = obj_get(fields, "result");
    match (jv, rv) {
        (Some(JsonValue::Str(j)), Some(JsonValue::Str(res))) => {
            match obj_get(fields, "id") {
                None => Some(
                    WebSocketMessage::SubscribeTrace {
                        id: None,
                        jsonrpc: j.clone(),
                        result: res.clone(),
                    },
                ),
                Some(JsonValue::Null) => Some(
                    WebSocketMessage::SubscribeTrace {
                        id: None,
                        jsonrpc: j.clone(),
                        result: res.clone(),
                    },
                ),
                Some(JsonValue::UInt(u)) => Some(
                    WebSocketMessage::SubscribeTrace {
                        id: Some(*u),
                        jsonrpc: j.clone(),
                        result: res.clone(),
                    },
                ),
                Some(_) => None,
            }
        },
        _ => None,
    }
}

/// Decode an object with the trace-event discriminant.
fn extract_trace(fields: &Vec<(String, JsonValue)>) -> (r: Option<WebSocketMessage>)
    ensures
        match r {
            Some(m) => spec_trace_of(fields@) == Some(msg_model(m)),
            None => spec_trace_of(fields@) is None,
        },
{
    let jv = obj_get(fields, "jsonrpc");
    let pv = obj_get(fields, "params");
    match (jv, pv) {
        (Some(JsonValue::Str(j)), Some(JsonValue::Obj(p))) => {
            let av = obj_get(p, "accounts");
            let hv = obj_get(p, "hash");
            match (av, hv) {
                (Some(JsonValue::Arr(accs)), Some(JsonValue::Str(h))) => {
                    match extract_strings(accs) {
                        Some(accounts) => Some(
                            WebSocketMessage::Trace {
                                jsonrpc: j.clone(),
                                params: TraceParams { accounts, hash: h.clone() },
                            },
                        ),
                        None => None,
                    }
                },
                _ => None,
            }
        },
        _ => None,
    }
}

/// Decode a JSON document into a protocol message, if its shape is recognized.
pub fn classify(v: &JsonValue) -> (r: Option<WebSocketMessage>)
    ensures
        match r {
            Some(m) => spec_classify(*v) == Some(msg_model(m)),
            None => spec_classify(*v) is None,
        },
{
    match v {
        JsonValue::Obj(fields) => {
            match obj_get(fields, "method") {
                Some(JsonValue::Str(name)) => {
                    let ack_tag = String::from_str("subscribe_trace");
                    let trace_tag = String::from_str("trace");
                    if *name == ack_tag {
                        extract_ack(fields)
                    } else if *name == trace_tag {
                        extract_trace(fields)
                    } else {
                        None
                    }
                },
                _ => None,
            }
        },
        _ => None,
    }
}

/// Decode one textual frame: a recognized JSON shape becomes a message,
/// anything else comes back as the original text, unchanged.
pub fn decode_frame(text: String) -> (r: ReceiveResult)
    ensures
        outcome_model(r) == spec_decode(text@),
{
    match parse_json(text.as_str()) {
        Some(v) => match classify(&v) {
            Some(m) => ReceiveResult::Message(m),
            None => ReceiveResult::Raw(text),
        },
        None => ReceiveResult::Raw(text),
    }
}

/// Route what the transport handed over: the end of the stream stays the
/// end of the stream, and a textual frame is decoded.
pub fn route_frame(frame: Option<String>) -> (r: Option<ReceiveResult>)
    ensures
        frame is None ==> r is None,
        frame matches Some(text) ==> (r matches Some(out) && outcome_model(out) == spec_decode(
            text@,
        )),
{
    match frame {
        Some(text) => Some(decode_frame(text)),
        None => None,
    }
}

/// The read half of a split client: owns the transport's read half and
/// classifies every inbound frame.
pub struct WebSocketSplitReadClient<F: WebSocketReadFacade> {
    read_facade: F,
}

impl<F: WebSocketReadFacade> WebSocketSplitReadClient<F> {
    /// Wait for the next frame and decode it. The end of the stream is
    /// `Ok(None)`; an unrecognized frame is `Ok(Some(Raw(..)))`, never an
    /// error; transport failures propagate as errors.
    pub fn recv(&mut self) -> (r: TonApiResult<Option<ReceiveResult>>)
        ensures
            r matches Ok(Some(out)) ==> exists|t: Seq<char>| outcome_model(out) == spec_decode(t),
    {
        match self.read_facade.recv() {
            Ok(frame) => {
                let ghost t: Seq<char> = if frame is Some {
                    frame->0@
                } else {
                    Seq::<char>::empty()
                };
                let routed = route_frame(frame);
                proof {
                    if routed is Some {
                        assert(outcome_model(routed->0) == spec_decode(t));
                    }
                }
                Ok(routed)
            },
            Err(e) => Err(e),
        }
    }
}

/// The write half of a split client: owns the transport's write half and
/// the request id counter, and serializes outgoing JSON-RPC envelopes.
pub struct WebSocketSplitWriteClient<F: WebSocketWriteFacade> {
    increment: u64,
    write_facade: F,
    issued: Ghost<Seq<u64>>,
    handed_over: Ghost<Seq<Seq<char>>>,
}

impl<F: WebSocketWriteFacade> WebSocketSplitWriteClient<F> {
    /// The value the counter holds now: the next id to be issued.
    pub closed spec fn spec_id_counter(&self) -> u64 {
        self.increment
    }

    /// Every id issued by this half so far, in issue order.
    pub closed spec fn spec_issued(&self) -> Seq<u64> {
        self.issued@
    }

    /// Every textual frame this half has handed to its transport so far,
    /// in send order. (What reached the wire is the transport's business;
    /// this is what was given to it.)
    pub closed spec fn spec_handed_over(&self) -> Seq<Seq<char>> {
        self.handed_over@
    }

    /// The ids issued so far are exactly the counter values walked through:
    /// `0, 1, ..., counter - 1`, in that order. Established at construction
    /// and preserved by every operation.
    pub open spec fn wf(&self) -> bool {
        self.spec_issued() == Seq::new(self.spec_id_counter() as nat, |i: int| i as u64)
    }

    /// The next id that would be issued. Callers that cannot rule out
    /// counter exhaustion check this before asking for a fresh id.
    pub fn id_counter(&self) -> (r: u64)
        ensures
            r == self.spec_id_counter(),
    {
        self.increment
    }

    /// Issue a fresh request id: the counter's current value, after which
    /// the counter moves up by one. Ids are strictly increasing and never
    /// reused for the lifetime of this half.
    pub fn next_id(&mut self) -> (id: u64)
        requires
            old(self).spec_id_counter() < u64::MAX,
        ensures
            id == old(self).spec_id_counter(),
            final(self).spec_id_counter() == old(self).spec_id_counter() + 1,
            final(self).spec_issued() == old(self).spec_issued().push(id),
            final(self).spec_handed_over() == old(self).spec_handed_over(),
            old(self).wf() ==> final(self).wf(),
    {
        let id = self.increment;
        self.increment = self.increment + 1;
        proof {
            self.issued@ = self.issued@.push(id);
            if old(self).wf() {
                assert(self.issued@ =~= Seq::new(self.increment as nat, |i: int| i as u64));
            }
        }
        id
    }

    /// Build the request envelope for a method call, issuing a fresh id.
    pub fn request_body_for<M: WebSocketMethod>(&mut self, method: &M) -> (body:
        WebSocketMethodRequestBody)
        requires
            old(self).spec_id_counter() < u64::MAX,
        ensures
            body.id == old(self).spec_id_counter(),
            body.jsonrpc@ == method.spec_jsonrpc(),
            body.method@ == method.spec_method(),
            strings_view(body.params) == method.spec_params(),
            final(self).spec_id_counter() == old(self).spec_id_counter() + 1,
            final(self).spec_issued() == old(self).spec_issued().push(body.id),
            final(self).spec_handed_over() == old(self).spec_handed_over(),
            old(self).wf() ==> final(self).wf(),
    {
        let id = self.next_id();
        WebSocketMethodRequestBody {
            id,
            jsonrpc: method.jsonrpc(),
            method: method.method(),
            params: method.params(),
        }
    }

    /// Build and send the JSON-RPC envelope for a method call under a fresh
    /// id. Whatever the transport answers, exactly one id was consumed.
    pub fn execute<M: WebSocketMethod>(&mut self, method: &M) -> (r: TonApiResult<()>)
        requires
            old(self).spec_id_counter() < u64::MAX,
        ensures
            final(self).spec_id_counter() == old(self).spec_id_counter() + 1,
            final(self).spec_issued() == old(self).spec_issued().push(
                old(self).spec_id_counter(),
            ),
            final(self).spec_handed_over() == old(self).spec_handed_over().push(
                spec_envelope_text(
                    old(self).spec_id_counter(),
                    method.spec_jsonrpc(),
                    method.spec_method(),
                    method.spec_params(),
                ),
            ),
            old(self).wf() ==> final(self).wf(),
    {
        let body = self.request_body_for(method);
        let text = body.encode();
        self.send(text)
    }

    /// Send one textual frame verbatim, bypassing envelope construction.
    /// The id counter is untouched.
    pub fn send(&mut self, message: String) -> (r: TonApiResult<()>)
        ensures
            final(self).spec_id_counter() == old(self).spec_id_counter(),
            final(self).spec_issued() == old(self).spec_issued(),
            final(self).spec_handed_over() == old(self).spec_handed_over().push(message@),
            old(self).wf() ==> final(self).wf(),
    {
        proof {
            self.handed_over@ = self.handed_over@.push(message@);
        }
        self.write_facade.send(message)
    }
}

/// A JSON-RPC request envelope: constructed per call, serialized, sent,
/// and never persisted.
pub struct WebSocketMethodRequestBody {
    pub id: u64,
    pub jsonrpc: String,
    pub method: String,
    pub params: Vec<String>,
}

impl WebSocketMethodRequestBody {
    /// Serialize this envelope to its JSON text.
    pub fn encode(&self) -> (r: String)
        ensures
            r@ == spec_envelope_text(self.id, self.jsonrpc@, self.method@, strings_view(self.params)),
    {
        encode_envelope(self.id, self.jsonrpc.as_str(), self.method.as_str(), &self.params)
    }
}

/// The shape of an outgoing request: any request type declares its JSON-RPC
/// version string, its method name, and its positional parameters, and the
/// write client builds and sends the envelope.
pub trait WebSocketMethod {
    /// The version string the envelope carries.
    spec fn spec_jsonrpc(&self) -> Seq<char>;

    /// The method name the envelope carries.
    spec fn spec_method(&self) -> Seq<char>;

    /// The positional parameters the envelope carries, in order.
    spec fn spec_params(&self) -> Seq<Seq<char>>;

    /// The version string, `"2.0"` unless a request type declares otherwise.
    fn jsonrpc(&self) -> (r: String)
        ensures
            r@ == self.spec_jsonrpc(),
    ;

    /// The method name.
    fn method(&self) -> (r: String)
        ensures
            r@ == self.spec_method(),
    ;

    /// The positional parameters, in order.
    fn params(&self) -> (r: Vec<String>)
        ensures
            strings_view(r) == self.spec_params(),
    ;
}

/// A request subscribing to trace events for a list of accounts: its
/// parameters are the accounts' textual addresses, in the given order,
/// neither deduplicated nor reordered.
pub struct SubscribeTrace {
    pub accounts: Vec<String>,
}

impl WebSocketMethod for SubscribeTrace {
    open spec fn spec_jsonrpc(&self) -> Seq<char> {
        "2.0"@
    }

    open spec fn spec_method(&self) -> Seq<char> {
        "subscribe_trace"@
    }

    open spec fn spec_params(&self) -> Seq<Seq<char>> {
        strings_view(self.accounts)
    }

    fn jsonrpc(&self) -> (r: String) {
        String::from_str("2.0")
    }

    fn method(&self) -> (r: String) {
        String::from_str("subscribe_trace")
    }

    fn params(&self) -> (r: Vec<String>) {
        let mut out: Vec<String> = Vec::new();
        let mut i: usize = 0;
        while i < self.accounts.len()
            invariant
                0 <= i <= self.accounts@.len(),
                out@.len() == i,
                forall|k: int| 0 <= k < i ==> out@[k] == self.accounts@[k],
            decreases self.accounts@.len() - i,
        {
            out.push(self.accounts[i].clone());
            i = i + 1;
        }
        proof {
            assert(strings_view(out) =~= self.spec_params());
        }
        out
    }
}

/// Connect to the configured endpoint and hand back the two halves of the
/// split connection: a read client whose decode path starts fresh, and a
/// write client whose id counter starts at zero.
pub fn new_websocket_client<F: WebSocketFacade + WebSocketSplitFacade>(
    config: WebSocketConfig,
) -> (r: TonApiResult<
    (WebSocketSplitReadClient<F::Read>, WebSocketSplitWriteClient<F::Write>),
>)
    ensures
        r matches Ok(halves) ==> halves.1.spec_id_counter() == 0 && halves.1.wf()
            && halves.1.spec_handed_over() == Seq::<Seq<char>>::empty(),
{
    let url = config.server.url();
    let facade = match F::connect(WebSocketFacadeConfig { url }) {
        Ok(f) => f,
        Err(e) => {
            return Err(e);
        },
    };
    let halves = match facade.split() {
        Ok(p) => p,
        Err(e) => {
            return Err(e);
        },
    };
    let (read, write) = halves;
    let write_client = WebSocketSplitWriteClient {
        increment: 0,
        write_facade: write,
        issued: Ghost(Seq::empty()),
        handed_over: Ghost(Seq::empty()),
    };
    proof {
        assert(write_client.spec_issued() =~= Seq::new(0, |i: int| i as u64));
    }
    Ok((WebSocketSplitReadClient { read_facade: read }, write_client))
}

/// Law: the ids a well-formed write half has issued are exactly
/// `0, 1, ..., counter - 1`: one per allocation, in issue order, with no
/// repeats and no gaps.
pub proof fn lemma_issued_ids_exact<F: WebSocketWriteFacade>(w: &WebSocketSplitWriteClient<F>)
    requires
        w.wf(),
    ensures
        w.spec_issued().len() == w.spec_id_counter() as nat,
        forall|i: int| 0 <= i < w.spec_issued().len() ==> w.spec_issued()[i] == i,
        forall|i: int, j: int|
            0 <= i < j < w.spec_issued().len() ==> w.spec_issued()[i] != w.spec_issued()[j],
{
}

/// Law: decoding is total and lossless. A frame whose text is JSON of a
/// recognized shape decodes to exactly that message; every other frame --
/// invalid JSON or an unrecognized shape -- comes back as the original
/// text, unchanged.
pub proof fn lemma_decode_policy(text: Seq<char>)
    ensures
        json_of(text) matches Some(v) ==> (spec_classify(v) matches Some(m) ==> spec_decode(text)
            == OutcomeModel::Message(m)),
        json_of(text) matches Some(v) ==> (spec_classify(v) is None ==> spec_decode(text)
            == OutcomeModel::Raw(text)),
        json_of(text) is None ==> spec_decode(text) == OutcomeModel::Raw(text),
{
    if json_of(text) is Some {
        let v = json_of(text)->0;
        if spec_classify(v) is Some {
            assert(spec_decode(text) == OutcomeModel::Message(spec_classify(v)->0));
        }
    }
}

/// Law: a valid subscription acknowledgment decodes to the acknowledged
/// fields themselves. For any JSON object whose `method` member is the
/// acknowledgment discriminant and whose members have the acknowledged
/// shape, classification yields exactly those field values.
pub proof fn lemma_classify_ack(
    v: JsonValue,
    fields: Vec<(String, JsonValue)>,
    name: String,
    id: Option<u64>,
    jsonrpc: String,
    result: String,
)
    requires
        v == JsonValue::Obj(fields),
        spec_lookup(fields@, "method"@) == Some(JsonValue::Str(name)),
        name@ == "subscribe_trace"@,
        spec_lookup(fields@, "jsonrpc"@) == Some(JsonValue::Str(jsonrpc)),
        spec_lookup(fields@, "result"@) == Some(JsonValue::Str(result)),
        match id {
            Some(u) => spec_lookup(fields@, "id"@) == Some(JsonValue::UInt(u)),
            None => spec_lookup(fields@, "id"@) is None || spec_lookup(fields@, "id"@) == Some(
                JsonValue::Null,
            ),
        },
    ensures
        spec_classify(v) == Some(MessageModel::Ack { id, jsonrpc: jsonrpc@, result: result@ }),
{
}

/// Law: a valid trace-event payload decodes to its own field values. For
/// any JSON object whose `method` member is the trace discriminant and
/// whose members have the trace shape -- a string `jsonrpc` member and a
/// `params` object holding an all-string `accounts` array and a string
/// `hash` -- classification yields exactly those field values.
pub proof fn lemma_classify_trace(
    v: JsonValue,
    fields: Vec<(String, JsonValue)>,
    name: String,
    jsonrpc: String,
    params: Vec<(String, JsonValue)>,
    accounts: Vec<JsonValue>,
    hash: String,
)
    requires
        v == JsonValue::Obj(fields),
        spec_lookup(fields@, "method"@) == Some(JsonValue::Str(name)),
        name@ == "trace"@,
        spec_lookup(fields@, "jsonrpc"@) == Some(JsonValue::Str(jsonrpc)),
        spec_lookup(fields@, "params"@) == Some(JsonValue::Obj(params)),
        spec_lookup(params@, "accounts"@) == Some(JsonValue::Arr(accounts)),
        spec_lookup(params@, "hash"@) == Some(JsonValue::Str(hash)),
        spec_all_strings(accounts@),
    ensures
        spec_classify(v) == Some(
            MessageModel::TraceEvent {
                jsonrpc: jsonrpc@,
                accounts: spec_string_items(accounts@),
                hash: hash@,
            },
        ),
{
    reveal_strlit("trace");
    reveal_strlit("subscribe_trace");
    assert("trace"@.len() == 5);
    assert("subscribe_trace"@.len() == 15);
    assert(name@ != "subscribe_trace"@);
}

/// Law: the envelope built for a subscribe-trace request carries the fixed
/// method name and version string, the given id, and the accounts' textual
/// addresses as parameters, in their original order.
pub proof fn lemma_subscribe_trace_envelope(sub: SubscribeTrace, id: u64)
    ensures
        spec_envelope_text(id, sub.spec_jsonrpc(), sub.spec_method(), sub.spec_params())
            == spec_envelope_text(id, "2.0"@, "subscribe_trace"@, strings_view(sub.accounts)),
{
}

} // verus!
