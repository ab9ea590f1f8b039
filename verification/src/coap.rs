//! The protocol layer: how a request is handed to the transport, and what
//! the transport's two output streams mean.

use crate::json::{json_model, json_parse, JsonModel};
use crate::text::{lines, status_code, without_dots};
use vstd::prelude::*;
use vstd::utf8::{decode_utf8, valid_utf8};

verus! {

/// The request methods that the gateway answers.
#[derive(Clone, Copy, Debug, PartialEq, Eq)]
pub enum Method {
    GET,
    POST,
    PUT,
}

impl Method {
    /// The transport's word for the method.
    pub open spec fn token(self) -> Seq<char> {
        match self {
            Method::GET => "get"@,
            Method::POST => "post"@,
            Method::PUT => "put"@,
        }
    }

    /// The transport's word for the method, in lower case.
    pub fn as_str(self) -> (word: &'static str)
        ensures
            word@ == self.token(),
    {
        match self {
            Method::GET => "get",
            Method::POST => "post",
            Method::PUT => "put",
        }
    }
}

/// One encoded field: the transport's flag and the value that follows it.
pub type Pair = (char, Seq<char>);

/// The flag that announces the method.
pub const METHOD_FLAG: char = 'm';

/// The flag that announces the user.
pub const USER_FLAG: char = 'u';

/// The flag that announces the key.
pub const KEY_FLAG: char = 'k';

/// The flag that announces the payload.
pub const PAYLOAD_FLAG: char = 'e';

/// What a request asks for. A field that was never set is `None`.
pub struct Intent {
    pub method: Option<Seq<char>>,
    pub user: Option<Seq<char>>,
    pub key: Option<Seq<char>>,
    pub payload: Option<Seq<char>>,
}

/// The pairs that one field contributes: one where it is set, none where it is not.
pub open spec fn field(flag: char, value: Option<Seq<char>>) -> Seq<Pair> {
    match value {
        Some(v) => seq![(flag, v)],
        None => Seq::empty(),
    }
}

impl Intent {
    /// The intent with no field set.
    pub open spec fn empty() -> Intent {
        Intent { method: None, user: None, key: None, payload: None }
    }

    /// The pairs of the fields that are set, in the order method, user, key,
    /// payload.
    pub open spec fn pairs(self) -> Seq<Pair> {
        field(METHOD_FLAG, self.method) + field(USER_FLAG, self.user) + field(KEY_FLAG, self.key)
            + field(PAYLOAD_FLAG, self.payload)
    }

    /// The intent once its first pair has been handed out: the first field
    /// that is set becomes unset, the others stay.
    pub open spec fn rest(self) -> Intent {
        if self.method is Some {
            Intent { method: None, ..self }
        } else if self.user is Some {
            Intent { user: None, ..self }
        } else if self.key is Some {
            Intent { key: None, ..self }
        } else {
            Intent { payload: None, ..self }
        }
    }
}

/// The place of a flag in the fixed order of the fields.
pub open spec fn rank(flag: char) -> int {
    if flag == METHOD_FLAG {
        0
    } else if flag == USER_FLAG {
        1
    } else if flag == KEY_FLAG {
        2
    } else {
        3
    }
}

/// The pairs of an intent are exactly those of its set fields, each under
/// its own flag, and they stand in the fixed order of the fields.
pub proof fn lemma_pairs_exact_and_ordered(intent: Intent)
    ensures
        forall|v: Seq<char>| #[trigger]
            intent.pairs().contains((METHOD_FLAG, v)) <==> intent.method == Some(v),
        forall|v: Seq<char>| #[trigger]
            intent.pairs().contains((USER_FLAG, v)) <==> intent.user == Some(v),
        forall|v: Seq<char>| #[trigger]
            intent.pairs().contains((KEY_FLAG, v)) <==> intent.key == Some(v),
        forall|v: Seq<char>| #[trigger]
            intent.pairs().contains((PAYLOAD_FLAG, v)) <==> intent.payload == Some(v),
        forall|i: int| 0 <= i < intent.pairs().len() ==> 0 <= rank(#[trigger] intent.pairs()[i].0) <= 3,
        forall|i: int, j: int|
            0 <= i < j < intent.pairs().len() ==> rank(#[trigger] intent.pairs()[i].0) < rank(
                #[trigger] intent.pairs()[j].0,
            ),
{
    let m = field(METHOD_FLAG, intent.method);
    let u = field(USER_FLAG, intent.user);
    let k = field(KEY_FLAG, intent.key);
    let e = field(PAYLOAD_FLAG, intent.payload);
    let all = intent.pairs();
    assert(all =~= m + u + k + e);
    assert forall|p: Pair| all.contains(p) <==> m.contains(p) || u.contains(p) || k.contains(p)
        || e.contains(p) by {
        if all.contains(p) {
            let i = choose|i: int| 0 <= i < all.len() && all[i] == p;
            if i < m.len() {
                assert(m[i] == p);
            } else if i < m.len() + u.len() {
                assert(u[i - m.len()] == p);
            } else if i < m.len() + u.len() + k.len() {
                assert(k[i - m.len() - u.len()] == p);
            } else {
                assert(e[i - m.len() - u.len() - k.len()] == p);
            }
        }
        if m.contains(p) {
            assert(all[0] == p);
        }
        if u.contains(p) {
            assert(all[m.len() as int] == p);
        }
        if k.contains(p) {
            assert(all[(m.len() + u.len()) as int] == p);
        }
        if e.contains(p) {
            assert(all[(m.len() + u.len() + k.len()) as int] == p);
        }
    }
    assert forall|v: Seq<char>| #[trigger]
        all.contains((METHOD_FLAG, v)) <==> intent.method == Some(v) by {
        if intent.method == Some(v) {
            assert(m[0] == (METHOD_FLAG, v));
        }
    }
    assert forall|v: Seq<char>| #[trigger]
        all.contains((USER_FLAG, v)) <==> intent.user == Some(v) by {
        if intent.user == Some(v) {
            assert(u[0] == (USER_FLAG, v));
        }
    }
    assert forall|v: Seq<char>| #[trigger]
        all.contains((KEY_FLAG, v)) <==> intent.key == Some(v) by {
        if intent.key == Some(v) {
            assert(k[0] == (KEY_FLAG, v));
        }
    }
    assert forall|v: Seq<char>| #[trigger]
        all.contains((PAYLOAD_FLAG, v)) <==> intent.payload == Some(v) by {
        if intent.payload == Some(v) {
            assert(e[0] == (PAYLOAD_FLAG, v));
        }
    }
}

/// Only the intent without fields has no pairs; there are never more than
/// four; and taking the first pair away leaves the pairs of [`Intent::rest`].
pub proof fn lemma_rest_drops_first(intent: Intent)
    ensures
        intent.pairs().len() == 0 <==> intent == Intent::empty(),
        intent.pairs().len() > 0 ==> intent.rest().pairs() == intent.pairs().drop_first(),
        intent.pairs().len() <= 4,
{
    if intent.pairs().len() > 0 {
        assert(intent.rest().pairs() =~= intent.pairs().drop_first());
    }
}

/// The options of one request. Fields are set one by one and handed out once.
pub struct RequestOptions {
    method: Option<String>,
    user: Option<String>,
    key: Option<String>,
    payload: Option<String>,
}

/// The text of a field, where it is set.
pub open spec fn text_of(value: Option<String>) -> Option<Seq<char>> {
    match value {
        Some(s) => Some(s@),
        None => None,
    }
}

impl View for RequestOptions {
    type V = Intent;

    closed spec fn view(&self) -> Intent {
        Intent {
            method: text_of(self.method),
            user: text_of(self.user),
            key: text_of(self.key),
            payload: text_of(self.payload),
        }
    }
}

impl RequestOptions {
    /// Options with all four fields set. The method is taken as the
    /// transport's word for it.
    pub fn new(method: &str, user: &str, key: &str, payload: &str) -> (options: Self)
        ensures
            options@ == (Intent {
                method: Some(method@),
                user: Some(user@),
                key: Some(key@),
                payload: Some(payload@),
            }),
    {
        Self {
            method: Some(method.to_owned()),
            user: Some(user.to_owned()),
            key: Some(key.to_owned()),
            payload: Some(payload.to_owned()),
        }
    }

    /// Options with no field set.
    pub fn build() -> (options: Self)
        ensures
            options@ == Intent::empty(),
    {
        Self { method: None, user: None, key: None, payload: None }
    }

    /// The same options with the user set.
    pub fn user(self, user: &str) -> (options: Self)
        ensures
            options@ == (Intent { user: Some(user@), ..self@ }),
    {
        Self { user: Some(user.to_owned()), ..self }
    }

    /// The same options with the key set.
    pub fn key(self, key: &str) -> (options: Self)
        ensures
            options@ == (Intent { key: Some(key@), ..self@ }),
    {
        Self { key: Some(key.to_owned()), ..self }
    }

    /// The same options with the method set to the transport's word for it.
    pub fn method(self, method: Method) -> (options: Self)
        ensures
            options@ == (Intent { method: Some(method.token()), ..self@ }),
    {
        let method = method.as_str();
        Self { method: Some(method.to_owned()), ..self }
    }

    /// The same options with the payload set.
    pub fn payload(self, payload: &str) -> (options: Self)
        ensures
            options@ == (Intent { payload: Some(payload@), ..self@ }),
    {
        Self { payload: Some(payload.to_owned()), ..self }
    }

    /// Hands out the pair of the first field that is still set and unsets that
    /// field; `None` once no field is set.
    pub fn next(&mut self) -> (pair: Option<(char, String)>)
        ensures
            old(self)@.pairs().len() == 0 ==> pair is None && final(self)@ == old(self)@,
            old(self)@.pairs().len() > 0 ==> final(self)@ == old(self)@.rest() && pair is Some && ({
                let p = pair->0;
                (p.0, p.1@) == old(self)@.pairs()[0]
            }) && final(self)@.pairs() == old(self)@.pairs().drop_first(),
    {
        proof {
            lemma_rest_drops_first(self@);
        }
        if let Some(method) = self.method.take() {
            return Some((METHOD_FLAG, method));
        }
        if let Some(user) = self.user.take() {
            return Some((USER_FLAG, user));
        }
        if let Some(key) = self.key.take() {
            return Some((KEY_FLAG, key));
        }
        if let Some(payload) = self.payload.take() {
            return Some((PAYLOAD_FLAG, payload));
        }
        None
    }

    /// Hands out every pair that is still to come, in order, and leaves no
    /// field set: a second call yields nothing.
    pub fn drain(&mut self) -> (pairs: Vec<(char, String)>)
        ensures
            pairs.deep_view() == old(self)@.pairs(),
            final(self)@ == Intent::empty(),
            final(self)@.pairs() == Seq::<Pair>::empty(),
    {
        let ghost all = self@.pairs();
        let mut pairs: Vec<(char, String)> = Vec::new();
        loop
            invariant
                pairs.deep_view() + self@.pairs() == all,
            ensures
                pairs.deep_view() == all,
                self@ == Intent::empty(),
            decreases self@.pairs().len(),
        {
            let ghost before = pairs.deep_view();
            let ghost left = self@.pairs();
            proof {
                lemma_rest_drops_first(self@);
            }
            match self.next() {
                Some(pair) => {
                    pairs.push(pair);
                    assert(pairs.deep_view() =~= before.push(left[0]));
                    assert(before.push(left[0]) + left.drop_first() =~= before + left);
                },
                None => {
                    assert(before + left =~= before);
                    break ;
                },
            }
        }
        pairs
    }
}

/// What the gateway answered: a payload, or the reason why it refused.
#[derive(Debug, PartialEq, Eq)]
pub enum CoapResponse {
    Success(serde_json::Value),
    Error(String),
}

/// The content of a [`CoapResponse`].
pub enum Outcome {
    Success(JsonModel),
    Error(Seq<char>),
}

impl View for CoapResponse {
    type V = Outcome;

    open spec fn view(&self) -> Outcome {
        match self {
            CoapResponse::Success(payload) => Outcome::Success(json_model(*payload)),
            CoapResponse::Error(message) => Outcome::Error(message@),
        }
    }
}

/// The JSON object without members, which stands for an answer without payload.
pub open spec fn empty_object() -> JsonModel {
    JsonModel::Object(Map::empty())
}

impl CoapResponse {
    /// The payload of a success; the empty object for a refusal.
    pub fn data(self) -> (payload: serde_json::Value)
        ensures
            json_model(payload) == match self@ {
                Outcome::Success(content) => content,
                Outcome::Error(_) => empty_object(),
            },
    {
        match self {
            CoapResponse::Error(_) => crate::json::object(),
            CoapResponse::Success(data) => data,
        }
    }

    /// Whether the gateway accepted the request.
    pub fn is_ok(&self) -> (ok: bool)
        ensures
            ok == (self@ is Success),
    {
        match self {
            CoapResponse::Error(_) => false,
            _ => true,
        }
    }

    /// The gateway's reason for a refusal; `None` for a success.
    pub fn into_error(self) -> (message: Option<String>)
        ensures
            match self@ {
                Outcome::Success(_) => message is None,
                Outcome::Error(reason) => message is Some && message->0@ == reason,
            },
    {
        match self {
            CoapResponse::Error(message) => Some(message),
            _ => None,
        }
    }
}

/// Why the transport's output could not be read. This is apart from a
/// refusal by the gateway, which is a [`CoapResponse::Error`].
#[derive(Clone, Copy, Debug, PartialEq, Eq)]
pub enum TransportError {
    /// A stream that had to be read was not UTF-8 text.
    NotText,
    /// The structured stream held text that is no JSON value.
    MalformedPayload,
}

impl TransportError {
    /// A short description of the error.
    pub open spec fn text(self) -> Seq<char> {
        match self {
            TransportError::NotText => "The transport's output is not text."@,
            TransportError::MalformedPayload => "The payload is not JSON."@,
        }
    }

    /// A short description of the error.
    pub fn message(&self) -> (message: &'static str)
        ensures
            message@ == self.text(),
    {
        match self {
            TransportError::NotText => "The transport's output is not text.",
            TransportError::MalformedPayload => "The payload is not JSON.",
        }
    }
}

/// The program that carries a request to the gateway.
pub const PROGRAM: &'static str = "coap-client";

/// The message for a status code. Every code has the same message.
pub open spec fn message_for(code: Seq<char>) -> Seq<char> {
    "Bad request."@
}

/// The arguments that a run of pairs takes on the command line: for each
/// pair a dash with the flag, then the value.
pub open spec fn flagged(pairs: Seq<Pair>) -> Seq<Seq<char>>
    decreases pairs.len(),
{
    if pairs.len() == 0 {
        Seq::empty()
    } else {
        flagged(pairs.drop_last()).push(seq!['-', pairs.last().0]).push(pairs.last().1)
    }
}

/// The transport's command line for a request: the flagged fields, then the
/// endpoint.
pub open spec fn command_line(intent: Intent, endpoint: Seq<char>) -> Seq<Seq<char>> {
    flagged(intent.pairs()).push(endpoint)
}

/// What a diagnostic text means when the structured stream was empty: with
/// more than two lines the gateway refused and the second line is the status
/// code; with two lines or fewer it accepted and sent no payload.
pub open spec fn diagnostic_outcome(text: Seq<char>) -> Outcome {
    if lines(text).len() > 2 {
        Outcome::Error(message_for(without_dots(lines(text)[1])))
    } else {
        Outcome::Success(empty_object())
    }
}

/// What the text of the structured stream means, given what the JSON reader
/// made of it.
pub open spec fn payload_outcome(parsed: Option<JsonModel>) -> Result<Outcome, TransportError> {
    match parsed {
        Some(content) => Ok(Outcome::Success(content)),
        None => Err(TransportError::MalformedPayload),
    }
}

/// What the two output streams of one run mean. A structured stream that is
/// not empty decides alone; else the diagnostic stream does.
pub open spec fn classification(structured: Seq<u8>, diagnostic: Seq<u8>) -> Result<
    Outcome,
    TransportError,
> {
    if structured.len() > 0 {
        if valid_utf8(structured) {
            payload_outcome(json_parse(decode_utf8(structured)))
        } else {
            Err(TransportError::NotText)
        }
    } else if valid_utf8(diagnostic) {
        Ok(diagnostic_outcome(decode_utf8(diagnostic)))
    } else {
        Err(TransportError::NotText)
    }
}

/// The content of a classification.
pub open spec fn outcome_of(result: Result<CoapResponse, TransportError>) -> Result<
    Outcome,
    TransportError,
> {
    match result {
        Ok(response) => Ok(response@),
        Err(error) => Err(error),
    }
}

/// The texts of a list of arguments.
pub open spec fn texts(arguments: Seq<String>) -> Seq<Seq<char>> {
    arguments.map_values(|argument: String| argument@)
}

/// The protocol client: it words a request for the transport and reads the
/// transport's answer.
pub struct CoapClient {}

impl CoapClient {
    /// The message for a status code, as the second diagnostic line gives it
    /// once its dots are gone.
    pub fn status_message(code: &str) -> (message: &'static str)
        ensures
            message@ == message_for(code@),
    {
        "Bad request."
    }

    /// The arguments with which the transport is run for a request: one
    /// dash-flag and value for each field that is set, in the encoder's order,
    /// and the endpoint last.
    pub fn arguments(endpoint: &str, options: RequestOptions) -> (arguments: Vec<String>)
        ensures
            texts(arguments@) == command_line(options@, endpoint@),
    {
        let mut options = options;
        let ghost all = options@.pairs();
        let ghost mut done: Seq<Pair> = Seq::empty();
        let mut arguments: Vec<String> = Vec::new();
        loop
            invariant
                done + options@.pairs() == all,
                texts(arguments@) == flagged(done),
            ensures
                texts(arguments@) == flagged(all),
            decreases options@.pairs().len(),
        {
            let ghost left = options@.pairs();
            let ghost before = texts(arguments@);
            match options.next() {
                Some((flag, value)) => {
                    let mut dashed = String::new();
                    dashed.push('-');
                    dashed.push(flag);
                    arguments.push(dashed);
                    arguments.push(value);
                    proof {
                        assert(dashed@ =~= seq!['-', flag]);
                        assert(done.push(left[0]).drop_last() =~= done);
                        assert(texts(arguments@) =~= before.push(dashed@).push(value@));
                        assert(done.push(left[0]) + left.drop_first() =~= done + left);
                        done = done.push(left[0]);
                    }
                },
                None => {
                    assert(done + left =~= done);
                    break ;
                },
            }
        }
        let ghost before = texts(arguments@);
        arguments.push(endpoint.to_owned());
        assert(texts(arguments@) =~= before.push(endpoint@));
        arguments
    }

    /// Reads a diagnostic text that came with an empty structured stream.
    pub fn interpret_diagnostic(text: &str) -> (response: CoapResponse)
        ensures
            response@ == diagnostic_outcome(text@),
    {
        match status_code(text) {
            Some(code) => CoapResponse::Error(Self::status_message(code.as_str()).to_owned()),
            None => CoapResponse::Success(crate::json::object()),
        }
    }

    /// Turns what the JSON reader made of the structured stream into the
    /// outcome of the request.
    pub fn interpret_payload(parsed: Result<serde_json::Value, serde_json::Error>) -> (outcome: Result<
        CoapResponse,
        TransportError,
    >)
        ensures
            match parsed {
                Ok(payload) => outcome_of(outcome) == payload_outcome(Some(json_model(payload))),
                Err(_) => outcome_of(outcome) == payload_outcome(None),
            },
    {
        match parsed {
            Ok(payload) => Ok(CoapResponse::Success(payload)),
            Err(_) => Err(TransportError::MalformedPayload),
        }
    }

    /// Classifies the two output streams of one run of the transport.
    pub fn classify(structured: Vec<u8>, diagnostic: Vec<u8>) -> (outcome: Result<
        CoapResponse,
        TransportError,
    >)
        ensures
            outcome_of(outcome) == classification(structured@, diagnostic@),
    {
        if structured.len() > 0 {
            match String::from_utf8(structured) {
                Ok(text) => Self::interpret_payload(crate::json::parse(text.as_str())),
                Err(_) => Err(TransportError::NotText),
            }
        } else {
            match String::from_utf8(diagnostic) {
                Ok(text) => Ok(Self::interpret_diagnostic(text.as_str())),
                Err(_) => Err(TransportError::NotText),
            }
        }
    }
}

} // verus!
