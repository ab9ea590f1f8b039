//! The session with a gateway: deriving the pre-shared key, and the three
//! operations that need it.
//!
//! Each operation comes in two halves. The first words the request; the
//! second, which takes the gateway's answer, decides what the answer means.
//! Carrying the request to the gateway lies between the two and is the
//! caller's part.

use crate::coap::{CoapResponse, Intent, Method, Outcome, RequestOptions};
use crate::device::{Device, DeviceModel};
use crate::endpoints::{AUTHENTICATE, DEVICES};
use crate::json::{json_model, json_text, models, JsonModel};
use crate::text::{decimal, push_decimal};
use vstd::prelude::*;
use vstd::string::StringExecFns;

verus! {

/// The identity under which a key is derived.
pub const BOOTSTRAP_IDENTITY: &'static str = "Client_identity";

/// The member of an authentication answer that holds the derived key.
pub const DERIVED_KEY: &'static str = "9091";

/// The name under which the derived key is kept in the local key file.
pub const KEY_ENTRY: &'static str = "PRESHARED_KEY";

/// An address in dotted decimal notation.
pub open spec fn dotted(addr: Seq<u8>) -> Seq<char>
    recommends
        addr.len() == 4,
{
    decimal(addr[0] as nat) + seq!['.'] + decimal(addr[1] as nat) + seq!['.'] + decimal(
        addr[2] as nat,
    ) + seq!['.'] + decimal(addr[3] as nat)
}

/// The address of a resource of the gateway.
pub open spec fn uri(addr: Seq<u8>, path: Seq<char>) -> Seq<char> {
    "coaps://"@ + dotted(addr) + ":5684/"@ + path
}

/// The path of one device.
pub open spec fn device_path(id: u64) -> Seq<char> {
    DEVICES@ + seq!['/'] + decimal(id as nat)
}

/// The body of the request that derives a key for a user.
pub open spec fn bootstrap_payload(user: Seq<char>) -> Seq<char> {
    "{\"9090\":\""@ + user + "\"}"@
}

/// The line that keeps a derived key in the local key file.
pub open spec fn key_line(key: Seq<char>) -> Seq<char> {
    KEY_ENTRY@ + seq!['='] + key
}

/// The key that an answer's key member stands for: the text of a string, and
/// of any other value its JSON text.
pub open spec fn key_of(member: JsonModel) -> Seq<char> {
    match member {
        JsonModel::Text(content) => content,
        other => json_text(other),
    }
}

/// The identifiers among the items of a device list: the non-negative
/// integers, in their order. Other items are passed over.
pub open spec fn ids_of(items: Seq<JsonModel>) -> Seq<u64>
    decreases items.len(),
{
    if items.len() == 0 {
        Seq::empty()
    } else {
        let before = ids_of(items.drop_last());
        match items.last().as_u64() {
            Some(id) => before.push(id),
            None => before,
        }
    }
}

/// The key that an authentication answer gives: a refusal gives the
/// gateway's message, and a success the key under its member, which must be
/// there.
pub open spec fn key_from(outcome: Outcome) -> Result<Seq<char>, Failure> {
    match outcome {
        Outcome::Error(message) => Err(Failure::Protocol(message)),
        Outcome::Success(payload) => match payload.get(DERIVED_KEY@) {
            Some(member) => Ok(key_of(member)),
            None => Err(Failure::MissingKey),
        },
    }
}

/// The identifiers that the payload of a device list gives; the payload must
/// be an array.
pub open spec fn ids_from(payload: JsonModel) -> Result<Seq<u64>, Failure> {
    match payload.as_array() {
        Some(items) => Ok(ids_of(items)),
        None => Err(Failure::MalformedList),
    }
}

/// The device that the payload of a device answer gives.
pub open spec fn device_from(payload: JsonModel) -> Result<DeviceModel, Failure> {
    match DeviceModel::of_model(payload) {
        Some(device) => Ok(device),
        None => Err(Failure::MalformedDevice),
    }
}

/// A request to the gateway: where it goes and what it asks for.
pub struct Request {
    pub endpoint: String,
    pub options: RequestOptions,
}

/// The content of a [`Request`].
pub struct RequestModel {
    pub endpoint: Seq<char>,
    pub intent: Intent,
}

impl View for Request {
    type V = RequestModel;

    open spec fn view(&self) -> RequestModel {
        RequestModel { endpoint: self.endpoint@, intent: self.options@ }
    }
}

/// Why an operation on the session did not give its result.
#[derive(Debug, PartialEq, Eq)]
pub enum GatewayError {
    /// The session has no derived key yet.
    NotAuthenticated,
    /// The gateway refused the request, with this message.
    Protocol(String),
    /// An authentication answer held no derived key.
    MissingKey,
    /// A device list was no array.
    MalformedList,
    /// A device object lacked a member or held one of the wrong form.
    MalformedDevice,
}

/// The content of a [`GatewayError`].
pub enum Failure {
    NotAuthenticated,
    Protocol(Seq<char>),
    MissingKey,
    MalformedList,
    MalformedDevice,
}

impl View for GatewayError {
    type V = Failure;

    open spec fn view(&self) -> Failure {
        match self {
            GatewayError::NotAuthenticated => Failure::NotAuthenticated,
            GatewayError::Protocol(message) => Failure::Protocol(message@),
            GatewayError::MissingKey => Failure::MissingKey,
            GatewayError::MalformedList => Failure::MalformedList,
            GatewayError::MalformedDevice => Failure::MalformedDevice,
        }
    }
}

impl Failure {
    /// A short description of the failure; for a refusal, the gateway's own
    /// message.
    pub open spec fn message(self) -> Seq<char> {
        match self {
            Failure::NotAuthenticated => "The session is not authenticated."@,
            Failure::Protocol(message) => message,
            Failure::MissingKey => "The answer holds no derived key."@,
            Failure::MalformedList => "The device list is no array."@,
            Failure::MalformedDevice => "The device is malformed."@,
        }
    }
}

impl GatewayError {
    /// A short description of the error; for a refusal, the gateway's own
    /// message.
    pub fn message(&self) -> (message: String)
        ensures
            message@ == self@.message(),
    {
        match self {
            GatewayError::NotAuthenticated => "The session is not authenticated.".to_owned(),
            GatewayError::Protocol(message) => message.clone(),
            GatewayError::MissingKey => "The answer holds no derived key.".to_owned(),
            GatewayError::MalformedList => "The device list is no array.".to_owned(),
            GatewayError::MalformedDevice => "The device is malformed.".to_owned(),
        }
    }
}

/// The content of a result.
pub open spec fn result_view<T: View, E: View>(result: Result<T, E>) -> Result<T::V, E::V> {
    match result {
        Ok(value) => Ok(value@),
        Err(error) => Err(error@),
    }
}

/// The user and the key of an authenticated session.
#[derive(Debug)]
struct Login {
    user: String,
    key: String,
}

/// A session with one gateway. It starts without a derived key and gets one
/// by authentication.
#[derive(Debug)]
pub struct Gateway {
    addr: [u8; 4],
    security_code: String,
    login: Option<Login>,
}

/// The content of a [`Gateway`].
pub struct Session {
    /// The four octets of the gateway's address.
    pub addr: Seq<u8>,
    /// The secret that the gateway was provisioned with.
    pub security_code: Seq<char>,
    /// The user of an authenticated session.
    pub user: Option<Seq<char>>,
    /// The pre-shared key of an authenticated session.
    pub derived_key: Option<Seq<char>>,
}

impl Session {
    /// Whether the session holds a derived key.
    pub open spec fn authenticated(self) -> bool {
        self.derived_key is Some
    }

    /// The session once it holds a key for a user.
    pub open spec fn with_login(self, user: Seq<char>, key: Seq<char>) -> Session {
        Session { user: Some(user), derived_key: Some(key), ..self }
    }

    /// The request that derives a key for a user: a POST under the bootstrap
    /// identity, keyed with the provisioning secret.
    pub open spec fn bootstrap(self, user: Seq<char>) -> RequestModel {
        RequestModel {
            endpoint: uri(self.addr, AUTHENTICATE@),
            intent: Intent {
                method: Some(Method::POST.token()),
                user: Some(BOOTSTRAP_IDENTITY@),
                key: Some(self.security_code),
                payload: Some(bootstrap_payload(user)),
            },
        }
    }

    /// A request under the session's own user and key; it takes an
    /// authenticated session.
    pub open spec fn authorized(
        self,
        method: Method,
        path: Seq<char>,
        payload: Option<Seq<char>>,
    ) -> Result<RequestModel, Failure> {
        match (self.user, self.derived_key) {
            (Some(user), Some(key)) => Ok(
                RequestModel {
                    endpoint: uri(self.addr, path),
                    intent: Intent {
                        method: Some(method.token()),
                        user: Some(user),
                        key: Some(key),
                        payload,
                    },
                },
            ),
            _ => Err(Failure::NotAuthenticated),
        }
    }

    /// What an answer to a request under the session's key is read as: a
    /// session without key reads nothing, a refusal gives the gateway's
    /// message, and a success gives its payload.
    pub open spec fn answer(self, outcome: Outcome) -> Result<JsonModel, Failure> {
        if !self.authenticated() {
            Err(Failure::NotAuthenticated)
        } else {
            match outcome {
                Outcome::Error(message) => Err(Failure::Protocol(message)),
                Outcome::Success(payload) => Ok(payload),
            }
        }
    }
}

/// A session without key words no request and reads no answer; a session
/// with a user and a key words every request, under that user and key; and
/// a login makes a session authenticated.
pub proof fn lemma_operations_need_a_key(
    session: Session,
    method: Method,
    path: Seq<char>,
    payload: Option<Seq<char>>,
    outcome: Outcome,
    user: Seq<char>,
    key: Seq<char>,
)
    ensures
        !session.authenticated() ==> session.authorized(method, path, payload) == Err::<
            RequestModel,
            Failure,
        >(Failure::NotAuthenticated) && session.answer(outcome) == Err::<JsonModel, Failure>(
            Failure::NotAuthenticated,
        ),
        session.with_login(user, key).authenticated(),
        session.with_login(user, key).authorized(method, path, payload) is Ok,
        session.with_login(user, key).authorized(method, path, payload)->Ok_0.intent.pairs()
            =~= seq![(crate::coap::METHOD_FLAG, method.token()), (crate::coap::USER_FLAG, user), (
            crate::coap::KEY_FLAG,
            key,
        )] + crate::coap::field(crate::coap::PAYLOAD_FLAG, payload),
{
}

impl View for Gateway {
    type V = Session;

    closed spec fn view(&self) -> Session {
        Session {
            addr: self.addr@,
            security_code: self.security_code@,
            user: match self.login {
                Some(login) => Some(login.user@),
                None => None,
            },
            derived_key: match self.login {
                Some(login) => Some(login.key@),
                None => None,
            },
        }
    }
}

impl Clone for Gateway {
    /// A second session with the same gateway, in the same state.
    fn clone(&self) -> (copy: Gateway)
        ensures
            copy@ == self@,
    {
        Gateway {
            addr: self.addr,
            security_code: self.security_code.clone(),
            login: match &self.login {
                Some(login) => Some(Login { user: login.user.clone(), key: login.key.clone() }),
                None => None,
            },
        }
    }
}

impl Gateway {
    /// A session with the gateway at an address, not yet authenticated.
    pub fn new(addr: [u8; 4], security_code: &str) -> (gateway: Gateway)
        ensures
            gateway@ == (Session {
                addr: addr@,
                security_code: security_code@,
                user: None,
                derived_key: None,
            }),
    {
        Gateway { addr, security_code: security_code.to_owned(), login: None }
    }

    /// A session holds a user exactly when it holds a key, and its address
    /// has four octets.
    pub proof fn lemma_session(self)
        ensures
            self@.user is Some <==> self@.derived_key is Some,
            self@.addr.len() == 4,
    {
    }

    /// Builds the address of a resource of this gateway.
    fn endpoint(&self, path: &str) -> (endpoint: String)
        ensures
            endpoint@ == uri(self@.addr, path@),
    {
        let mut endpoint = "coaps://".to_owned();
        let ghost scheme = endpoint@;
        push_decimal(&mut endpoint, self.addr[0] as u64);
        endpoint.push('.');
        push_decimal(&mut endpoint, self.addr[1] as u64);
        endpoint.push('.');
        push_decimal(&mut endpoint, self.addr[2] as u64);
        endpoint.push('.');
        push_decimal(&mut endpoint, self.addr[3] as u64);
        assert(endpoint@ =~= scheme + dotted(self@.addr));
        endpoint.append(":5684/");
        endpoint.append(path);
        endpoint
    }

    /// Builds the path of one device.
    fn device_path(id: u64) -> (path: String)
        ensures
            path@ == device_path(id),
    {
        let mut path = DEVICES.to_owned();
        path.push('/');
        push_decimal(&mut path, id);
        path
    }

    /// Words a request under the session's own user and key.
    fn authorized(&self, method: Method, path: &str, payload: Option<&str>) -> (request: Result<
        Request,
        GatewayError,
    >)
        ensures
            result_view(request) == self@.authorized(
                method,
                path@,
                match payload {
                    Some(body) => Some(body@),
                    None => None,
                },
            ),
    {
        match &self.login {
            Some(login) => {
                let options = RequestOptions::build().method(method).user(login.user.as_str()).key(
                    login.key.as_str(),
                );
                let options = match payload {
                    Some(body) => options.payload(body),
                    None => options,
                };
                Ok(Request { endpoint: self.endpoint(path), options })
            },
            None => Err(GatewayError::NotAuthenticated),
        }
    }

    /// Reads an answer to a request under the session's key.
    fn answer(&self, response: CoapResponse) -> (payload: Result<serde_json::Value, GatewayError>)
        ensures
            match self@.answer(response@) {
                Ok(content) => payload is Ok && json_model(payload->Ok_0) == content,
                Err(failure) => payload is Err && payload->Err_0@ == failure,
            },
    {
        if self.login.is_none() {
            return Err(GatewayError::NotAuthenticated);
        }
        match response {
            CoapResponse::Error(message) => Err(GatewayError::Protocol(message)),
            CoapResponse::Success(payload) => Ok(payload),
        }
    }

    /// The octets of the gateway's address.
    pub fn addr(&self) -> (addr: [u8; 4])
        ensures
            addr@ == self@.addr,
    {
        self.addr
    }

    /// The user of an authenticated session.
    pub fn user(&self) -> (user: Option<&str>)
        ensures
            match self@.user {
                Some(name) => user is Some && user->0@ == name,
                None => user is None,
            },
    {
        match &self.login {
            Some(login) => Some(login.user.as_str()),
            None => None,
        }
    }

    /// The pre-shared key of an authenticated session.
    pub fn preshared_key(&self) -> (key: Option<&str>)
        ensures
            match self@.derived_key {
                Some(derived) => key is Some && key->0@ == derived,
                None => key is None,
            },
    {
        match &self.login {
            Some(login) => Some(login.key.as_str()),
            None => None,
        }
    }

    /// Whether the session holds a derived key.
    pub fn is_authenticated(&self) -> (authenticated: bool)
        ensures
            authenticated == self@.authenticated(),
    {
        self.login.is_some()
    }

    /// Makes the session authenticated for a user with a key, overwriting an
    /// earlier key, and returns the line that keeps the key in the local key
    /// file.
    pub fn adopt(&mut self, user: &str, key: String) -> (line: String)
        ensures
            final(self)@ == old(self)@.with_login(user@, key@),
            line@ == key_line(key@),
    {
        let mut line = KEY_ENTRY.to_owned();
        line.push('=');
        line.append(key.as_str());
        assert(line@ =~= key_line(key@));
        self.login = Some(Login { user: user.to_owned(), key });
        line
    }

    /// The first half of authentication. With a key from the local key file
    /// the session adopts it for the user and no request is needed. Without
    /// one the session stays as it is and the request that derives a key is
    /// returned.
    pub fn begin_authentication(&mut self, user: &str, stored_key: Option<String>) -> (request:
        Option<Request>)
        ensures
            match stored_key {
                Some(key) => request is None && final(self)@ == old(self)@.with_login(user@, key@),
                None => final(self)@ == old(self)@ && request is Some && request->0@ == old(
                    self,
                )@.bootstrap(user@),
            },
    {
        match stored_key {
            Some(key) => {
                let _ = self.adopt(user, key);
                None
            },
            None => {
                let mut payload = "{\"9090\":\"".to_owned();
                payload.append(user);
                payload.append("\"}");
                let options = RequestOptions::build().method(Method::POST).user(
                    BOOTSTRAP_IDENTITY,
                ).key(self.security_code.as_str()).payload(payload.as_str());
                Some(Request { endpoint: self.endpoint(AUTHENTICATE), options })
            },
        }
    }

    /// The second half of authentication, on the gateway's answer to the
    /// request that derives a key. A success that holds a key makes the
    /// session authenticated for the user, overwriting an earlier key, and
    /// returns the line to write to the local key file. Anything else leaves
    /// the session as it was.
    pub fn authenticate(&mut self, user: &str, response: CoapResponse) -> (line: Result<
        String,
        GatewayError,
    >)
        ensures
            result_view(line) == match key_from(response@) {
                Ok(key) => Ok(key_line(key)),
                Err(failure) => Err(failure),
            },
            final(self)@ == match key_from(response@) {
                Ok(key) => old(self)@.with_login(user@, key),
                Err(_) => old(self)@,
            },
    {
        match response {
            CoapResponse::Error(message) => Err(GatewayError::Protocol(message)),
            CoapResponse::Success(payload) => {
                match crate::json::get(&payload, DERIVED_KEY) {
                    Some(member) => {
                        let key = match crate::json::as_str(member) {
                            Some(content) => content.to_owned(),
                            None => crate::json::to_text(member),
                        };
                        Ok(self.adopt(user, key))
                    },
                    None => Err(GatewayError::MissingKey),
                }
            },
        }
    }

    /// Words the request for the list of devices.
    pub fn request_device_ids(&self) -> (request: Result<Request, GatewayError>)
        ensures
            result_view(request) == self@.authorized(Method::GET, DEVICES@, None),
    {
        self.authorized(Method::GET, DEVICES, None)
    }

    /// Reads the identifiers out of the answer to a request for the list of
    /// devices. Items that are no identifiers are passed over.
    pub fn get_device_ids(&self, response: CoapResponse) -> (ids: Result<Vec<u64>, GatewayError>)
        ensures
            result_view(ids) == match self@.answer(response@) {
                Ok(payload) => ids_from(payload),
                Err(failure) => Err(failure),
            },
    {
        let payload = self.answer(response)?;
        match crate::json::as_array(&payload) {
            Some(items) => {
                let mut ids: Vec<u64> = Vec::new();
                for i in 0..items.len()
                    invariant
                        ids@ == ids_of(models(items@).take(i as int)),
                {
                    proof {
                        let seen = models(items@).take(i as int);
                        assert(models(items@).take(i + 1).drop_last() =~= seen);
                    }
                    if let Some(id) = crate::json::as_u64(&items[i]) {
                        ids.push(id);
                    }
                }
                assert(models(items@).take(items@.len() as int) =~= models(items@));
                Ok(ids)
            },
            None => Err(GatewayError::MalformedList),
        }
    }

    /// Words the request for one device.
    pub fn request_device(&self, id: u64) -> (request: Result<Request, GatewayError>)
        ensures
            result_view(request) == self@.authorized(Method::GET, device_path(id), None),
    {
        let path = Self::device_path(id);
        self.authorized(Method::GET, path.as_str(), None)
    }

    /// Reads the device out of the answer to a request for one device.
    pub fn get_device_by_id(&self, response: CoapResponse) -> (device: Result<Device, GatewayError>)
        ensures
            result_view(device) == match self@.answer(response@) {
                Ok(payload) => device_from(payload),
                Err(failure) => Err(failure),
            },
    {
        let payload = self.answer(response)?;
        match Device::from_json(&payload) {
            Some(device) => Ok(device),
            None => Err(GatewayError::MalformedDevice),
        }
    }

    /// Words the request that overwrites the state of one device: a PUT on
    /// the device with the given body.
    pub fn request_device_update(&self, device_id: u64, body: &str) -> (request: Result<
        Request,
        GatewayError,
    >)
        ensures
            result_view(request) == self@.authorized(
                Method::PUT,
                device_path(device_id),
                Some(body@),
            ),
    {
        let path = Self::device_path(device_id);
        self.authorized(Method::PUT, path.as_str(), Some(body))
    }

    /// Words the request that overwrites the state of one device with a
    /// payload: a PUT whose body is the payload's JSON text.
    pub fn request_device_state(&self, device_id: u64, payload: &serde_json::Value) -> (request:
        Result<Request, GatewayError>)
        ensures
            result_view(request) == self@.authorized(
                Method::PUT,
                device_path(device_id),
                Some(json_text(json_model(*payload))),
            ),
    {
        let body = crate::json::to_text(payload);
        self.request_device_update(device_id, body.as_str())
    }

    /// Reads the answer to a request that overwrites the state of a device:
    /// a success, whatever its payload, means that it is done.
    pub fn set_device_state(&self, response: CoapResponse) -> (done: Result<(), GatewayError>)
        ensures
            result_view(done) == match self@.answer(response@) {
                Ok(_) => Ok(()),
                Err(failure) => Err(failure),
            },
    {
        let _ = self.answer(response)?;
        Ok(())
    }
}

} // verus!
