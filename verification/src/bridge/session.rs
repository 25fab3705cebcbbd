//! The state of the one foreign-runtime session and the decisions made around
//! each call through it.

use vstd::prelude::*;
use vstd::string::*;

use crate::bridge::json::{describe_json_error, json_parse, json_text, read_json, write_json};
use crate::error::BridgeError;

verus! {

/// The address under which the backend service listens.
pub open spec fn backend_base() -> Seq<char> {
    "http://localhost:8000"@
}

/// One POST to the backend service: where it goes and what it carries.
#[derive(Debug)]
pub struct BackendRequest {
    pub url: String,
    pub body: String,
}

impl BackendRequest {
    /// The POST of `body` to `endpoint` of the backend service.
    pub fn to_endpoint(endpoint: &str, body: String) -> (request: Self)
        ensures
            request.url@ == backend_base() + endpoint@,
            request.body@ == body@,
    {
        let mut url = String::from_str("http://localhost:8000");
        url.append(endpoint);
        BackendRequest { url, body }
    }
}

/// The failure of a backend call for which the foreign runtime had no HTTP
/// client; `why` is the runtime's own account.
pub fn client_missing(why: &str) -> (error: BridgeError)
    ensures
        error is Network,
        error.text() == "Failed to import requests: "@ + why@,
{
    let mut m = String::from_str("Failed to import requests: ");
    m.append(why);
    BridgeError::Network(m)
}

/// The failure of a backend call whose reply is no JSON document; `why` is
/// the parser's own account.
pub fn unreadable_body(why: &str) -> (error: BridgeError)
    ensures
        error is ParseError,
        error.text() == "Failed to parse JSON: "@ + why@,
{
    let mut m = String::from_str("Failed to parse JSON: ");
    m.append(why);
    BridgeError::ParseError(m)
}

/// What became of a request that was carried to the backend service.
#[derive(Debug)]
pub enum BackendReply {
    /// The foreign runtime has no HTTP client to send with; the text says why.
    ClientMissing(String),
    /// The transfer failed; the text says why.
    TransportFailed(String),
    /// The backend answered with this body.
    Body(String),
}

/// Whether `result` is what the host makes of `reply`.
pub open spec fn settles_reply(
    reply: BackendReply,
    result: Result<serde_json::Value, BridgeError>,
) -> bool {
    match reply {
        BackendReply::ClientMissing(why) => result is Err && result->Err_0 is Network
            && result->Err_0.text() == "Failed to import requests: "@ + why@,
        BackendReply::TransportFailed(why) => result is Err && result->Err_0 is Network
            && result->Err_0.text() == why@,
        BackendReply::Body(text) => match json_parse(text@) {
            Some(value) => result == Ok::<serde_json::Value, BridgeError>(value),
            None => result is Err && result->Err_0 is ParseError
                && "Failed to parse JSON: "@.is_prefix_of(result->Err_0.text()),
        },
    }
}

/// One call of a plugin method inside the foreign runtime: which object,
/// which method, and the arguments.
#[derive(Debug)]
pub struct Invocation {
    pub object: String,
    pub method: String,
    pub args: serde_json::Value,
}

/// What became of one call of a plugin method inside the foreign runtime.
pub enum ForeignOutcome {
    /// The method returned, and its result was converted to this value.
    Returned(serde_json::Value),
    /// No plugin object stands behind the handle.
    ObjectMissing(String),
    /// The plugin object has no method of the name asked for.
    MethodMissing(String),
    /// An argument could not be converted for the foreign runtime.
    ArgumentRejected(String),
    /// The method's result could not be converted for the host.
    ResultRejected(String),
    /// The method raised.
    Raised(String),
    /// The session itself is beyond use.
    SessionLost(String),
}

/// Whether `result` is what the host makes of `outcome`: a missing object or
/// method is `NotFound`, a failed conversion `MarshalError`, anything the
/// foreign side raised `RuntimeFault`.
pub open spec fn settles_outcome(
    outcome: ForeignOutcome,
    result: Result<serde_json::Value, BridgeError>,
) -> bool {
    match outcome {
        ForeignOutcome::Returned(value) => result == Ok::<serde_json::Value, BridgeError>(value),
        ForeignOutcome::ObjectMissing(why) => result == Err::<serde_json::Value, BridgeError>(
            BridgeError::NotFound(why),
        ),
        ForeignOutcome::MethodMissing(why) => result == Err::<serde_json::Value, BridgeError>(
            BridgeError::NotFound(why),
        ),
        ForeignOutcome::ArgumentRejected(why) => result == Err::<serde_json::Value, BridgeError>(
            BridgeError::MarshalError(why),
        ),
        ForeignOutcome::ResultRejected(why) => result == Err::<serde_json::Value, BridgeError>(
            BridgeError::MarshalError(why),
        ),
        ForeignOutcome::Raised(why) => result == Err::<serde_json::Value, BridgeError>(
            BridgeError::RuntimeFault(why),
        ),
        ForeignOutcome::SessionLost(why) => result == Err::<serde_json::Value, BridgeError>(
            BridgeError::RuntimeFault(why),
        ),
    }
}

/// The one foreign-runtime session of the process.
#[derive(Debug)]
pub struct PythonBridge {
    initialized: bool,
    degraded: bool,
}

impl PythonBridge {
    /// Whether the session was brought up.
    pub closed spec fn initialized(&self) -> bool {
        self.initialized
    }

    /// Whether a fault has put the session beyond use.
    pub closed spec fn degraded(&self) -> bool {
        self.degraded
    }

    /// Whether calls may go through the bridge.
    pub open spec fn usable(&self) -> bool {
        self.initialized() && !self.degraded()
    }

    /// The message of every call that is refused because the session is
    /// beyond use.
    pub open spec fn degraded_text() -> Seq<char> {
        "Python bridge is degraded"@
    }

    /// The bridge over a session that has just been brought up.
    pub fn new() -> (bridge: Self)
        ensures
            bridge.initialized(),
            !bridge.degraded(),
    {
        PythonBridge { initialized: true, degraded: false }
    }

    pub fn is_initialized(&self) -> (yes: bool)
        ensures
            yes == self.initialized(),
    {
        self.initialized
    }

    pub fn is_usable(&self) -> (yes: bool)
        ensures
            yes == self.usable(),
    {
        self.initialized && !self.degraded
    }

    /// The failure with which a call on an unusable bridge ends at once.
    fn refusal() -> (error: BridgeError)
        ensures
            error is RuntimeFault,
            error.text() == Self::degraded_text(),
    {
        BridgeError::RuntimeFault(String::from_str("Python bridge is degraded"))
    }

    /// Prepares the POST of `payload` to `endpoint` of the backend service:
    /// the address is the backend's base address followed by `endpoint`, the
    /// body is `payload` written as JSON text. On an unusable bridge nothing
    /// is prepared.
    pub fn fastapi_request(&self, endpoint: &str, payload: &serde_json::Value) -> (prepared:
        Result<BackendRequest, BridgeError>)
        ensures
            match prepared {
                Ok(request) => self.usable() && request.url@ == backend_base() + endpoint@
                    && request.body@ == json_text(*payload),
                Err(error) => !self.usable() && error is RuntimeFault && error.text()
                    == Self::degraded_text(),
            },
    {
        if !self.is_usable() {
            return Err(Self::refusal());
        }
        Ok(BackendRequest::to_endpoint(endpoint, write_json(payload)))
    }

    /// Turns what came back from the backend service into the result of the
    /// call: a body that is one JSON document gives its value, any other body
    /// a `ParseError`, a failed transfer a `Network` error.
    pub fn fastapi_response(&self, reply: BackendReply) -> (result: Result<
        serde_json::Value,
        BridgeError,
    >)
        ensures
            settles_reply(reply, result),
    {
        match reply {
            BackendReply::ClientMissing(why) => Err(client_missing(why.as_str())),
            BackendReply::TransportFailed(why) => Err(BridgeError::Network(why)),
            BackendReply::Body(text) => match read_json(text.as_str()) {
                Ok(value) => Ok(value),
                Err(error) => Err(unreadable_body(describe_json_error(&error).as_str())),
            },
        }
    }

    /// Sends `payload` to `endpoint` of the backend service and returns the
    /// value that the backend answers with. `transport` carries the request
    /// across; it is called once, and not at all on an unusable bridge.
    pub fn call_fastapi<F: FnOnce(BackendRequest) -> BackendReply>(
        &self,
        endpoint: &str,
        payload: &serde_json::Value,
        transport: F,
    ) -> (result: Result<serde_json::Value, BridgeError>)
        requires
            forall|request: BackendRequest|
                self.usable() && request.url@ == backend_base() + endpoint@ && request.body@
                    == json_text(*payload) ==> #[trigger] transport.requires((request,)),
        ensures
            !self.usable() ==> result is Err && result->Err_0 is RuntimeFault
                && result->Err_0.text() == Self::degraded_text(),
            self.usable() ==> exists|request: BackendRequest, reply: BackendReply|
                {
                    &&& #[trigger] transport.ensures((request,), reply)
                    &&& request.url@ == backend_base() + endpoint@
                    &&& request.body@ == json_text(*payload)
                    &&& settles_reply(reply, result)
                },
    {
        match self.fastapi_request(endpoint, payload) {
            Ok(request) => {
                let ghost sent = request;
                let reply = transport(request);
                let ghost got = reply;
                let result = self.fastapi_response(reply);
                assert(transport.ensures((sent,), got) && settles_reply(got, result));
                result
            },
            Err(error) => Err(error),
        }
    }

    /// Calls method `method_name` of the plugin object behind `handle` with
    /// `args` and returns what the method returned. `call` enters the foreign
    /// runtime and makes the call; it is called once, and not at all on an
    /// unusable bridge. A lost session leaves the bridge unusable.
    pub fn invoke_plugin_method<F: FnOnce(Invocation) -> ForeignOutcome>(
        &mut self,
        handle: &str,
        method_name: &str,
        args: serde_json::Value,
        call: F,
    ) -> (result: Result<serde_json::Value, BridgeError>)
        requires
            forall|invocation: Invocation|
                old(self).usable() && invocation.object@ == handle@ && invocation.method@
                    == method_name@ && invocation.args == args ==> #[trigger] call.requires(
                    (invocation,),
                ),
        ensures
            final(self).initialized() == old(self).initialized(),
            !old(self).usable() ==> {
                &&& result is Err
                &&& result->Err_0 is RuntimeFault
                &&& result->Err_0.text() == Self::degraded_text()
                &&& final(self).degraded() == old(self).degraded()
            },
            old(self).usable() ==> exists|invocation: Invocation, outcome: ForeignOutcome|
                {
                    &&& #[trigger] call.ensures((invocation,), outcome)
                    &&& invocation.object@ == handle@
                    &&& invocation.method@ == method_name@
                    &&& invocation.args == args
                    &&& settles_outcome(outcome, result)
                    &&& final(self).degraded() == (outcome is SessionLost)
                },
    {
        if !self.is_usable() {
            return Err(Self::refusal());
        }
        let invocation = Invocation {
            object: String::from_str(handle),
            method: String::from_str(method_name),
            args,
        };
        let ghost made = invocation;
        let outcome = call(invocation);
        let ghost got = outcome;
        let result = self.settle_invocation(outcome);
        assert(call.ensures((made,), got) && settles_outcome(got, result));
        result
    }

    /// Turns what came back from a plugin method into the result of the
    /// invocation, and records a lost session: from then on the bridge is
    /// unusable.
    pub fn settle_invocation(&mut self, outcome: ForeignOutcome) -> (result: Result<
        serde_json::Value,
        BridgeError,
    >)
        ensures
            final(self).initialized() == old(self).initialized(),
            final(self).degraded() == (old(self).degraded() || outcome is SessionLost),
            settles_outcome(outcome, result),
    {
        match outcome {
            ForeignOutcome::Returned(value) => Ok(value),
            ForeignOutcome::ObjectMissing(why) => Err(BridgeError::NotFound(why)),
            ForeignOutcome::MethodMissing(why) => Err(BridgeError::NotFound(why)),
            ForeignOutcome::ArgumentRejected(why) => Err(BridgeError::MarshalError(why)),
            ForeignOutcome::ResultRejected(why) => Err(BridgeError::MarshalError(why)),
            ForeignOutcome::Raised(why) => Err(BridgeError::RuntimeFault(why)),
            ForeignOutcome::SessionLost(why) => {
                self.degraded = true;
                Err(BridgeError::RuntimeFault(why))
            },
        }
    }
}

/// A backend that answers every request with the request's own body gives
/// the payload back, for every payload that `serde_json` reads back from its
/// own text as it was.
pub proof fn lemma_echo_round_trip(
    payload: serde_json::Value,
    request: BackendRequest,
    result: Result<serde_json::Value, BridgeError>,
)
    requires
        request.body@ == json_text(payload),
        settles_reply(BackendReply::Body(request.body), result),
    ensures
        json_parse(json_text(payload)) == Some(payload) ==> result == Ok::<
            serde_json::Value,
            BridgeError,
        >(payload),
{
}

impl Default for PythonBridge {
    fn default() -> (bridge: Self)
        ensures
            bridge.initialized(),
            !bridge.degraded(),
    {
        PythonBridge::new()
    }
}

} // verus!
