//! The capability contract: what every plugin offers the host, whatever it is
//! implemented in.

use vstd::prelude::*;

use crate::bridge::json::json_parse;
use crate::error::{BridgeError, ConfigError};

verus! {

/// A captured clip, as it is announced to a plugin. The host makes the value;
/// the plugin only reads it.
#[derive(Debug)]
pub struct ClipEvent {
    pub id: String,
    pub title: String,
    pub width: u32,
    pub height: u32,
}

impl ClipEvent {
    pub fn new(id: String, title: String, width: u32, height: u32) -> (event: Self)
        ensures
            event.id == id,
            event.title == title,
            event.width == width,
            event.height == height,
    {
        ClipEvent { id, title, width, height }
    }
}

/// What a plugin reports of itself.
#[derive(Debug)]
pub struct StatusRecord {
    pub healthy: bool,
    pub version: String,
    /// How many events the plugin has taken.
    pub clip_count: u64,
    /// Whether the plugin's fast path is switched on.
    pub use_simd: bool,
    /// What the plugin is implemented in.
    pub language: String,
}

/// What a [`StatusRecord`] says, as plain text.
pub struct StatusView {
    pub healthy: bool,
    pub version: Seq<char>,
    pub clip_count: nat,
    pub use_simd: bool,
    pub language: Seq<char>,
}

impl View for StatusRecord {
    type V = StatusView;

    open spec fn view(&self) -> StatusView {
        StatusView {
            healthy: self.healthy,
            version: self.version@,
            clip_count: self.clip_count as nat,
            use_simd: self.use_simd,
            language: self.language@,
        }
    }
}

/// A request for one of a plugin's own operations. What the payload means is
/// for the plugin to say.
#[derive(Debug)]
pub struct OperationRequest {
    pub operation: String,
    pub payload: Vec<u8>,
}

/// The answer to an [`OperationRequest`].
#[derive(Debug)]
pub struct OperationResponse {
    pub payload: Vec<u8>,
}

/// The capability contract.
pub trait Plugin {
    /// Whether the plugin has accepted a configuration.
    spec fn configured(&self) -> bool;

    /// What the plugin reports of itself in its present state.
    spec fn status(&self) -> StatusView;

    /// What the plugin in its present state answers to a request, if it
    /// accepts the request.
    spec fn answer(&self, operation: Seq<char>, payload: Seq<u8>) -> Option<Seq<u8>>;

    /// Takes the configuration document `config`. The plugin accepts every
    /// document that is JSON, whatever fields it holds, and rejects every
    /// other text; a rejected document leaves the plugin as it was.
    fn init(&mut self, config: &str) -> (result: Result<(), ConfigError>)
        ensures
            result is Ok <==> json_parse(config@) is Some,
            result is Ok ==> final(self).configured(),
            result is Err ==> final(self).configured() == old(self).configured(),
            result is Err ==> final(self).status() == old(self).status(),
    ;

    /// Releases what the plugin holds. On a plugin that was never
    /// configured this succeeds and does nothing.
    fn shutdown(&mut self) -> (result: Result<(), BridgeError>)
        ensures
            !old(self).configured() ==> result is Ok && !final(self).configured(),
            !old(self).configured() ==> final(self).status() == old(self).status(),
    ;

    /// Takes one event. An event that the plugin fails on leaves no trace in
    /// what the plugin reports.
    fn on_event(&mut self, event: &ClipEvent) -> (result: Result<(), BridgeError>)
        ensures
            final(self).configured() == old(self).configured(),
            result is Err ==> final(self).status() == old(self).status(),
    ;

    /// Reports the plugin's status.
    fn get_status(&self) -> (record: StatusRecord)
        ensures
            record@ == self.status(),
    ;

    /// Runs one of the plugin's own operations. The answer depends on the
    /// plugin's state and on the request, and on nothing else.
    fn process(&self, request: &OperationRequest) -> (result: Result<
        OperationResponse,
        BridgeError,
    >)
        ensures
            match self.answer(request.operation@, request.payload@) {
                Some(bytes) => result is Ok && result->Ok_0.payload@ == bytes,
                None => result is Err,
            },
    ;
}

} // verus!
