//! Failure values of the plugin host.
//!
//! Every failure is a plain value with a human-readable message; nothing in
//! this crate aborts the process.

use vstd::prelude::*;
use vstd::string::*;

verus! {

/// An operation named a plugin id that the registry does not hold.
#[derive(Debug)]
pub struct NotFoundError {
    pub id: String,
}

impl NotFoundError {
    /// The message shown to the caller.
    pub open spec fn text(self) -> Seq<char> {
        "Plugin "@ + self.id@ + " not found"@
    }

    pub fn message(&self) -> (m: String)
        ensures
            m@ == self.text(),
    {
        let mut m = String::from_str("Plugin ");
        m.append(self.id.as_str());
        m.append(" not found");
        m
    }
}

/// A plugin rejected its configuration document.
#[derive(Debug)]
pub struct ConfigError {
    pub reason: String,
}

impl ConfigError {
    /// The message shown to the caller.
    pub open spec fn text(self) -> Seq<char> {
        "Invalid plugin configuration: "@ + self.reason@
    }

    pub fn message(&self) -> (m: String)
        ensures
            m@ == self.text(),
    {
        let mut m = String::from_str("Invalid plugin configuration: ");
        m.append(self.reason.as_str());
        m
    }
}

/// A failure of a call to a plugin or to the backend service. Each variant
/// carries the message of the fault.
#[derive(Debug)]
pub enum BridgeError {
    /// The plugin object or the method asked for does not exist.
    NotFound(String),
    /// An argument or a result could not be converted across the boundary.
    MarshalError(String),
    /// The foreign call raised.
    RuntimeFault(String),
    /// The backend could not be reached.
    Network(String),
    /// The backend's reply is not a structured document.
    ParseError(String),
}

impl BridgeError {
    /// The message shown to the caller.
    pub open spec fn text(self) -> Seq<char> {
        match self {
            BridgeError::NotFound(m) => m@,
            BridgeError::MarshalError(m) => m@,
            BridgeError::RuntimeFault(m) => m@,
            BridgeError::Network(m) => m@,
            BridgeError::ParseError(m) => m@,
        }
    }

    pub fn message(&self) -> (m: String)
        ensures
            m@ == self.text(),
    {
        match self {
            BridgeError::NotFound(m) => m.clone(),
            BridgeError::MarshalError(m) => m.clone(),
            BridgeError::RuntimeFault(m) => m.clone(),
            BridgeError::Network(m) => m.clone(),
            BridgeError::ParseError(m) => m.clone(),
        }
    }
}

/// Why a plugin could not be loaded.
#[derive(Debug)]
pub enum LoadError {
    /// The artifact at the given path is not a plugin.
    ArtifactInvalid,
    /// The plugin needs the foreign runtime, and no usable bridge exists.
    BridgeUnavailable,
    /// The bridge failed while standing the plugin up.
    Bridge(BridgeError),
}

impl LoadError {
    /// The message shown to the caller.
    pub open spec fn text(self) -> Seq<char> {
        match self {
            LoadError::ArtifactInvalid => "Plugin artifact is invalid"@,
            LoadError::BridgeUnavailable => "Python bridge is unavailable"@,
            LoadError::Bridge(e) => e.text(),
        }
    }

    pub fn message(&self) -> (m: String)
        ensures
            m@ == self.text(),
    {
        match self {
            LoadError::ArtifactInvalid => String::from_str("Plugin artifact is invalid"),
            LoadError::BridgeUnavailable => String::from_str("Python bridge is unavailable"),
            LoadError::Bridge(e) => e.message(),
        }
    }
}

} // verus!
