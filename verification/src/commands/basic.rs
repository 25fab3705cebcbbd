//! The greeting, the short system description and the plain backend call.

use vstd::prelude::*;
use vstd::string::*;

verus! {

/// The release of the host.
pub open spec fn host_version() -> Seq<char> {
    "0.1.0"@
}

/// The short description of the system the host runs on.
#[derive(Debug)]
pub struct SystemInfo {
    pub os: String,
    pub arch: String,
    pub version: String,
}

impl SystemInfo {
    /// The description of a system with this operating system and processor
    /// architecture.
    pub fn new(os: &str, arch: &str) -> (info: Self)
        ensures
            info.os@ == os@,
            info.arch@ == arch@,
            info.version@ == host_version(),
    {
        SystemInfo {
            os: String::from_str(os),
            arch: String::from_str(arch),
            version: String::from_str("0.1.0"),
        }
    }
}

/// The greeting for `name`.
pub fn greet(name: &str) -> (greeting: String)
    ensures
        greeting@ == "Hello, "@ + name@ + "! Welcome to ClipShot!"@,
{
    let mut greeting = String::from_str("Hello, ");
    greeting.append(name);
    greeting.append("! Welcome to ClipShot!");
    greeting
}

/// The address of `endpoint` in the backend's API.
pub fn backend_api_url(endpoint: &str) -> (url: String)
    ensures
        url@ == "http://localhost:8000/api/v1/"@ + endpoint@,
{
    let mut url = String::from_str("http://localhost:8000/api/v1/");
    url.append(endpoint);
    url
}

/// What became of a GET to the backend's API.
#[derive(Debug)]
pub enum ApiOutcome {
    /// The backend answered with this text.
    Text(String),
    /// The backend answered, and its answer could not be read.
    ReadFailed(String),
    /// The backend could not be reached.
    CallFailed(String),
}

/// What the command answers for `outcome`: the text, or a message that says
/// which step failed and why.
pub fn backend_api_result(outcome: ApiOutcome) -> (result: Result<String, String>)
    ensures
        match outcome {
            ApiOutcome::Text(text) => result is Ok && result->Ok_0@ == text@,
            ApiOutcome::ReadFailed(why) => result is Err && result->Err_0@
                == "Failed to read response: "@ + why@,
            ApiOutcome::CallFailed(why) => result is Err && result->Err_0@
                == "Failed to call API: "@ + why@,
        },
{
    match outcome {
        ApiOutcome::Text(text) => Ok(text),
        ApiOutcome::ReadFailed(why) => {
            let mut m = String::from_str("Failed to read response: ");
            m.append(why.as_str());
            Err(m)
        },
        ApiOutcome::CallFailed(why) => {
            let mut m = String::from_str("Failed to call API: ");
            m.append(why.as_str());
            Err(m)
        },
    }
}

} // verus!
