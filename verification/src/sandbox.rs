//! What the sandbox of the contract runtime sends to the debug adapter: the
//! requests that carry its step log.

use vstd::prelude::*;

use crate::json_text::json_string_literal;
use crate::number::{decimal, decimal_string};

verus! {

/// Calls `serde_json::to_string` on a string slice, which writes the text
/// quoted, with `"` and `\` escaped, `\b \t \n \f \r` for those control
/// characters, `\u00xx` (lower-case hex) for the other control characters,
/// and every other character as it is (`format_escaped_str` and its `ESCAPE`
/// table). Serializing a `str` into memory cannot fail, so the `Result`
/// always holds a value.
#[verifier::external_body]
fn encode_json_string(text: &str) -> (encoded: String)
    ensures
        encoded@ == json_string_literal(text@),
{
    serde_json::to_string(text).unwrap()
}

/// The JSON body of a log request: an object whose one member `message` holds `message`.
pub open spec fn log_request_json(message: Seq<char>) -> Seq<char> {
    "{\"message\":"@ + json_string_literal(message) + "}"@
}

/// An HTTP POST request to make.
#[derive(Debug, Clone)]
pub struct HttpPost {
    pub url: String,
    pub content_type: String,
    pub body: String,
}

/// Where the sandbox reaches the debug adapter.
#[derive(Debug, Clone)]
pub struct SandboxEndpoint {
    pub base_url: String,
}

impl Default for SandboxEndpoint {
    /// The debug adapter on this machine, at its default port.
    fn default() -> (endpoint: SandboxEndpoint)
        ensures
            endpoint.base_url@ == "http://localhost:9229"@,
    {
        SandboxEndpoint { base_url: String::from_str("http://localhost:9229") }
    }
}

impl SandboxEndpoint {
    /// The address of the adapter's log endpoint.
    pub fn log_url(&self) -> (url: String)
        ensures
            url@ == self.base_url@ + "/log"@,
    {
        let mut url = self.base_url.clone();
        url.append("/log");
        url
    }

    /// The request that sends `message` to the adapter's log: a JSON object
    /// with the member `message`, posted to the log endpoint.
    pub fn log_post(&self, message: &str) -> (post: HttpPost)
        ensures
            post.url@ == self.base_url@ + "/log"@,
            post.content_type@ == "application/json"@,
            post.body@ == log_request_json(message@),
    {
        let mut body = String::from_str("{\"message\":");
        body.append(encode_json_string(message).as_str());
        body.append("}");
        HttpPost { url: self.log_url(), content_type: String::from_str("application/json"), body }
    }
}

/// The log line of one step of the contract: the program counter in decimal.
pub open spec fn step_line(pc: u32) -> Seq<char> {
    "[Sandbox Rpc] [PC: "@ + decimal(pc as nat) + "]"@
}

/// The log line of one step of the contract at program counter `pc`.
pub fn step_message(pc: u32) -> (line: String)
    ensures
        line@ == step_line(pc),
{
    let mut line = String::from_str("[Sandbox Rpc] [PC: ");
    line.append(decimal_string(pc as u64).as_str());
    line.append("]");
    line
}

} // verus!
