//! Reading the port of the sandbox endpoint from the arguments of a `launch` request.

use vstd::prelude::*;

use crate::json::{spec_get, JsonValue};
use crate::number::{parse_u16, spec_parse_u16};
use crate::protocol::LaunchRequestArguments;
use crate::text::same_text;

verus! {

/// The port named by launch arguments of the form `["--port", "<number>", ...]`.
pub open spec fn port_from_arg_list(items: Seq<JsonValue>) -> Option<u16> {
    if items.len() >= 2 && (items[0] matches JsonValue::Str(flag) && flag@ == "--port"@) {
        match items[1] {
            JsonValue::Str(text) => spec_parse_u16(text@),
            _ => None,
        }
    } else {
        None
    }
}

/// The port that a `launch` request asks for: the one named in the array
/// stored under `args` in its additional attributes.
pub open spec fn spec_port_from_args(args: LaunchRequestArguments) -> Option<u16> {
    match args.additional_data {
        Some(data) => match spec_get(data, "args"@) {
            Some(JsonValue::Array(items)) => port_from_arg_list(items@),
            _ => None,
        },
        None => None,
    }
}

/// The port that a `launch` request asks for, if it names a valid one.
pub fn extract_port_from_args(args: &LaunchRequestArguments) -> (port: Option<u16>)
    ensures
        port == spec_port_from_args(*args),
{
    let data = match &args.additional_data {
        Some(data) => data,
        None => return None,
    };
    let items = match data.get("args") {
        Some(value) => match value.as_array() {
            Some(items) => items,
            None => return None,
        },
        None => return None,
    };
    if items.len() < 2 {
        return None;
    }
    let flag = match items[0].as_str() {
        Some(flag) => flag,
        None => return None,
    };
    if !same_text(flag, "--port") {
        return None;
    }
    match items[1].as_str() {
        Some(text) => parse_u16(text),
        None => None,
    }
}

} // verus!
