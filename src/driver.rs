//! The accessibility driver's protocol surface: what it can do, how a
//! request's method is dispatched, and the identifiers it stamps on replies.

use vstd::prelude::*;

use crate::text::{lower_hex_digits, lower_hex_of, push_str};

verus! {

/// JSON-RPC version written on every reply.
pub const JSONRPC_VERSION: &'static str = "2.0";

/// JSON-RPC code of a request that could not be parsed.
pub const PARSE_ERROR_CODE: i32 = -32700;

/// JSON-RPC code of a request naming an unknown method.
pub const METHOD_NOT_FOUND_CODE: i32 = -32601;

/// Name the driver reports for itself.
pub const DRIVER_NAME: &'static str = "windows-uia";

/// Kind the driver reports for itself.
pub const DRIVER_KIND: &'static str = "native";

/// Version the driver reports for itself.
pub const DRIVER_VERSION: &'static str = "0.1.0";

/// What the driver can do.
#[derive(Clone, Copy, PartialEq, Eq, Structural, Debug)]
pub struct DriverCapabilities {
    pub can_snapshot: bool,
    pub can_click: bool,
    pub can_type: bool,
    pub can_scroll: bool,
    pub can_key: bool,
    pub can_ocr: bool,
    pub can_screenshot: bool,
    pub can_inject_input: bool,
}

/// The methods a request may name.
#[derive(Clone, Copy, PartialEq, Eq, Structural, Debug)]
pub enum DriverMethod {
    GetCapabilities,
    Snapshot,
    /// `click`, `type` and `key`, which are acknowledged without effect.
    Action,
    Unknown,
}

/// The method a request's name selects.
pub open spec fn method_of(name: Seq<char>) -> DriverMethod {
    if name == "get_capabilities"@ {
        DriverMethod::GetCapabilities
    } else if name == "snapshot"@ {
        DriverMethod::Snapshot
    } else if name == "click"@ || name == "type"@ || name == "key"@ {
        DriverMethod::Action
    } else {
        DriverMethod::Unknown
    }
}

/// The driver.
pub struct WindowsDriver;

impl WindowsDriver {
    pub fn new() -> (r: Self) {
        WindowsDriver
    }

    /// Snapshots, clicks, typing, keys and input injection; no scrolling,
    /// text recognition or screenshots.
    pub fn get_capabilities(&self) -> (r: DriverCapabilities)
        ensures
            r == (DriverCapabilities {
                can_snapshot: true,
                can_click: true,
                can_type: true,
                can_scroll: false,
                can_key: true,
                can_ocr: false,
                can_screenshot: false,
                can_inject_input: true,
            }),
    {
        DriverCapabilities {
            can_snapshot: true,
            can_click: true,
            can_type: true,
            can_scroll: false,
            can_key: true,
            can_ocr: false,
            can_screenshot: false,
            can_inject_input: true,
        }
    }
}

/// The method a request names.
pub fn classify_method(name: &String) -> (r: DriverMethod)
    ensures
        r == method_of(name@),
{
    if *name == "get_capabilities".to_owned() {
        DriverMethod::GetCapabilities
    } else if *name == "snapshot".to_owned() {
        DriverMethod::Snapshot
    } else if *name == "click".to_owned() || *name == "type".to_owned() || *name == "key".to_owned() {
        DriverMethod::Action
    } else {
        DriverMethod::Unknown
    }
}

/// The error message for an unknown method.
pub fn method_not_found_message(name: &str) -> (r: String)
    ensures
        r@ == "Method not found: "@ + name@,
{
    let mut r = "Method not found: ".to_owned();
    push_str(&mut r, name);
    r
}

/// Relies on `SystemTime::elapsed`, taken from the Unix epoch: the time
/// since then in nanoseconds, or `None` when the clock reads earlier.
#[verifier::external_body]
fn nanos_since_epoch() -> Option<u128> {
    std::time::UNIX_EPOCH.elapsed().ok().map(|d| d.as_nanos())
}

/// A snapshot identifier: the current time in nanoseconds since the Unix
/// epoch, in lowercase hexadecimal (`0` when the clock reads earlier).
pub fn generate_id() -> (r: String)
    ensures
        exists|n: u128| r@ == lower_hex_of(n as nat),
{
    let nanos: u128 = match nanos_since_epoch() {
        Some(n) => n,
        None => 0,
    };
    lower_hex_digits(nanos)
}

/// The timestamp stamped on snapshots.
pub fn get_timestamp() -> (r: String)
    ensures
        r@ == "2025-01-01T00:00:00.000Z"@,
{
    "2025-01-01T00:00:00.000Z".to_owned()
}

} // verus!
