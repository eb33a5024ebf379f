//! The operations the desktop shell invokes, less the run of the script.
use vstd::prelude::*;
use crate::bridge::BridgeError;
use crate::model::{BridgeRequest, OrderItem, ParseResult, PdfInfo};

verus! {

/// The liveness probe: a fixed greeting, with no process involved.
pub fn test_command() -> (r: String)
    ensures
        r@ == "Hello from Rust!"@,
{
    String::from_str("Hello from Rust!")
}

/// The request that asks the script to parse the document at `path`.
pub fn parse_request(path: String) -> (r: BridgeRequest)
    ensures
        r == (BridgeRequest::Parse { path }),
{
    BridgeRequest::Parse { path }
}

/// The request that asks the script to write `data` and `info` to `path`.
pub fn export_request(path: String, data: Vec<OrderItem>, info: PdfInfo) -> (r: BridgeRequest)
    ensures
        r == (BridgeRequest::Export { path, data, info }),
{
    BridgeRequest::Export { path, data, info }
}

/// How many rows decoded: none when `items` is absent.
pub open spec fn row_count(items: Option<Vec<OrderItem>>) -> nat {
    match items {
        Some(v) => v@.len(),
        None => 0,
    }
}

/// Finishes a `parse` whose run succeeded, from the rows and the header that
/// decoded from the response (`None` where a member is absent or does not
/// decode). No rows is an error, though the run succeeded; a missing header
/// becomes `PdfInfo::default_info()`.
pub fn parse_pdf_result(items: Option<Vec<OrderItem>>, info: Option<PdfInfo>) -> (r: Result<
    ParseResult,
    BridgeError,
>)
    ensures
        row_count(items) == 0 ==> r == Err::<ParseResult, BridgeError>(BridgeError::NoRows),
        row_count(items) > 0 ==> (r matches Ok(p) && items == Some(p.items) && (match info {
            Some(i) => p.info == i,
            None => p.info.is_default(),
        })),
{
    let items = match items {
        Some(v) => v,
        None => Vec::new(),
    };
    if items.len() == 0 {
        return Err(BridgeError::NoRows);
    }
    let info = match info {
        Some(i) => i,
        None => PdfInfo::default_info(),
    };
    Ok(ParseResult { items, info })
}

/// The environment is ready exactly when both the interpreter and the script
/// are on disk.
pub fn check_python(interpreter_exists: bool, script_exists: bool) -> (r: bool)
    ensures
        r == (interpreter_exists && script_exists),
{
    interpreter_exists && script_exists
}

} // verus!
