//! Error replies of the server's REST API.

use vstd::prelude::*;
use vstd::string::StringExecFns;

verus! {

/// HTTP 400 Bad Request.
pub const STATUS_BAD_REQUEST: u16 = 400;

/// HTTP 404 Not Found.
pub const STATUS_NOT_FOUND: u16 = 404;

/// HTTP 500 Internal Server Error.
pub const STATUS_INTERNAL_SERVER_ERROR: u16 = 500;

/// HTTP 503 Service Unavailable.
pub const STATUS_SERVICE_UNAVAILABLE: u16 = 503;

/// An API error: HTTP status and message text.
#[derive(Debug)]
pub struct ApiError {
    pub status: u16,
    pub message: String,
}

/// `<kind> <id> not found`.
pub open spec fn not_found_text(kind: Seq<char>, id: Seq<char>) -> Seq<char> {
    kind + " "@ + id + " not found"@
}

/// 404 reply naming the missing resource: `<kind> <id> not found`.
pub fn not_found(kind: &str, id: &str) -> (e: ApiError)
    ensures
        e.status == STATUS_NOT_FOUND,
        e.message@ == not_found_text(kind@, id@),
{
    let mut message = String::from_str(kind);
    message.append(" ");
    message.append(id);
    message.append(" not found");
    ApiError { status: STATUS_NOT_FOUND, message }
}

/// 500 reply carrying the database error text.
pub fn internal_error(message: String) -> (e: ApiError)
    ensures
        e.status == STATUS_INTERNAL_SERVER_ERROR,
        e.message@ == message@,
{
    ApiError { status: STATUS_INTERNAL_SERVER_ERROR, message }
}

/// The row that was looked up, or a 404 naming it (`<kind> <id> not found`).
pub fn found_or_not_found<T>(row: Option<T>, kind: &str, id: &str) -> (r: Result<T, ApiError>)
    ensures
        row is Some <==> r is Ok,
        r matches Ok(t) ==> row == Some(t),
        r matches Err(e) ==> e.status == STATUS_NOT_FOUND && e.message@ == not_found_text(kind@, id@),
{
    match row {
        Some(t) => Ok(t),
        None => Err(not_found(kind, id)),
    }
}

/// An update or delete that touched no row is a 404 naming the resource.
pub fn require_rows_affected(rows_affected: u64, kind: &str, id: &str) -> (r: Result<(), ApiError>)
    ensures
        r is Ok <==> rows_affected != 0,
        r matches Err(e) ==> e.status == STATUS_NOT_FOUND && e.message@ == not_found_text(kind@, id@),
{
    if rows_affected == 0 {
        Err(not_found(kind, id))
    } else {
        Ok(())
    }
}

} // verus!
