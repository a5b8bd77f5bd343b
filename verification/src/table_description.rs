//! Checks and error reporting for describing an existing table's columns.
//!
//! The description itself is obtained through DuckDB's C API; this module
//! decides which schema and table names can be handed to C and what a failed
//! description reports.

use vstd::prelude::*;
use vstd::utf8::{decode_utf8, valid_utf8};
use crate::error::ExtensionError;
use crate::status::success_status;
use crate::text::{c_text_to_string, has_nul};

verus! {

/// The message of a failed description, with DuckDB's own explanation when
/// there is one.
pub open spec fn describe_failure_message(
    schema: Seq<char>,
    table: Seq<char>,
    detail: Option<Seq<char>>,
) -> Seq<char> {
    let base = "failed to describe table '"@ + schema + "."@ + table + "'"@;
    match detail {
        Some(d) => base + ": "@ + d,
        None => base,
    }
}

/// DuckDB's explanation as reported: the decoded text, or "unknown error"
/// when it is not valid UTF-8.
pub open spec fn reported_detail(bytes: Seq<u8>) -> Seq<char> {
    if valid_utf8(bytes) {
        decode_utf8(bytes)
    } else {
        "unknown error"@
    }
}

/// Checks that the schema and table names can be handed to C: the schema is
/// checked first.
pub fn check_table_names(schema: &str, table: &str) -> (r: Result<(), ExtensionError>)
    ensures
        r is Ok <==> (!schema@.contains('\0') && !table@.contains('\0')),
        r matches Err(e) ==> e@ == if schema@.contains('\0') {
            "schema name contains null byte"@
        } else {
            "table name contains null byte"@
        },
{
    if has_nul(schema) {
        return Err(ExtensionError::new("schema name contains null byte"));
    }
    if has_nul(table) {
        return Err(ExtensionError::new("table name contains null byte"));
    }
    Ok(())
}

/// The result of asking DuckDB for a table description, given the status it
/// returned, whether it handed out a description handle, and the bytes of the
/// error text attached to that handle, if any.
///
/// Succeeds exactly when the status is success and a handle was handed out;
/// otherwise the error names the table and carries DuckDB's explanation when
/// a handle with an error text exists.
pub fn creation_outcome(
    schema: &str,
    table: &str,
    status: u32,
    has_handle: bool,
    error_text: Option<&[u8]>,
) -> (r: Result<(), ExtensionError>)
    ensures
        r is Ok <==> (status == 0 && has_handle),
        r matches Err(e) ==> e@ == describe_failure_message(
            schema@,
            table@,
            if has_handle && error_text is Some {
                Some(reported_detail(error_text->0@))
            } else {
                None
            },
        ),
{
    if status == success_status() && has_handle {
        return Ok(());
    }
    let mut message = String::from_str("failed to describe table '");
    message.append(schema);
    message.append(".");
    message.append(table);
    message.append("'");
    if has_handle {
        if let Some(bytes) = error_text {
            message.append(": ");
            match c_text_to_string(Some(bytes)) {
                Some(detail) => message.append(detail.as_str()),
                None => message.append("unknown error"),
            }
        }
    }
    Err(ExtensionError::from_message(message))
}

/// A failed description names the table as `'schema.table'` and, when
/// DuckDB explained the failure, appends `": "` and the explanation; an
/// explanation that is not valid UTF-8 is reported as "unknown error".
pub proof fn law_failure_message_layout(
    schema: Seq<char>,
    table: Seq<char>,
    detail: Seq<char>,
    bytes: Seq<u8>,
)
    ensures
        describe_failure_message(schema, table, None) == "failed to describe table '"@ + schema
            + "."@ + table + "'"@,
        describe_failure_message(schema, table, Some(detail)) == describe_failure_message(
            schema,
            table,
            None,
        ) + ": "@ + detail,
        valid_utf8(bytes) ==> reported_detail(bytes) == decode_utf8(bytes),
        !valid_utf8(bytes) ==> reported_detail(bytes) == "unknown error"@,
{
}

} // verus!
