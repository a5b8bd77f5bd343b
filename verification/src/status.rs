//! The status codes of DuckDB's C API.

use vstd::prelude::*;

verus! {

/// DuckDB's status code for a successful call.
///
/// Trusted: reads `libduckdb_sys::DuckDBSuccess`, which the crate's bindings
/// define as 0.
#[verifier::external_body]
pub(crate) fn success_status() -> (r: u32)
    ensures
        r == 0,
{
    libduckdb_sys::DuckDBSuccess
}

} // verus!
