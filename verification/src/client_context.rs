//! Decisions about a connection's client context and the settings read
//! through it.

use vstd::prelude::*;
use vstd::utf8::{decode_utf8, valid_utf8};
use crate::error::ExtensionError;
use crate::text::c_text_to_string;

verus! {

/// The result of asking DuckDB for a connection's client context, given
/// whether it handed one out: an error exactly when it did not.
pub fn context_outcome(has_context: bool) -> (r: Result<(), ExtensionError>)
    ensures
        r is Ok <==> has_context,
        r matches Err(e) ==> e@ == "failed to obtain client context from connection"@,
{
    if has_context {
        Ok(())
    } else {
        Err(ExtensionError::new("failed to obtain client context from connection"))
    }
}

/// The text of a configuration option's value, given whether DuckDB returned
/// a value and the bytes of its text (`None` for a null text): `None` when
/// there is no value, no text, or text that is not valid UTF-8.
pub fn config_value_text(has_value: bool, text: Option<&[u8]>) -> (r: Option<String>)
    ensures
        !has_value ==> r is None,
        has_value && text is None ==> r is None,
        has_value ==> (text matches Some(b) ==> (r is Some <==> valid_utf8(b@))),
        has_value ==> (text matches Some(b) ==> (r matches Some(s) ==> s@ == decode_utf8(b@))),
{
    if !has_value {
        return None;
    }
    c_text_to_string(text)
}

} // verus!
