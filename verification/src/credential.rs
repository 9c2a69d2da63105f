//! Resolution and validation of the provider credential.

use vstd::prelude::*;
use crate::error::{ConfigFault, ErrView, TranscriptionError, result_view};
use crate::text::{trim_spaces, trimmed};

verus! {

/// What credential resolution makes of the raw environment value: the
/// trimmed credential, or the configuration fault it is refused with.
pub open spec fn credential_outcome(raw: Option<Seq<char>>) -> Result<Seq<char>, ErrView> {
    match raw {
        None => Err(ErrView::Configuration(ConfigFault::Missing)),
        Some(s) => if trimmed(s).len() == 0 {
            Err(ErrView::Configuration(ConfigFault::Empty))
        } else {
            Ok(trimmed(s))
        },
    }
}

/// The raw environment value, seen at the level of views.
pub open spec fn raw_view(raw: Option<&str>) -> Option<Seq<char>> {
    match raw {
        Some(s) => Some(s@),
        None => None,
    }
}

/// Validates the credential read from the environment: refuses an unset
/// variable and a value that is empty after trimming, and otherwise returns
/// the trimmed credential.
pub fn resolve_credential(raw: Option<&str>) -> (r: Result<String, TranscriptionError>)
    ensures
        result_view(r) == credential_outcome(raw_view(raw)),
{
    match raw {
        None => Err(TranscriptionError::Configuration(ConfigFault::Missing)),
        Some(s) => {
            let t = trim_spaces(s);
            if t.as_str().is_empty() {
                Err(TranscriptionError::Configuration(ConfigFault::Empty))
            } else {
                Ok(t)
            }
        },
    }
}

/// A refused credential is always a configuration fault: whenever the raw
/// value is absent or trims to nothing, resolution fails with
/// `Configuration`, and so no request is ever formed from such a value.
pub proof fn lemma_credential_gate(raw: Option<Seq<char>>)
    requires
        raw is None || trimmed(raw.unwrap()).len() == 0,
    ensures
        credential_outcome(raw) matches Err(e) && e matches ErrView::Configuration(_),
{
}

} // verus!
