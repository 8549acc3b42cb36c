//! Reading the host's name.
use vstd::prelude::*;

verus! {

/// Relies on `hostname::get`: the host's name, decoded lossily, as bytes, or the
/// operating system's error as text. Nothing is known of either in advance.
#[verifier::external_body]
pub(crate) fn read_hostname() -> (r: Result<Vec<u8>, String>) {
    match hostname::get() {
        Ok(name) => Ok(name.to_string_lossy().into_owned().into_bytes()),
        Err(error) => Err(error.to_string()),
    }
}

} // verus!
