//! What the service must be configured with before it starts.

use vstd::prelude::*;
use vstd::string::*;

use crate::error::ErrorKind;

verus! {

/// The bytes of an optional setting.
pub open spec fn setting_bytes(value: Option<&str>) -> Option<Seq<u8>> {
    match value {
        Some(text) => Some(text.spec_bytes()),
        None => None,
    }
}

/// What `signing_secret` returns for a setting.
pub open spec fn secret_of(value: Option<Seq<u8>>) -> Result<Seq<u8>, ErrorKind> {
    match value {
        Some(bytes) => Ok(bytes),
        None => Err(ErrorKind::ConfigMissing),
    }
}

/// The signing secret from its setting: the bytes of the text. A service
/// without the setting must not start.
pub fn signing_secret(configured: Option<&str>) -> (outcome: Result<Vec<u8>, ErrorKind>)
    ensures
        match secret_of(setting_bytes(configured)) {
            Ok(bytes) => outcome matches Ok(secret) && secret@ == bytes,
            Err(kind) => outcome matches Err(refusal) && refusal == kind,
        },
{
    match configured {
        Some(text) => Ok(text.as_bytes_vec()),
        None => Err(ErrorKind::ConfigMissing),
    }
}

} // verus!
