//! License records and the decisions made over them.  Reading and writing
//! the license file, and asking the license server, are the caller's work:
//! everything here is a function from plain values to plain values.

use vstd::prelude::*;
use crate::text::{
    spec_contains, spec_starts_with, spec_trim, str_contains, str_starts_with, str_trim,
};

verus! {

/// What the license server reports about a license.
#[derive(Debug)]
pub struct LicenseData {
    pub id: u64,
    pub public_key: String,
    pub secret_key: String,
    pub is_active: bool,
    pub expiration: Option<String>,
}

/// The locally stored license record.
#[derive(Debug, Clone)]
pub struct LocalLicense {
    pub key: String,
    pub id: u64,
}

/// The error an activation reports for a key it cannot accept.
pub struct LicenseError;

/// Accepts a license key locally: a key with the product prefix `ED-`
/// becomes a stored record under the fixed development id, and any other
/// key is rejected.
pub fn activate_license(license_key: String) -> (r: Result<LocalLicense, LicenseError>)
    ensures
        r matches Ok(l) ==> spec_starts_with(license_key@, "ED-"@) && l.key@ == license_key@
            && l.id == 12345,
        r matches Err(_) ==> !spec_starts_with(license_key@, "ED-"@),
{
    if str_starts_with(license_key.as_str(), "ED-") {
        Ok(LocalLicense { key: license_key, id: 12345 })
    } else {
        Err(LicenseError)
    }
}

/// Whether a stored license is taken as active: exactly when its key is
/// nonempty.
pub fn check_license_status(license: &LocalLicense) -> (r: bool)
    ensures
        r == (license.key@.len() > 0),
{
    !license.key.as_str().is_empty()
}

/// What a license-key check decides before any network is involved.
#[derive(PartialEq, Eq, Structural, Clone, Copy, Debug)]
pub enum LicenseGate {
    /// The trimmed key carries the pro prefix: active without asking.
    Pro,
    /// The trimmed key is empty: not licensed.
    Invalid,
    /// The trimmed key must be put to the license server.
    Verify,
}

/// Gates a raw license key: empty after trimming is invalid, a trimmed key
/// with the `ED-PRO` prefix is active at once, and anything else must be
/// verified over the network.
pub fn check_license_key(key: &str) -> (r: LicenseGate)
    ensures
        r == (if spec_trim(key@).len() == 0 {
            LicenseGate::Invalid
        } else if spec_starts_with(spec_trim(key@), "ED-PRO"@) {
            LicenseGate::Pro
        } else {
            LicenseGate::Verify
        }),
{
    let trimmed = str_trim(key);
    if trimmed.as_str().is_empty() {
        LicenseGate::Invalid
    } else if str_starts_with(trimmed.as_str(), "ED-PRO") {
        LicenseGate::Pro
    } else {
        LicenseGate::Verify
    }
}

/// Whether a license server's reply body reports the key valid: exactly
/// when it holds the marker `"valid":true`.
pub fn license_response_valid(body: &str) -> (r: bool)
    ensures
        r == spec_contains(body@, "\"valid\":true"@),
{
    str_contains(body, "\"valid\":true")
}

} // verus!
