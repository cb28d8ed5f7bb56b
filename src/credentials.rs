use vstd::prelude::*;
use vstd::string::StringSliceAdditionalSpecFns;

verus! {

/// Longest network name the radio accepts, in bytes.
pub const MAX_SSID_LEN: usize = 32;

/// Longest passphrase the radio accepts, in bytes.
pub const MAX_PASSWORD_LEN: usize = 64;

/// Why a pair of credentials was refused.
#[derive(Clone, Copy, Debug, PartialEq, Eq, Structural)]
pub enum CredentialError {
    SsidTooLong,
    PasswordTooLong,
}

/// The network name and passphrase the radio joins with, fixed for the life
/// of the process.
#[derive(Clone, Copy, Debug)]
pub struct Credentials<'a> {
    pub ssid: &'a str,
    pub password: &'a str,
}

impl<'a> Credentials<'a> {
    /// The name and passphrase fit the radio's client configuration.
    pub open spec fn wf(&self) -> bool {
        &&& self.ssid.spec_bytes().len() <= MAX_SSID_LEN
        &&& self.password.spec_bytes().len() <= MAX_PASSWORD_LEN
    }

    /// Checks a name and passphrase against the radio's limits. The name is
    /// checked first.
    pub fn new(ssid: &'a str, password: &'a str) -> (r: Result<Credentials<'a>, CredentialError>)
        ensures
            ssid.spec_bytes().len() > MAX_SSID_LEN ==> r == Err::<Credentials<'a>, CredentialError>(CredentialError::SsidTooLong),
            ssid.spec_bytes().len() <= MAX_SSID_LEN && password.spec_bytes().len() > MAX_PASSWORD_LEN
                ==> r == Err::<Credentials<'a>, CredentialError>(CredentialError::PasswordTooLong),
            ssid.spec_bytes().len() <= MAX_SSID_LEN && password.spec_bytes().len() <= MAX_PASSWORD_LEN
                ==> r is Ok && r->Ok_0.ssid == ssid && r->Ok_0.password == password && r->Ok_0.wf(),
    {
        if ssid.as_bytes().len() > MAX_SSID_LEN {
            Err(CredentialError::SsidTooLong)
        } else if password.as_bytes().len() > MAX_PASSWORD_LEN {
            Err(CredentialError::PasswordTooLong)
        } else {
            Ok(Credentials { ssid, password })
        }
    }
}

} // verus!
