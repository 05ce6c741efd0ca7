//! Models of the file-system service's API.
use vstd::prelude::*;

verus! {

/// S3-style credentials.
pub struct Credential {
    pub access_key_id: String,
    pub secret_access_key: String,
}

/// S3AuthInfo holds S3-style authentication.
pub struct S3AuthInfo {
    pub credentials: Box<Credential>,
}

impl S3AuthInfo {
    /// S3AuthInfo holds S3-style authentication.
    pub fn new(credentials: Credential) -> (r: S3AuthInfo)
        ensures
            *r.credentials == credentials,
    {
        S3AuthInfo { credentials: Box::new(credentials) }
    }
}

} // verus!
