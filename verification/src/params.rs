//! The parameters of the collaboration server at `collab.nomad.foo`.

use vstd::prelude::*;

verus! {

/// The version of the collaboration API that the client speaks.
pub const API_VERSION: u32 = 4;

/// The largest frame the server accepts, in bytes: 32 KiB.
pub const MAX_FRAME_LEN: u32 = 32768;

/// Authentication information for connecting to the collaboration server.
pub struct AuthInfos {
    /// The API version the client is using.
    pub api_version: u32,
    /// The JSON Web Token provided by the auth server.
    pub jwt: String,
}

impl AuthInfos {
    /// The information that authenticates with the token `jwt`, at the
    /// current API version.
    pub fn from_jwt(jwt: &str) -> (infos: AuthInfos)
        ensures
            infos.api_version == API_VERSION,
            infos.jwt@ == jwt@,
    {
        AuthInfos { api_version: API_VERSION, jwt: jwt.to_owned() }
    }
}

/// The parameters used by the collaboration server deployed at
/// `collab.nomad.foo`.
pub struct NomadParams;

impl NomadParams {
    /// The largest frame the server accepts, in bytes.
    pub fn max_frame_len() -> (len: u32)
        ensures
            len == MAX_FRAME_LEN,
    {
        MAX_FRAME_LEN
    }
}

} // verus!
