//! Backend connection info: the local URL the caller reaches the backend
//! on, derived from the port it is listening on.

use vstd::prelude::*;

use crate::text::{dec_rep, u64_string};

verus! {

/// The local URL for a backend listening on `port`.
pub open spec fn spec_backend_url(port: u16) -> Seq<char> {
    "http://localhost:"@ + dec_rep(port as nat)
}

/// How the backend is reached: its URL, its port, and whether the caller
/// is connected to the installed service rather than a sidecar process.
#[derive(Clone, Debug)]
pub struct BackendInfo {
    pub url: String,
    pub port: u16,
    pub using_service: bool,
}

/// Renders the local URL of a backend listening on `port`.
pub fn backend_url(port: u16) -> (s: String)
    ensures
        s@ == spec_backend_url(port),
{
    let digits = u64_string(port as u64);
    let s = String::from_str("http://localhost:").concat(digits.as_str());
    assert(s@ =~= spec_backend_url(port));
    s
}

impl BackendInfo {
    /// Assembles the info for a backend on `port`: the URL always agrees
    /// with the port.
    pub fn new(port: u16, using_service: bool) -> (b: BackendInfo)
        ensures
            b.port == port,
            b.using_service == using_service,
            b.url@ == spec_backend_url(port),
    {
        BackendInfo { url: backend_url(port), port, using_service }
    }
}

} // verus!
