use vstd::prelude::*;

use crate::pipeline::{Phase, Session};

verus! {

/// The service handle behind the streaming download operation. The RPC
/// transport itself lives outside the library; for each incoming request
/// it opens one session here and drives it.
pub struct GrpcService {}

impl GrpcService {
    /// A new service handle.
    pub fn new() -> (s: GrpcService) {
        GrpcService {}
    }

    /// Opens the session for one incoming request.
    pub fn open_session(&self, url: String) -> (s: Session)
        ensures
            s.wf(),
            s.phase == Phase::Created,
            s.url@ == url@,
            s.binary is None,
            s.output is None,
            s.cleanup_requested == false,
            s.failure is None,
    {
        Session::new(url)
    }
}

} // verus!
