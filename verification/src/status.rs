//! The status report handed to callers of the supervisor.

use vstd::prelude::*;
use crate::text::optional_text;

verus! {

/// A snapshot of the supervised backend, computed fresh on every query.
#[derive(Debug, Clone, PartialEq, Eq)]
pub struct BackendStatus {
    pub running: bool,
    pub port: Option<u16>,
    pub version: Option<String>,
    pub pid: Option<u32>,
}

impl BackendStatus {
    /// The reported version, as characters.
    pub open spec fn spec_version(self) -> Option<Seq<char>> {
        optional_text(self.version)
    }

    /// The report given when no process is registered.
    pub fn stopped() -> (s: BackendStatus)
        ensures
            !s.running,
            s.port.is_none(),
            s.version.is_none(),
            s.pid.is_none(),
    {
        BackendStatus { running: false, port: None, version: None, pid: None }
    }
}

} // verus!
