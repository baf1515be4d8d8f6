//! Infrastructure for implementing an OS-specific RemoteApp backend.
use vstd::prelude::*;

use crate::pdu::ExecResult;

verus! {

/// OS-specific RemoteApp backend interface.
///
/// Implementors do whatever local action is needed once a remote program launch has
/// been acknowledged by the server (e.g. tracking the resulting remote window, or
/// logging the result for a headless test client).
pub trait RailBackend {
    /// Called by [`crate::Rail`] once the server has replied to the handshake, when the
    /// channel is ready to accept [`crate::Rail::launch`] requests.
    fn on_ready(&mut self) {
    }

    /// Called by [`crate::Rail`] when the server responds to a launch request.
    fn on_execute_result(&mut self, exe_or_file: &str, result: ExecResult, raw_result: u32) {
    }
}

/// A [`RailBackend`] that does nothing beyond what [`crate::Rail`] itself requires.
#[derive(Debug, Default)]
pub struct NoopRailBackend;

impl RailBackend for NoopRailBackend {

}

} // verus!
