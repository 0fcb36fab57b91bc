//! Whether this process runs confined in a sandbox, away from the host.
use vstd::prelude::*;

verus! {

/// A snapshot of the process's surroundings, taken once at start-up and then
/// handed to every component that branches on it.
#[derive(Clone, Copy, Debug, PartialEq, Eq, Structural)]
pub struct EnvironmentState {
    /// True when the process cannot reach host binaries without the broker.
    pub isolated: bool,
}

impl EnvironmentState {
    /// Combines the two probes: the sandbox's identity variable is set, or
    /// its marker file exists. Either one means the process is isolated; a
    /// probe that could not be made counts as absent.
    pub fn detect(has_identity_marker: bool, has_marker_file: bool) -> (r: EnvironmentState)
        ensures
            r.isolated == (has_identity_marker || has_marker_file),
    {
        EnvironmentState { isolated: has_identity_marker || has_marker_file }
    }
}

} // verus!
