//! Outcome types: probe status, raw helper invocation results, and the
//! classified configuration errors.

use vstd::prelude::*;
use crate::paths::PamServicePath;

verus! {

/// Whether fingerprint authentication is applied for each managed stack.
/// "Unknown" is not representable: a probe always yields a best-effort
/// pair, defaulting to `false`.
#[derive(Clone, Copy, PartialEq, Eq, Structural, Debug)]
pub struct ConfigurationStatus {
    pub sudo_enabled: bool,
    pub polkit_enabled: bool,
}

impl ConfigurationStatus {
    /// The flag this status reports for one managed stack.
    pub open spec fn spec_enabled_for(self, p: PamServicePath) -> bool {
        match p {
            PamServicePath::Sudo => self.sudo_enabled,
            PamServicePath::Polkit => self.polkit_enabled,
        }
    }

    /// The flag this status reports for one managed stack.
    pub fn enabled_for(&self, p: &PamServicePath) -> (r: bool)
        ensures
            r == self.spec_enabled_for(*p),
    {
        match p {
            PamServicePath::Sudo => self.sudo_enabled,
            PamServicePath::Polkit => self.polkit_enabled,
        }
    }

    /// The all-false status a probe degrades to on total failure.
    pub fn all_disabled() -> (r: ConfigurationStatus)
        ensures
            !r.sudo_enabled,
            !r.polkit_enabled,
    {
        ConfigurationStatus { sudo_enabled: false, polkit_enabled: false }
    }
}

/// The raw outcome of one completed external helper invocation: exit
/// status code and captured output text. Owned transiently by the
/// component that invoked the helper; never cached.
#[derive(Debug)]
pub struct HelperInvocationResult {
    pub exit_code: i32,
    pub stdout: String,
    pub stderr: String,
}

impl HelperInvocationResult {
    /// A zero exit status is process-level success.
    pub open spec fn spec_success(&self) -> bool {
        self.exit_code == 0
    }

    /// The diagnostic text of a failed invocation: the captured stderr,
    /// or stdout when stderr is empty.
    pub open spec fn spec_diagnostic(&self) -> Seq<char> {
        if self.stderr@.len() > 0 {
            self.stderr@
        } else {
            self.stdout@
        }
    }
}

/// Classification of a failed operation.
#[derive(Clone, Copy, PartialEq, Eq, Structural, Debug)]
pub enum ErrorKind {
    /// The helper binary is missing or not executable.
    HelperUnavailable,
    /// The elevation wrapper could not be spawned, or it exited with one
    /// of its own failure codes, indistinguishable from a cancelled
    /// authorization.
    ElevationDenied,
    /// The helper ran and rejected the request for a path-specific
    /// reason.
    HelperRejected,
    /// A path string outside the closed managed set was supplied.
    UnknownPath,
}

/// A classified failure, carrying the offending path and the diagnostic
/// text captured from the helper when one is available.
#[derive(Debug)]
pub struct ConfigurationError {
    pub kind: ErrorKind,
    pub path: String,
    pub detail: String,
}

} // verus!
