//! The closed set of managed PAM service paths.

use vstd::prelude::*;
use crate::text::str_eq;

verus! {

/// One of the two managed PAM authentication stacks. The set is closed:
/// any other path string is an "unknown path" outcome, never a crash.
#[derive(Clone, Copy, PartialEq, Eq, Structural, Debug)]
pub enum PamServicePath {
    Sudo,
    Polkit,
}

/// The canonical configuration file path of the sudo stack.
pub open spec fn sudo_path_chars() -> Seq<char> {
    "/etc/pam.d/sudo"@
}

/// The canonical configuration file path of the polkit stack.
pub open spec fn polkit_path_chars() -> Seq<char> {
    "/etc/pam.d/polkit-1"@
}

/// The read-only template the helper restores the polkit file from.
pub open spec fn polkit_template_chars() -> Seq<char> {
    "/usr/lib/pam.d/polkit-1"@
}

impl PamServicePath {
    /// The canonical configuration file path of this stack.
    pub open spec fn spec_config_path(self) -> Seq<char> {
        match self {
            PamServicePath::Sudo => sudo_path_chars(),
            PamServicePath::Polkit => polkit_path_chars(),
        }
    }

    /// The restore template path, present only for the polkit stack.
    pub open spec fn spec_template_path(self) -> Option<Seq<char>> {
        match self {
            PamServicePath::Sudo => None,
            PamServicePath::Polkit => Some(polkit_template_chars()),
        }
    }

    /// The configuration file path this variant manages.
    pub fn config_path(&self) -> (r: &'static str)
        ensures
            r@ == self.spec_config_path(),
    {
        match self {
            PamServicePath::Sudo => "/etc/pam.d/sudo",
            PamServicePath::Polkit => "/etc/pam.d/polkit-1",
        }
    }

    /// The template file an apply request restores from, if any.
    pub fn template_path(&self) -> (r: Option<&'static str>)
        ensures
            match r {
                Some(t) => self.spec_template_path() == Some(t@),
                None => self.spec_template_path() is None,
            },
    {
        match self {
            PamServicePath::Sudo => None,
            PamServicePath::Polkit => Some("/usr/lib/pam.d/polkit-1"),
        }
    }
}

/// Which managed stack, if any, a path string denotes.
pub open spec fn spec_recognize_path(s: Seq<char>) -> Option<PamServicePath> {
    if s == sudo_path_chars() {
        Some(PamServicePath::Sudo)
    } else if s == polkit_path_chars() {
        Some(PamServicePath::Polkit)
    } else {
        None
    }
}

/// Recognize a path string as one of the two managed stacks; any other
/// string is rejected with `None`.
pub fn recognize_path(s: &str) -> (r: Option<PamServicePath>)
    ensures
        r == spec_recognize_path(s@),
{
    if str_eq(s, "/etc/pam.d/sudo") {
        Some(PamServicePath::Sudo)
    } else if str_eq(s, "/etc/pam.d/polkit-1") {
        Some(PamServicePath::Polkit)
    } else {
        None
    }
}

} // verus!
