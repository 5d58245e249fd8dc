//! Managing PAM fingerprint configurations: probing the applied state
//! of the managed stacks and preparing privileged apply/remove requests.
//!
//! The prober speaks two intentionally different protocols. The batched
//! check reports state through `applied:` / `not-applied:` stdout lines;
//! its exit code carries no signal. The per-path fallback, used only
//! when the batched invocation cannot be spawned at all, reads a zero
//! exit status as "applied". Mutations go through the elevation wrapper
//! and report failure through a nonzero exit plus captured diagnostics.

use vstd::prelude::*;
use vstd::string::StrSliceExecFns;
use vstd::string::StringExecFns;
use crate::lines::split_lines;
use crate::lines::lemma_split_lines_single;
use crate::lines::lemma_split_lines_step;
use crate::paths::PamServicePath;
use crate::paths::spec_recognize_path;
use crate::paths::recognize_path;
use crate::protocol::LineVerdict;
use crate::protocol::any_applied;
use crate::protocol::apply_payload;
use crate::protocol::classify_line;
use crate::protocol::helper_binary_path;
use crate::protocol::helper_binary_chars;
use crate::protocol::lemma_any_applied_cons;
use crate::protocol::spec_apply_payload;
use crate::protocol::spec_batch_status;
use crate::status::ConfigurationError;
use crate::status::ConfigurationStatus;
use crate::status::ErrorKind;
use crate::status::HelperInvocationResult;

verus! {

/// Exit codes the elevation wrapper reserves for its own failures:
/// dismissed authorization dialog and authorization not granted. A
/// mutation ending in one of these was refused before the helper could
/// act on the file.
pub open spec fn spec_elevation_failure_exit(exit: int) -> bool {
    exit == 126 || exit == 127
}

/// How a fallback per-path check reads a spawn outcome: only a zero
/// exit status means applied; a nonzero exit or a failed spawn (`None`)
/// means not applied.
pub open spec fn spec_fallback_applied(exit: Option<i32>) -> bool {
    exit == Some(0i32)
}

/// The decision a probe takes after the batched invocation: either its
/// stdout settled the status, or the spawn itself failed and the two
/// per-path fallback checks must run.
#[derive(Clone, Copy, PartialEq, Eq, Structural, Debug)]
pub enum ProbeStep {
    /// The batched invocation completed; its stdout decided the status.
    Done(ConfigurationStatus),
    /// The batched invocation could not be spawned at the OS level:
    /// probe each path independently by exit code.
    RunFallback,
}

/// Utility for managing PAM fingerprint configurations.
pub struct PamHelper;

impl PamHelper {
    /// Arguments of the batched check invocation: one `check` command
    /// naming both managed paths.
    pub fn batched_check_args() -> (r: Vec<String>)
        ensures
            r@.len() == 3,
            r@[0]@ == "check"@,
            r@[1]@ == PamServicePath::Sudo.spec_config_path(),
            r@[2]@ == PamServicePath::Polkit.spec_config_path(),
    {
        let mut v: Vec<String> = Vec::new();
        v.push(String::from_str("check"));
        v.push(String::from_str(PamServicePath::Sudo.config_path()));
        v.push(String::from_str(PamServicePath::Polkit.config_path()));
        v
    }

    /// Arguments of a single-path fallback check invocation.
    pub fn single_check_args(p: &PamServicePath) -> (r: Vec<String>)
        ensures
            r@.len() == 2,
            r@[0]@ == "check"@,
            r@[1]@ == p.spec_config_path(),
    {
        let mut v: Vec<String> = Vec::new();
        v.push(String::from_str("check"));
        v.push(String::from_str(p.config_path()));
        v
    }

    /// Parse the stdout of a batched check line by line. A flag is set
    /// exactly when some `applied:` line names that path; lines naming
    /// unrecognized paths, and lines with neither prefix, are ignored
    /// and never abort parsing. Empty output yields all-false.
    pub fn parse_batched_output(out: &str) -> (r: ConfigurationStatus)
        ensures
            r == spec_batch_status(out@),
    {
        let n = out.unicode_len();
        let mut sudo = false;
        let mut polkit = false;
        let mut i: usize = 0;
        proof {
            assert(out@.skip(0) =~= out@);
        }
        while i < n
            invariant
                i <= n,
                n == out@.len(),
                spec_batch_status(out@).sudo_enabled == (sudo || any_applied(
                    split_lines(out@.skip(i as int)),
                    PamServicePath::Sudo,
                )),
                spec_batch_status(out@).polkit_enabled == (polkit || any_applied(
                    split_lines(out@.skip(i as int)),
                    PamServicePath::Polkit,
                )),
            decreases n - i,
        {
            let ghost suffix = out@.skip(i as int);
            let mut j: usize = i;
            while j < n && out.get_char(j) != '\n'
                invariant
                    i <= j <= n,
                    n == out@.len(),
                    forall|k: int| i <= k < j ==> out@[k] != '\n',
                decreases n - j,
            {
                j = j + 1;
            }
            let line = out.substring_char(i, j);
            let v = classify_line(line);
            proof {
                assert(suffix.len() == n - i);
                assert forall|k: int| 0 <= k < j - i implies suffix[k] != '\n' by {
                    assert(suffix[k] == out@[i + k]);
                }
                if j == n {
                    lemma_split_lines_single(suffix);
                    assert(line@ =~= suffix);
                    assert(split_lines(suffix) == seq![line@]);
                    assert(seq![line@] =~= seq![line@] + Seq::<Seq<char>>::empty());
                    lemma_any_applied_cons(line@, Seq::empty(), PamServicePath::Sudo);
                    lemma_any_applied_cons(line@, Seq::empty(), PamServicePath::Polkit);
                    assert(out@.skip(n as int) =~= Seq::<char>::empty());
                } else {
                    assert(suffix[j - i] == out@[j as int]);
                    lemma_split_lines_step(suffix, j - i);
                    assert(line@ =~= suffix.take(j - i));
                    assert(suffix.skip(j - i + 1) =~= out@.skip(j + 1));
                    lemma_any_applied_cons(
                        suffix.take(j - i),
                        split_lines(out@.skip(j + 1)),
                        PamServicePath::Sudo,
                    );
                    lemma_any_applied_cons(
                        suffix.take(j - i),
                        split_lines(out@.skip(j + 1)),
                        PamServicePath::Polkit,
                    );
                }
            }
            match v {
                LineVerdict::Applied(PamServicePath::Sudo) => {
                    sudo = true;
                },
                LineVerdict::Applied(PamServicePath::Polkit) => {
                    polkit = true;
                },
                _ => {},
            }
            if j == n {
                i = n;
            } else {
                i = j + 1;
            }
        }
        proof {
            assert(out@.skip(n as int) =~= Seq::<char>::empty());
            assert(split_lines(Seq::<char>::empty()) =~= Seq::<Seq<char>>::empty());
        }
        ConfigurationStatus { sudo_enabled: sudo, polkit_enabled: polkit }
    }

    /// Decide from the batched invocation's outcome (`None` when the
    /// spawn itself failed at the OS level) whether probing is
    /// complete. Only a spawn failure falls back: any completed
    /// invocation is final whatever its exit code, since batched mode
    /// signals state through stdout alone.
    pub fn probe_step(batch: Option<&HelperInvocationResult>) -> (r: ProbeStep)
        ensures
            match batch {
                Some(inv) => r == ProbeStep::Done(spec_batch_status(inv.stdout@)),
                None => r == ProbeStep::RunFallback,
            },
    {
        match batch {
            Some(inv) => ProbeStep::Done(Self::parse_batched_output(inv.stdout.as_str())),
            None => ProbeStep::RunFallback,
        }
    }

    /// Read one fallback per-path check: `exit` is the exit status of
    /// the single-path invocation, or `None` when it could not be
    /// spawned. Only a zero exit means applied.
    pub fn fallback_path_applied(exit: Option<i32>) -> (r: bool)
        ensures
            r == spec_fallback_applied(exit),
    {
        match exit {
            Some(c) => c == 0,
            None => false,
        }
    }

    /// Combine the two fallback per-path checks into a status. A total
    /// failure (two failed spawns) degrades to all-false.
    pub fn fallback_status(sudo_exit: Option<i32>, polkit_exit: Option<i32>) -> (r:
        ConfigurationStatus)
        ensures
            r.sudo_enabled == spec_fallback_applied(sudo_exit),
            r.polkit_enabled == spec_fallback_applied(polkit_exit),
    {
        ConfigurationStatus {
            sudo_enabled: Self::fallback_path_applied(sudo_exit),
            polkit_enabled: Self::fallback_path_applied(polkit_exit),
        }
    }

    /// Argument vector handed to the elevation wrapper for an apply:
    /// the helper binary, the `apply` subcommand, and the JSON payload
    /// naming the target file (and, for polkit, the restore template).
    pub fn apply_request(p: &PamServicePath) -> (r: Vec<String>)
        ensures
            r@.len() == 3,
            r@[0]@ == helper_binary_chars(),
            r@[1]@ == "apply"@,
            r@[2]@ == spec_apply_payload(*p),
    {
        let mut v: Vec<String> = Vec::new();
        v.push(String::from_str(helper_binary_path()));
        v.push(String::from_str("apply"));
        v.push(apply_payload(p));
        v
    }

    /// Argument vector handed to the elevation wrapper for a remove:
    /// the helper binary, the `remove` subcommand, and the bare target
    /// path (removal needs no template).
    pub fn remove_request(p: &PamServicePath) -> (r: Vec<String>)
        ensures
            r@.len() == 3,
            r@[0]@ == helper_binary_chars(),
            r@[1]@ == "remove"@,
            r@[2]@ == p.spec_config_path(),
    {
        let mut v: Vec<String> = Vec::new();
        v.push(String::from_str(helper_binary_path()));
        v.push(String::from_str("remove"));
        v.push(String::from_str(p.config_path()));
        v
    }

    /// Build an apply request from a path string, rejecting any string
    /// outside the closed managed set before anything is invoked.
    pub fn apply_request_for(path_str: &str) -> (r: Result<Vec<String>, ConfigurationError>)
        ensures
            match r {
                Ok(args) => {
                    &&& spec_recognize_path(path_str@) is Some
                    &&& args@.len() == 3
                    &&& args@[0]@ == helper_binary_chars()
                    &&& args@[1]@ == "apply"@
                    &&& args@[2]@ == spec_apply_payload(spec_recognize_path(path_str@)->0)
                },
                Err(e) => {
                    &&& spec_recognize_path(path_str@) is None
                    &&& e.kind == ErrorKind::UnknownPath
                    &&& e.path@ == path_str@
                },
            },
    {
        match recognize_path(path_str) {
            Some(p) => Ok(Self::apply_request(&p)),
            None => Err(Self::unknown_path_error(path_str)),
        }
    }

    /// Build a remove request from a path string, rejecting any string
    /// outside the closed managed set before anything is invoked.
    pub fn remove_request_for(path_str: &str) -> (r: Result<Vec<String>, ConfigurationError>)
        ensures
            match r {
                Ok(args) => {
                    &&& spec_recognize_path(path_str@) is Some
                    &&& args@.len() == 3
                    &&& args@[0]@ == helper_binary_chars()
                    &&& args@[1]@ == "remove"@
                    &&& args@[2]@ == spec_recognize_path(path_str@)->0.spec_config_path()
                },
                Err(e) => {
                    &&& spec_recognize_path(path_str@) is None
                    &&& e.kind == ErrorKind::UnknownPath
                    &&& e.path@ == path_str@
                },
            },
    {
        match recognize_path(path_str) {
            Some(p) => Ok(Self::remove_request(&p)),
            None => Err(Self::unknown_path_error(path_str)),
        }
    }

    /// The defensive rejection of a path string outside the managed set.
    pub fn unknown_path_error(path_str: &str) -> (e: ConfigurationError)
        ensures
            e.kind == ErrorKind::UnknownPath,
            e.path@ == path_str@,
            e.detail@ == "not a managed PAM service path"@,
    {
        ConfigurationError {
            kind: ErrorKind::UnknownPath,
            path: String::from_str(path_str),
            detail: String::from_str("not a managed PAM service path"),
        }
    }

    /// The hard error a mutation surfaces when the helper binary is
    /// missing or not executable: unlike probing, mutation has no
    /// fallback.
    pub fn helper_unavailable_error(p: &PamServicePath) -> (e: ConfigurationError)
        ensures
            e.kind == ErrorKind::HelperUnavailable,
            e.path@ == p.spec_config_path(),
            e.detail@ == helper_binary_chars(),
    {
        ConfigurationError {
            kind: ErrorKind::HelperUnavailable,
            path: String::from_str(p.config_path()),
            detail: String::from_str(helper_binary_path()),
        }
    }

    /// The error reported when the elevation wrapper itself could not
    /// be spawned; `detail` is the spawn diagnostic.
    pub fn spawn_failure_error(p: &PamServicePath, detail: String) -> (e: ConfigurationError)
        ensures
            e.kind == ErrorKind::ElevationDenied,
            e.path@ == p.spec_config_path(),
            e.detail == detail,
    {
        ConfigurationError {
            kind: ErrorKind::ElevationDenied,
            path: String::from_str(p.config_path()),
            detail,
        }
    }

    /// Interpret a completed, elevation-wrapped mutation invocation.
    /// Exit zero is success, whether or not the request changed
    /// anything: re-applying or re-removing is a fresh success. A
    /// nonzero exit is a hard failure carrying the captured stderr (or
    /// stdout when stderr is empty) verbatim; the wrapper's own exit
    /// codes classify as a denied elevation, everything else as a
    /// helper rejection.
    pub fn mutation_outcome(p: &PamServicePath, inv: &HelperInvocationResult) -> (r: Result<
        (),
        ConfigurationError,
    >)
        ensures
            inv.spec_success() <==> r is Ok,
            match r {
                Ok(_) => true,
                Err(e) => {
                    &&& e.kind == (if spec_elevation_failure_exit(inv.exit_code as int) {
                        ErrorKind::ElevationDenied
                    } else {
                        ErrorKind::HelperRejected
                    })
                    &&& e.path@ == p.spec_config_path()
                    &&& e.detail@ == inv.spec_diagnostic()
                },
            },
    {
        if inv.exit_code == 0 {
            Ok(())
        } else {
            let kind = if inv.exit_code == 126 || inv.exit_code == 127 {
                ErrorKind::ElevationDenied
            } else {
                ErrorKind::HelperRejected
            };
            let detail = if inv.stderr.as_str().is_empty() {
                inv.stdout.clone()
            } else {
                inv.stderr.clone()
            };
            Err(ConfigurationError { kind, path: String::from_str(p.config_path()), detail })
        }
    }
}

} // verus!
