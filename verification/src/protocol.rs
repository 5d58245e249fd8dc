//! The helper process wire protocol: fixed binary locations, status-line
//! classification for the batched check, and the apply request payload.

use vstd::prelude::*;
use vstd::string::StrSliceExecFns;
use vstd::string::StringExecFns;
use crate::lines::split_lines;
use crate::paths::PamServicePath;
use crate::paths::spec_recognize_path;
use crate::paths::recognize_path;
use crate::status::ConfigurationStatus;
use crate::text::starts_with_chars;
use crate::text::str_starts_with;

verus! {

/// Fixed filesystem location of the privileged helper binary.
pub open spec fn helper_binary_chars() -> Seq<char> {
    "/opt/xfprintd-gui/xfprintd-gui-helper"@
}

/// Fixed filesystem location of the privileged helper binary.
pub fn helper_binary_path() -> (r: &'static str)
    ensures
        r@ == helper_binary_chars(),
{
    "/opt/xfprintd-gui/xfprintd-gui-helper"
}

/// Name of the privilege-elevation wrapper the mutator invokes the
/// helper through.
pub open spec fn elevation_wrapper_chars() -> Seq<char> {
    "pkexec"@
}

/// Name of the privilege-elevation wrapper the mutator invokes the
/// helper through.
pub fn elevation_wrapper() -> (r: &'static str)
    ensures
        r@ == elevation_wrapper_chars(),
{
    "pkexec"
}

/// Prefix of a batched-check stdout line reporting an applied path.
pub open spec fn applied_prefix() -> Seq<char> {
    "applied: "@
}

/// Prefix of a batched-check stdout line reporting a not-applied path.
pub open spec fn not_applied_prefix() -> Seq<char> {
    "not-applied: "@
}

/// What one stdout line of a batched check reports.
#[derive(Clone, Copy, PartialEq, Eq, Structural, Debug)]
pub enum LineVerdict {
    /// `applied: <path>` for a managed path.
    Applied(PamServicePath),
    /// `not-applied: <path>` for a managed path.
    NotApplied(PamServicePath),
    /// A recognized prefix naming a path outside the managed set;
    /// logged and otherwise ignored by the prober.
    UnknownPath,
    /// A line with neither recognized prefix; ignored by the prober.
    Unmatched,
}

/// A line with one trailing carriage return dropped, so that a helper
/// emitting CRLF line endings reads the same as one emitting LF.
pub open spec fn strip_cr(line: Seq<char>) -> Seq<char> {
    if line.len() > 0 && line.last() == '\r' {
        line.drop_last()
    } else {
        line
    }
}

/// Classification of one batched-check stdout line; a trailing
/// carriage return is tolerated.
pub open spec fn spec_verdict(line: Seq<char>) -> LineVerdict {
    let l = strip_cr(line);
    if starts_with_chars(l, applied_prefix()) {
        match spec_recognize_path(l.skip(applied_prefix().len() as int)) {
            Some(p) => LineVerdict::Applied(p),
            None => LineVerdict::UnknownPath,
        }
    } else if starts_with_chars(l, not_applied_prefix()) {
        match spec_recognize_path(l.skip(not_applied_prefix().len() as int)) {
            Some(p) => LineVerdict::NotApplied(p),
            None => LineVerdict::UnknownPath,
        }
    } else {
        LineVerdict::Unmatched
    }
}

/// Classify one stdout line of a batched check. Garbage never fails:
/// every line gets a verdict, unrecognized ones an ignorable one.
pub fn classify_line(line: &str) -> (v: LineVerdict)
    ensures
        v == spec_verdict(line@),
{
    let full = line.unicode_len();
    let n = if full > 0 && line.get_char(full - 1) == '\r' {
        full - 1
    } else {
        full
    };
    let l = line.substring_char(0, n);
    proof {
        assert(l@ =~= strip_cr(line@));
    }
    if str_starts_with(l, "applied: ") {
        let plen = "applied: ".unicode_len();
        let rest = l.substring_char(plen, n);
        proof {
            assert(rest@ =~= strip_cr(line@).skip(applied_prefix().len() as int));
        }
        match recognize_path(rest) {
            Some(p) => LineVerdict::Applied(p),
            None => LineVerdict::UnknownPath,
        }
    } else if str_starts_with(l, "not-applied: ") {
        let plen = "not-applied: ".unicode_len();
        let rest = l.substring_char(plen, n);
        proof {
            assert(rest@ =~= strip_cr(line@).skip(not_applied_prefix().len() as int));
        }
        match recognize_path(rest) {
            Some(p) => LineVerdict::NotApplied(p),
            None => LineVerdict::UnknownPath,
        }
    } else {
        LineVerdict::Unmatched
    }
}

/// Some line among `lines` reports `p` as applied.
pub open spec fn any_applied(lines: Seq<Seq<char>>, p: PamServicePath) -> bool {
    exists|i: int|
        0 <= i < lines.len() && spec_verdict(lines[i]) == LineVerdict::Applied(p)
}

/// Peeling one line off the front of an `any_applied` query.
pub proof fn lemma_any_applied_cons(l: Seq<char>, rest: Seq<Seq<char>>, p: PamServicePath)
    ensures
        any_applied(seq![l] + rest, p) == (spec_verdict(l) == LineVerdict::Applied(p)
            || any_applied(rest, p)),
{
    let all = seq![l] + rest;
    if spec_verdict(l) == LineVerdict::Applied(p) {
        assert(all[0] == l);
        assert(any_applied(all, p));
    }
    if any_applied(rest, p) {
        let i = choose|i: int|
            0 <= i < rest.len() && spec_verdict(rest[i]) == LineVerdict::Applied(p);
        assert(all[i + 1] == rest[i]);
        assert(any_applied(all, p));
    }
    if any_applied(all, p) {
        let i = choose|i: int|
            0 <= i < all.len() && spec_verdict(all[i]) == LineVerdict::Applied(p);
        if i == 0 {
            assert(all[0] == l);
        } else {
            assert(all[i] == rest[i - 1]);
            assert(any_applied(rest, p));
        }
    }
}

/// What a batched check's stdout reports: each flag is set exactly when
/// some `applied:` line names that path. Absence of a line means not
/// applied; unrecognized and garbage lines are ignored.
pub open spec fn spec_batch_status(out: Seq<char>) -> ConfigurationStatus {
    ConfigurationStatus {
        sudo_enabled: any_applied(split_lines(out), PamServicePath::Sudo),
        polkit_enabled: any_applied(split_lines(out), PamServicePath::Polkit),
    }
}

/// The JSON request payload of an apply invocation: it names the target
/// file, and for the polkit stack also the known-good template the
/// helper restores from.
pub open spec fn spec_apply_payload(p: PamServicePath) -> Seq<char> {
    match p.spec_template_path() {
        None => "{\"file\":\""@ + p.spec_config_path() + "\"}"@,
        Some(t) => "{\"file\":\""@ + p.spec_config_path() + "\",\"default\":\""@ + t + "\"}"@,
    }
}

/// Build the JSON payload of an apply request.
pub fn apply_payload(p: &PamServicePath) -> (r: String)
    ensures
        r@ == spec_apply_payload(*p),
{
    let base = String::from_str("{\"file\":\"").concat(p.config_path());
    let r = match p.template_path() {
        None => base.concat("\"}"),
        Some(t) => base.concat("\",\"default\":\"").concat(t).concat("\"}"),
    };
    proof {
        assert(r@ =~= spec_apply_payload(*p));
    }
    r
}

} // verus!
