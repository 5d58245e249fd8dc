//! A model of a correct helper process over a fixed filesystem state.
//!
//! The model answers both probing protocols the way the helper's wire
//! contract prescribes, and implements idempotent apply/remove
//! semantics. It serves two purposes: the protocol laws below are
//! proved against it, and tests drive it as a fake helper.

use vstd::prelude::*;
use vstd::string::StringExecFns;
use crate::lines::split_lines;
use crate::lines::lemma_split_lines_step;
use crate::paths::PamServicePath;
use crate::protocol::LineVerdict;
use crate::protocol::any_applied;
use crate::protocol::applied_prefix;
use crate::protocol::not_applied_prefix;
use crate::protocol::spec_batch_status;
use crate::protocol::spec_verdict;
use crate::status::ConfigurationStatus;
use crate::helper::spec_fallback_applied;

verus! {

/// The filesystem state a helper sees: whether fingerprint
/// configuration is applied for each managed stack.
#[derive(Clone, Copy, PartialEq, Eq, Structural, Debug)]
pub struct HelperModel {
    pub sudo_applied: bool,
    pub polkit_applied: bool,
}

/// One batched-check stdout line for `p` in the given state.
pub open spec fn spec_line(applied: bool, p: PamServicePath) -> Seq<char> {
    (if applied {
        applied_prefix()
    } else {
        not_applied_prefix()
    }) + p.spec_config_path()
}

impl HelperModel {
    /// Whether `p` is applied in this state.
    pub open spec fn spec_applied(self, p: PamServicePath) -> bool {
        match p {
            PamServicePath::Sudo => self.sudo_applied,
            PamServicePath::Polkit => self.polkit_applied,
        }
    }

    /// The status a faithful probe of this state reports.
    pub open spec fn spec_status(self) -> ConfigurationStatus {
        ConfigurationStatus {
            sudo_enabled: self.sudo_applied,
            polkit_enabled: self.polkit_applied,
        }
    }

    /// The stdout of a batched check in this state: one status line per
    /// managed path, each closed by a newline.
    pub open spec fn spec_batch_response(self) -> Seq<char> {
        spec_line(self.sudo_applied, PamServicePath::Sudo) + "\n"@ + spec_line(
            self.polkit_applied,
            PamServicePath::Polkit,
        ) + "\n"@
    }

    /// The exit status of a single-path check in this state: zero
    /// exactly when the path is applied.
    pub open spec fn spec_single_check_exit(self, p: PamServicePath) -> i32 {
        if self.spec_applied(p) {
            0
        } else {
            1
        }
    }

    /// The state after an apply request for `p`; applying is idempotent
    /// and always succeeds with exit zero.
    pub open spec fn spec_apply(self, p: PamServicePath) -> HelperModel {
        match p {
            PamServicePath::Sudo => HelperModel { sudo_applied: true, ..self },
            PamServicePath::Polkit => HelperModel { polkit_applied: true, ..self },
        }
    }

    /// The state after a remove request for `p`; removing is idempotent
    /// and always succeeds with exit zero.
    pub open spec fn spec_remove(self, p: PamServicePath) -> HelperModel {
        match p {
            PamServicePath::Sudo => HelperModel { sudo_applied: false, ..self },
            PamServicePath::Polkit => HelperModel { polkit_applied: false, ..self },
        }
    }

    /// Produce the batched-check stdout for this state.
    pub fn batch_response(&self) -> (r: String)
        ensures
            r@ == self.spec_batch_response(),
    {
        let p1 = if self.sudo_applied {
            "applied: "
        } else {
            "not-applied: "
        };
        let p2 = if self.polkit_applied {
            "applied: "
        } else {
            "not-applied: "
        };
        let r = String::from_str(p1).concat(PamServicePath::Sudo.config_path()).concat(
            "\n",
        ).concat(p2).concat(PamServicePath::Polkit.config_path()).concat("\n");
        proof {
            assert(r@ =~= self.spec_batch_response());
        }
        r
    }

    /// Answer a single-path check with an exit status.
    pub fn single_check_exit(&self, p: &PamServicePath) -> (r: i32)
        ensures
            r == self.spec_single_check_exit(*p),
    {
        if self.is_applied(p) {
            0
        } else {
            1
        }
    }

    /// Whether `p` is applied in this state.
    pub fn is_applied(&self, p: &PamServicePath) -> (r: bool)
        ensures
            r == self.spec_applied(*p),
    {
        match p {
            PamServicePath::Sudo => self.sudo_applied,
            PamServicePath::Polkit => self.polkit_applied,
        }
    }

    /// Perform an apply request: the new state, and the exit status
    /// reported back (always zero: re-applying is a fresh success).
    pub fn apply(&self, p: &PamServicePath) -> (r: (HelperModel, i32))
        ensures
            r.0 == self.spec_apply(*p),
            r.1 == 0,
    {
        match p {
            PamServicePath::Sudo => (HelperModel { sudo_applied: true, ..*self }, 0),
            PamServicePath::Polkit => (HelperModel { polkit_applied: true, ..*self }, 0),
        }
    }

    /// Perform a remove request: the new state, and the exit status
    /// reported back (always zero: re-removing is a fresh success).
    pub fn remove(&self, p: &PamServicePath) -> (r: (HelperModel, i32))
        ensures
            r.0 == self.spec_remove(*p),
            r.1 == 0,
    {
        match p {
            PamServicePath::Sudo => (HelperModel { sudo_applied: false, ..*self }, 0),
            PamServicePath::Polkit => (HelperModel { polkit_applied: false, ..*self }, 0),
        }
    }
}

/// No status line of the protocol contains a newline.
proof fn lemma_line_newline_free(applied: bool, p: PamServicePath)
    ensures
        forall|j: int|
            0 <= j < spec_line(applied, p).len() ==> spec_line(applied, p)[j] != '\n',
{
    reveal_strlit("applied: ");
    reveal_strlit("not-applied: ");
    reveal_strlit("/etc/pam.d/sudo");
    reveal_strlit("/etc/pam.d/polkit-1");
}

/// Classifying a well-formed status line recovers exactly what it
/// reports.
pub proof fn lemma_line_verdict(applied: bool, p: PamServicePath)
    ensures
        spec_verdict(spec_line(applied, p)) == (if applied {
            LineVerdict::Applied(p)
        } else {
            LineVerdict::NotApplied(p)
        }),
{
    reveal_strlit("applied: ");
    reveal_strlit("not-applied: ");
    reveal_strlit("/etc/pam.d/sudo");
    reveal_strlit("/etc/pam.d/polkit-1");
    let line = spec_line(applied, p);
    let pre = if applied {
        applied_prefix()
    } else {
        not_applied_prefix()
    };
    let path = p.spec_config_path();
    assert(line[line.len() - 1] == path[path.len() - 1]);
    assert(crate::protocol::strip_cr(line) == line);
    assert(line.take(pre.len() as int) =~= pre);
    assert(line.skip(pre.len() as int) =~= path);
    if applied {
        assert(crate::paths::polkit_path_chars() != crate::paths::sudo_path_chars());
    } else {
        // A `not-applied: ` line must not match the `applied: ` prefix:
        // the two differ in their first character.
        assert(line[0] == 'n');
        assert(!crate::text::starts_with_chars(line, applied_prefix())) by {
            if crate::text::starts_with_chars(line, applied_prefix()) {
                assert(line.take(applied_prefix().len() as int)[0] == line[0]);
            }
        }
        assert(crate::paths::polkit_path_chars() != crate::paths::sudo_path_chars());
    }
}

/// The batched response splits into exactly its two status lines.
pub proof fn lemma_model_response_lines(m: HelperModel)
    ensures
        split_lines(m.spec_batch_response()) == seq![
            spec_line(m.sudo_applied, PamServicePath::Sudo),
            spec_line(m.polkit_applied, PamServicePath::Polkit),
        ],
{
    let l1 = spec_line(m.sudo_applied, PamServicePath::Sudo);
    let l2 = spec_line(m.polkit_applied, PamServicePath::Polkit);
    let s = m.spec_batch_response();
    reveal_strlit("\n");
    lemma_line_newline_free(m.sudo_applied, PamServicePath::Sudo);
    lemma_line_newline_free(m.polkit_applied, PamServicePath::Polkit);
    let k1 = l1.len() as int;
    assert(s.len() == l1.len() + 1 + l2.len() + 1);
    assert(s[k1] == '\n');
    assert forall|j: int| 0 <= j < k1 implies s[j] != '\n' by {
        assert(s[j] == l1[j]);
    }
    lemma_split_lines_step(s, k1);
    assert(s.take(k1) =~= l1);
    let tail = s.skip(k1 + 1);
    assert(tail =~= l2 + "\n"@);
    let k2 = l2.len() as int;
    assert((l2 + "\n"@)[k2] == '\n');
    assert forall|j: int| 0 <= j < k2 implies (l2 + "\n"@)[j] != '\n' by {
        assert((l2 + "\n"@)[j] == l2[j]);
    }
    lemma_split_lines_step(l2 + "\n"@, k2);
    assert((l2 + "\n"@).take(k2) =~= l2);
    assert((l2 + "\n"@).skip(k2 + 1) =~= Seq::<char>::empty());
    assert(split_lines(Seq::<char>::empty()) =~= Seq::<Seq<char>>::empty());
    assert(split_lines(s) =~= seq![l1, l2]);
}

/// Probing a batched response is exact, for every state: a flag of the
/// parsed status is set exactly when the helper reported that path
/// applied.
pub proof fn lemma_batch_probe_exact(m: HelperModel)
    ensures
        spec_batch_status(m.spec_batch_response()) == m.spec_status(),
{
    lemma_model_response_lines(m);
    lemma_line_verdict(m.sudo_applied, PamServicePath::Sudo);
    lemma_line_verdict(m.polkit_applied, PamServicePath::Polkit);
    let lines = split_lines(m.spec_batch_response());
    if m.sudo_applied {
        assert(any_applied(lines, PamServicePath::Sudo));
    } else {
        assert forall|i: int|
            0 <= i < lines.len() implies spec_verdict(lines[i]) != LineVerdict::Applied(
            PamServicePath::Sudo,
        ) by {
            assert(i == 0 || i == 1);
        }
    }
    if m.polkit_applied {
        assert(spec_verdict(lines[1]) == LineVerdict::Applied(PamServicePath::Polkit));
        assert(any_applied(lines, PamServicePath::Polkit));
    } else {
        assert forall|i: int|
            0 <= i < lines.len() implies spec_verdict(lines[i]) != LineVerdict::Applied(
            PamServicePath::Polkit,
        ) by {
            assert(i == 0 || i == 1);
        }
    }
}

/// Protocol equivalence: for one fixed filesystem state, the batched
/// probe (stdout-line parsing) and the fallback probe (exit codes of
/// two single-path checks) reach the same outcome.
pub proof fn lemma_batch_and_fallback_agree(m: HelperModel)
    ensures
        spec_batch_status(m.spec_batch_response()) == (ConfigurationStatus {
            sudo_enabled: spec_fallback_applied(
                Some(m.spec_single_check_exit(PamServicePath::Sudo)),
            ),
            polkit_enabled: spec_fallback_applied(
                Some(m.spec_single_check_exit(PamServicePath::Polkit)),
            ),
        }),
{
    lemma_batch_probe_exact(m);
}

/// A probe right after an apply reports the applied path enabled, and
/// leaves the other stack's reading untouched.
pub proof fn lemma_probe_reflects_apply(m: HelperModel, p: PamServicePath)
    ensures
        spec_batch_status(m.spec_apply(p).spec_batch_response()).spec_enabled_for(p),
        (forall|q: PamServicePath|
            q != p ==> spec_batch_status(m.spec_apply(p).spec_batch_response()).spec_enabled_for(q)
                == m.spec_applied(q)),
{
    lemma_batch_probe_exact(m.spec_apply(p));
}

/// A probe right after a remove reports the removed path disabled, and
/// leaves the other stack's reading untouched.
pub proof fn lemma_probe_reflects_remove(m: HelperModel, p: PamServicePath)
    ensures
        !spec_batch_status(m.spec_remove(p).spec_batch_response()).spec_enabled_for(p),
        (forall|q: PamServicePath|
            q != p ==> spec_batch_status(m.spec_remove(p).spec_batch_response()).spec_enabled_for(q)
                == m.spec_applied(q)),
{
    lemma_batch_probe_exact(m.spec_remove(p));
}

/// Idempotent mutation requests: applying an already-applied path and
/// removing an already-removed path leave the state unchanged, and
/// nothing distinguishes either from a fresh success (`apply` and
/// `remove` answer exit zero unconditionally).
pub proof fn lemma_mutation_requests_idempotent(m: HelperModel, p: PamServicePath)
    ensures
        m.spec_applied(p) ==> m.spec_apply(p) == m,
        !m.spec_applied(p) ==> m.spec_remove(p) == m,
        m.spec_apply(p).spec_apply(p) == m.spec_apply(p),
        m.spec_remove(p).spec_remove(p) == m.spec_remove(p),
{
}

/// Output in which no line reports a managed path applied parses to the
/// all-false status; in particular garbage never aborts parsing.
pub proof fn lemma_garbage_output_all_false(out: Seq<char>)
    requires
        (forall|i: int|
            0 <= i < split_lines(out).len() ==> !(#[trigger] spec_verdict(split_lines(out)[i])
                matches LineVerdict::Applied(_))),
    ensures
        spec_batch_status(out) == (ConfigurationStatus {
            sudo_enabled: false,
            polkit_enabled: false,
        }),
{
}

} // verus!

