use xfprintd_core::helper::PamHelper;
use xfprintd_core::helper::ProbeStep;
use xfprintd_core::model::HelperModel;
use xfprintd_core::paths::PamServicePath;
use xfprintd_core::status::ConfigurationStatus;
use xfprintd_core::status::HelperInvocationResult;

#[test]
fn empty_output_yields_all_false() {
    let st = PamHelper::parse_batched_output("");
    assert!(!st.sudo_enabled);
    assert!(!st.polkit_enabled);
}

#[test]
fn garbage_lines_are_ignored_and_yield_all_false() {
    let out = "garbage\nsomething else entirely\n: :\napplied\nnot-applied";
    let st = PamHelper::parse_batched_output(out);
    assert_eq!(
        st,
        ConfigurationStatus { sudo_enabled: false, polkit_enabled: false }
    );
}

#[test]
fn garbage_lines_do_not_abort_later_lines() {
    let out = "!!!\napplied: /etc/pam.d/sudo\n???";
    let st = PamHelper::parse_batched_output(out);
    assert!(st.sudo_enabled);
    assert!(!st.polkit_enabled);
}

#[test]
fn applied_lines_set_their_flags() {
    let out = "applied: /etc/pam.d/sudo\napplied: /etc/pam.d/polkit-1\n";
    let st = PamHelper::parse_batched_output(out);
    assert!(st.sudo_enabled);
    assert!(st.polkit_enabled);
}

#[test]
fn not_applied_lines_leave_flags_false() {
    let out = "not-applied: /etc/pam.d/sudo\napplied: /etc/pam.d/polkit-1\n";
    let st = PamHelper::parse_batched_output(out);
    assert!(!st.sudo_enabled);
    assert!(st.polkit_enabled);
}

#[test]
fn crlf_line_endings_read_the_same_as_lf() {
    let out = "applied: /etc/pam.d/sudo\r\nnot-applied: /etc/pam.d/polkit-1\r\n";
    let st = PamHelper::parse_batched_output(out);
    assert!(st.sudo_enabled);
    assert!(!st.polkit_enabled);
}

#[test]
fn a_carriage_return_elsewhere_is_not_tolerated() {
    let out = "applied: /etc/pam.d/sudo\r \n";
    let st = PamHelper::parse_batched_output(out);
    assert!(!st.sudo_enabled);
}

#[test]
fn duplicate_applied_lines_are_idempotent() {
    let out = "applied: /etc/pam.d/sudo\napplied: /etc/pam.d/sudo\n";
    let st = PamHelper::parse_batched_output(out);
    assert!(st.sudo_enabled);
    assert!(!st.polkit_enabled);
}

#[test]
fn missing_line_defaults_to_not_applied() {
    let out = "applied: /etc/pam.d/sudo";
    let st = PamHelper::parse_batched_output(out);
    assert!(st.sudo_enabled);
    assert!(!st.polkit_enabled);
}

#[test]
fn unknown_path_lines_are_ignored() {
    let out = "applied: /etc/pam.d/login\nnot-applied: /somewhere/else\n";
    let st = PamHelper::parse_batched_output(out);
    assert!(!st.sudo_enabled);
    assert!(!st.polkit_enabled);
}

#[test]
fn batched_and_fallback_probes_agree_on_every_state() {
    for sudo in [false, true] {
        for polkit in [false, true] {
            let m = HelperModel { sudo_applied: sudo, polkit_applied: polkit };
            let batched = PamHelper::parse_batched_output(m.batch_response().as_str());
            let fallback = PamHelper::fallback_status(
                Some(m.single_check_exit(&PamServicePath::Sudo)),
                Some(m.single_check_exit(&PamServicePath::Polkit)),
            );
            assert_eq!(batched, fallback);
            assert_eq!(batched.sudo_enabled, sudo);
            assert_eq!(batched.polkit_enabled, polkit);
        }
    }
}

#[test]
fn fallback_reads_only_a_zero_exit_as_applied() {
    assert!(PamHelper::fallback_path_applied(Some(0)));
    assert!(!PamHelper::fallback_path_applied(Some(1)));
    assert!(!PamHelper::fallback_path_applied(Some(-1)));
    assert!(!PamHelper::fallback_path_applied(None));
    let st = PamHelper::fallback_status(Some(0), None);
    assert!(st.sudo_enabled);
    assert!(!st.polkit_enabled);
}

#[test]
fn total_probe_failure_degrades_to_all_false() {
    let st = PamHelper::fallback_status(None, None);
    assert_eq!(st, ConfigurationStatus::all_disabled());
}

#[test]
fn probe_after_apply_reports_enabled() {
    let m = HelperModel { sudo_applied: false, polkit_applied: false };
    let (m, exit) = m.apply(&PamServicePath::Sudo);
    assert_eq!(exit, 0);
    let st = PamHelper::parse_batched_output(m.batch_response().as_str());
    assert!(st.sudo_enabled);
    assert!(!st.polkit_enabled);
}

#[test]
fn probe_after_remove_reports_disabled() {
    let m = HelperModel { sudo_applied: true, polkit_applied: true };
    let (m, exit) = m.remove(&PamServicePath::Polkit);
    assert_eq!(exit, 0);
    let st = PamHelper::parse_batched_output(m.batch_response().as_str());
    assert!(st.sudo_enabled);
    assert!(!st.polkit_enabled);
}

#[test]
fn only_a_spawn_failure_triggers_the_fallback() {
    // A completed invocation is final whatever its exit code: batched
    // mode signals state through stdout alone.
    let inv = HelperInvocationResult {
        exit_code: 7,
        stdout: String::from("applied: /etc/pam.d/polkit-1\n"),
        stderr: String::from("ignored"),
    };
    let step = PamHelper::probe_step(Some(&inv));
    assert_eq!(
        step,
        ProbeStep::Done(ConfigurationStatus { sudo_enabled: false, polkit_enabled: true })
    );
    assert_eq!(PamHelper::probe_step(None), ProbeStep::RunFallback);
}

#[test]
fn batched_check_args_name_both_paths() {
    let args = PamHelper::batched_check_args();
    assert_eq!(args.len(), 3);
    assert_eq!(args[0], "check");
    assert_eq!(args[1], "/etc/pam.d/sudo");
    assert_eq!(args[2], "/etc/pam.d/polkit-1");
}

#[test]
fn single_check_args_name_one_path() {
    let args = PamHelper::single_check_args(&PamServicePath::Polkit);
    assert_eq!(args.len(), 2);
    assert_eq!(args[0], "check");
    assert_eq!(args[1], "/etc/pam.d/polkit-1");
}
