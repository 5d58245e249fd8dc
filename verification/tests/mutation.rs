use xfprintd_core::helper::PamHelper;
use xfprintd_core::model::HelperModel;
use xfprintd_core::paths::PamServicePath;
use xfprintd_core::status::ErrorKind;
use xfprintd_core::status::HelperInvocationResult;

fn invocation(exit_code: i32, stdout: &str, stderr: &str) -> HelperInvocationResult {
    HelperInvocationResult {
        exit_code,
        stdout: String::from(stdout),
        stderr: String::from(stderr),
    }
}

#[test]
fn apply_request_names_helper_subcommand_and_payload() {
    let args = PamHelper::apply_request(&PamServicePath::Sudo);
    assert_eq!(args.len(), 3);
    assert_eq!(args[0], "/opt/xfprintd-gui/xfprintd-gui-helper");
    assert_eq!(args[1], "apply");
    assert_eq!(args[2], "{\"file\":\"/etc/pam.d/sudo\"}");
}

#[test]
fn apply_request_for_polkit_names_the_restore_template() {
    let args = PamHelper::apply_request(&PamServicePath::Polkit);
    assert_eq!(
        args[2],
        "{\"file\":\"/etc/pam.d/polkit-1\",\"default\":\"/usr/lib/pam.d/polkit-1\"}"
    );
}

#[test]
fn remove_request_names_the_bare_path() {
    let args = PamHelper::remove_request(&PamServicePath::Polkit);
    assert_eq!(args.len(), 3);
    assert_eq!(args[0], "/opt/xfprintd-gui/xfprintd-gui-helper");
    assert_eq!(args[1], "remove");
    assert_eq!(args[2], "/etc/pam.d/polkit-1");
}

#[test]
fn zero_exit_is_success() {
    let inv = invocation(0, "done\n", "");
    assert!(PamHelper::mutation_outcome(&PamServicePath::Sudo, &inv).is_ok());
}

#[test]
fn permission_denied_stderr_surfaces_in_detail_for_apply_and_remove() {
    let apply_inv = invocation(1, "", "permission denied");
    let e = PamHelper::mutation_outcome(&PamServicePath::Sudo, &apply_inv).unwrap_err();
    assert!(e.detail.contains("permission denied"));
    assert_eq!(e.kind, ErrorKind::HelperRejected);
    assert_eq!(e.path, "/etc/pam.d/sudo");

    let remove_inv = invocation(1, "", "permission denied");
    let e = PamHelper::mutation_outcome(&PamServicePath::Polkit, &remove_inv).unwrap_err();
    assert!(e.detail.contains("permission denied"));
    assert_eq!(e.path, "/etc/pam.d/polkit-1");
}

#[test]
fn stdout_is_the_detail_when_stderr_is_empty() {
    let inv = invocation(3, "malformed file\n", "");
    let e = PamHelper::mutation_outcome(&PamServicePath::Sudo, &inv).unwrap_err();
    assert_eq!(e.detail, "malformed file\n");
}

#[test]
fn elevation_wrapper_exit_codes_classify_as_denied() {
    let dismissed = invocation(126, "", "dialog dismissed");
    let e = PamHelper::mutation_outcome(&PamServicePath::Sudo, &dismissed).unwrap_err();
    assert_eq!(e.kind, ErrorKind::ElevationDenied);

    let not_authorized = invocation(127, "", "not authorized");
    let e = PamHelper::mutation_outcome(&PamServicePath::Sudo, &not_authorized).unwrap_err();
    assert_eq!(e.kind, ErrorKind::ElevationDenied);
}

#[test]
fn a_missing_helper_is_a_hard_error_for_mutation() {
    let e = PamHelper::helper_unavailable_error(&PamServicePath::Sudo);
    assert_eq!(e.kind, ErrorKind::HelperUnavailable);
    assert_eq!(e.path, "/etc/pam.d/sudo");
    assert_eq!(e.detail, "/opt/xfprintd-gui/xfprintd-gui-helper");
}

#[test]
fn spawn_failure_is_a_denied_elevation() {
    let e = PamHelper::spawn_failure_error(
        &PamServicePath::Polkit,
        String::from("no such file or directory"),
    );
    assert_eq!(e.kind, ErrorKind::ElevationDenied);
    assert_eq!(e.path, "/etc/pam.d/polkit-1");
    assert_eq!(e.detail, "no such file or directory");
}

#[test]
fn reapplying_an_applied_path_is_a_fresh_success() {
    let m = HelperModel { sudo_applied: true, polkit_applied: false };
    let (m2, exit) = m.apply(&PamServicePath::Sudo);
    assert_eq!(exit, 0);
    assert_eq!(m2, m);
    let inv = invocation(exit, "", "");
    assert!(PamHelper::mutation_outcome(&PamServicePath::Sudo, &inv).is_ok());
}

#[test]
fn removing_a_removed_path_is_a_fresh_success() {
    let m = HelperModel { sudo_applied: true, polkit_applied: false };
    let (m2, exit) = m.remove(&PamServicePath::Polkit);
    assert_eq!(exit, 0);
    assert_eq!(m2, m);
    let inv = invocation(exit, "", "");
    assert!(PamHelper::mutation_outcome(&PamServicePath::Polkit, &inv).is_ok());
}

#[test]
fn unknown_path_strings_are_rejected_before_invocation() {
    let e = PamHelper::apply_request_for("/etc/pam.d/login").unwrap_err();
    assert_eq!(e.kind, ErrorKind::UnknownPath);
    assert_eq!(e.path, "/etc/pam.d/login");
    assert_eq!(e.detail, "not a managed PAM service path");

    let e = PamHelper::remove_request_for("").unwrap_err();
    assert_eq!(e.kind, ErrorKind::UnknownPath);
    assert_eq!(e.path, "");
}

#[test]
fn canonical_path_strings_build_their_requests() {
    let args = PamHelper::apply_request_for("/etc/pam.d/sudo").unwrap();
    assert_eq!(args[1], "apply");
    assert_eq!(args[2], "{\"file\":\"/etc/pam.d/sudo\"}");

    let args = PamHelper::remove_request_for("/etc/pam.d/polkit-1").unwrap();
    assert_eq!(args[1], "remove");
    assert_eq!(args[2], "/etc/pam.d/polkit-1");
}
