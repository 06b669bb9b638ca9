use clipboard_transport::{detect, EnvironmentKind, SSH_SESSION_VARIABLE};

#[test]
fn desktop_without_markers_is_native() {
    assert_eq!(detect(false, None), EnvironmentKind::Native);
}

#[test]
fn wsl_marker_gives_wsl() {
    assert_eq!(detect(true, None), EnvironmentKind::Wsl);
}

#[test]
fn wsl_wins_over_ssh_variable() {
    assert_eq!(detect(true, Some("10.0.0.1 50000 22")), EnvironmentKind::Wsl);
}

#[test]
fn ssh_variable_gives_remote_session() {
    assert_eq!(detect(false, Some("10.0.0.1 50000 22")), EnvironmentKind::SshRemote);
}

#[test]
fn empty_ssh_variable_does_not_count() {
    assert_eq!(detect(false, Some("")), EnvironmentKind::Native);
}

#[test]
fn empty_ssh_variable_leaves_wsl_alone() {
    assert_eq!(detect(true, Some("")), EnvironmentKind::Wsl);
}

#[test]
fn ssh_variable_of_one_space_counts() {
    assert_eq!(detect(false, Some(" ")), EnvironmentKind::SshRemote);
}

#[test]
fn ssh_variable_has_its_usual_name() {
    assert_eq!(SSH_SESSION_VARIABLE, "SSH_CLIENT");
}
