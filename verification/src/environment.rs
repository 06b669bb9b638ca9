//! Which kind of session the process runs in.

use vstd::prelude::*;

verus! {

/// The session a clipboard operation runs in.
#[derive(Clone, Copy, Debug, PartialEq, Eq, Structural)]
pub enum EnvironmentKind {
    /// A desktop session with direct access to the system clipboard.
    Native,
    /// A Linux userland on top of a Windows host.
    Wsl,
    /// A remote terminal session.
    SshRemote,
}

/// The variable that SSH daemons set for interactive sessions.
pub const SSH_SESSION_VARIABLE: &'static str = "SSH_CLIENT";

/// The session kind for one reading of the environment: `wsl_marker` says
/// whether the kernel carries the WSL marker, `ssh_session` is the value of
/// [`SSH_SESSION_VARIABLE`], `None` where it is unset.
pub open spec fn detected(wsl_marker: bool, ssh_session: Option<Seq<char>>) -> EnvironmentKind {
    if wsl_marker {
        EnvironmentKind::Wsl
    } else if ssh_session matches Some(value) && value.len() > 0 {
        EnvironmentKind::SshRemote
    } else {
        EnvironmentKind::Native
    }
}

/// Decides the session kind. The WSL marker wins over the SSH variable; the
/// variable counts only when it is set to a non-empty value.
pub fn detect(wsl_marker: bool, ssh_session: Option<&str>) -> (kind: EnvironmentKind)
    ensures
        kind == detected(
            wsl_marker,
            match ssh_session {
                Some(value) => Some(value@),
                None => None,
            },
        ),
{
    if wsl_marker {
        return EnvironmentKind::Wsl;
    }
    match ssh_session {
        Some(value) => {
            if value.is_empty() {
                EnvironmentKind::Native
            } else {
                EnvironmentKind::SshRemote
            }
        },
        None => EnvironmentKind::Native,
    }
}

} // verus!
