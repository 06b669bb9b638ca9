//! Which transport carries which operation.

use crate::environment::EnvironmentKind;
use vstd::prelude::*;

verus! {

/// The four operations of the clipboard.
#[derive(Clone, Copy, Debug, PartialEq, Eq, Structural)]
pub enum Operation {
    /// Put text on the clipboard.
    SetText,
    /// Read the text of the clipboard.
    GetText,
    /// Read the image of the clipboard.
    GetImage,
    /// Put an image on the clipboard.
    SetImage,
}

/// The three ways to reach a clipboard.
#[derive(Clone, Copy, Debug, PartialEq, Eq, Structural)]
pub enum Transport {
    /// The clipboard of the desktop, through the platform's own interface.
    Native,
    /// The clipboard of the Windows host, through its command-line utilities.
    WslBridge,
    /// The clipboard of the machine that shows the terminal, through an
    /// escape sequence.
    TerminalEscape,
}

/// The transport of an operation in an environment. Text goes the way of the
/// environment. Images go to the native clipboard wherever the process runs.
pub open spec fn transport_for(operation: Operation, environment: EnvironmentKind) -> Transport {
    match operation {
        Operation::GetImage | Operation::SetImage => Transport::Native,
        Operation::SetText | Operation::GetText => match environment {
            EnvironmentKind::Native => Transport::Native,
            EnvironmentKind::Wsl => Transport::WslBridge,
            EnvironmentKind::SshRemote => Transport::TerminalEscape,
        },
    }
}

/// Chooses the transport of an operation in an environment.
pub fn select_transport(operation: Operation, environment: EnvironmentKind) -> (transport:
    Transport)
    ensures
        transport == transport_for(operation, environment),
{
    match operation {
        Operation::GetImage | Operation::SetImage => Transport::Native,
        Operation::SetText | Operation::GetText => match environment {
            EnvironmentKind::Native => Transport::Native,
            EnvironmentKind::Wsl => Transport::WslBridge,
            EnvironmentKind::SshRemote => Transport::TerminalEscape,
        },
    }
}

} // verus!
