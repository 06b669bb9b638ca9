use clipboard_transport::{select_transport, EnvironmentKind, Operation, Transport};

#[test]
fn text_follows_the_environment() {
    for operation in [Operation::SetText, Operation::GetText] {
        assert_eq!(select_transport(operation, EnvironmentKind::Native), Transport::Native);
        assert_eq!(select_transport(operation, EnvironmentKind::Wsl), Transport::WslBridge);
        assert_eq!(
            select_transport(operation, EnvironmentKind::SshRemote),
            Transport::TerminalEscape
        );
    }
}

#[test]
fn images_are_native_everywhere() {
    for operation in [Operation::GetImage, Operation::SetImage] {
        for environment in
            [EnvironmentKind::Native, EnvironmentKind::Wsl, EnvironmentKind::SshRemote]
        {
            assert_eq!(select_transport(operation, environment), Transport::Native);
        }
    }
}
