use mechaflt::shell::{Shell, ShellAction, ShellInput};

#[test]
fn shell_decisions() {
    let mut sh = Shell::new();
    assert!(sh.last_command_succeeded);
    assert!(matches!(sh.on_input(ShellInput::Line("  exit ".to_string())), ShellAction::Exit));
    assert!(matches!(sh.on_input(ShellInput::Line("quit".to_string())), ShellAction::Exit));
    assert!(matches!(sh.on_input(ShellInput::Line("   ".to_string())), ShellAction::Prompt));
    match sh.on_input(ShellInput::Line("  FB: getvar version\n".to_string())) {
        ShellAction::Run(c) => assert_eq!(c, "FB: getvar version"),
        other => panic!("unexpected {:?}", other),
    }
    assert!(matches!(sh.on_input(ShellInput::Cancelled), ShellAction::Exit));
    assert!(matches!(sh.on_input(ShellInput::Interrupted), ShellAction::Exit));
}

#[test]
fn shell_tracks_last_result() {
    let mut sh = Shell::new();
    sh.on_result(&Err("no".to_string()));
    assert!(!sh.last_command_succeeded);
    sh.on_result(&Ok(()));
    assert!(sh.last_command_succeeded);
    assert!(matches!(sh.on_input(ShellInput::Error("tty".to_string())), ShellAction::Prompt));
    assert!(!sh.last_command_succeeded);
}
