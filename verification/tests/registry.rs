use vivid::pty::shell_program;
use vivid::pty::terminal_env;
use vivid::PtyError;
use vivid::PtyManager;

#[test]
fn spawn_write_close_scenario() {
    let mut registry = PtyManager::new();
    let id = registry.register_session(24, 80);
    assert_eq!(id, 1);
    assert!(registry.write(1, "echo hi\n").is_ok());
    assert_eq!(registry.close(1), Ok(()));
    assert_eq!(registry.write(1, "x"), Err(PtyError::SessionNotFound(1)));
}

#[test]
fn identifiers_strictly_increase() {
    let mut registry = PtyManager::new();
    assert_eq!(registry.peek_next_id(), 1);
    assert_eq!(registry.register_session(24, 80), 1);
    assert_eq!(registry.register_session(24, 80), 2);
    assert_eq!(registry.register_session(24, 80), 3);
    assert_eq!(registry.session_count(), 3);
    assert_eq!(registry.peek_next_id(), 4);
}

#[test]
fn closed_identifier_is_never_reassigned() {
    let mut registry = PtyManager::new();
    assert_eq!(registry.register_session(24, 80), 1);
    assert_eq!(registry.register_session(24, 80), 2);
    assert_eq!(registry.close(2), Ok(()));
    assert_eq!(registry.register_session(24, 80), 3);
    assert_eq!(registry.close(1), Ok(()));
    assert_eq!(registry.register_session(24, 80), 4);
    assert!(!registry.contains(1));
    assert!(!registry.contains(2));
    assert!(registry.contains(3));
    assert!(registry.contains(4));
}

#[test]
fn operations_on_unknown_identifier_fail_without_side_effects() {
    let mut registry = PtyManager::new();
    let id = registry.register_session(30, 90);
    assert_eq!(registry.write(99, "data"), Err(PtyError::SessionNotFound(99)));
    assert_eq!(registry.resize(99, 10, 10), Err(PtyError::SessionNotFound(99)));
    assert_eq!(registry.close(99), Err(PtyError::SessionNotFound(99)));
    assert_eq!(registry.geometry(id), Some((30, 90)));
    assert_eq!(registry.session_count(), 1);
}

#[test]
fn resize_updates_geometry_of_that_session_only() {
    let mut registry = PtyManager::new();
    let a = registry.register_session(24, 80);
    let b = registry.register_session(25, 81);
    assert_eq!(registry.resize(a, 50, 132), Ok(()));
    assert_eq!(registry.geometry(a), Some((50, 132)));
    assert_eq!(registry.geometry(b), Some((25, 81)));
}

#[test]
fn close_twice_fails_the_second_time() {
    let mut registry = PtyManager::new();
    let id = registry.register_session(24, 80);
    assert_eq!(registry.close(id), Ok(()));
    assert_eq!(registry.close(id), Err(PtyError::SessionNotFound(id)));
    assert_eq!(registry.resize(id, 1, 1), Err(PtyError::SessionNotFound(id)));
}

#[test]
fn session_not_found_message_names_the_identifier() {
    let err = PtyError::SessionNotFound(5);
    assert_eq!(err.message(), "Session 5 not found");
    let err = PtyError::SessionNotFound(4294967295);
    assert_eq!(err.message(), "Session 4294967295 not found");
}

#[test]
fn io_error_messages_carry_the_detail() {
    assert_eq!(
        PtyError::WriteFailed("broken pipe".to_string()).message(),
        "Write error: broken pipe"
    );
    assert_eq!(
        PtyError::FlushFailed("broken pipe".to_string()).message(),
        "Flush error: broken pipe"
    );
    assert_eq!(
        PtyError::ResizeFailed("bad fd".to_string()).message(),
        "Resize error: bad fd"
    );
    assert_eq!(
        PtyError::SpawnFailed("Failed to open PTY: no device".to_string()).message(),
        "Failed to open PTY: no device"
    );
    assert_eq!(
        PtyError::CaptureUnavailable.message(),
        "Output capture is unavailable on this platform"
    );
}

#[test]
fn shell_program_prefers_the_environment() {
    assert_eq!(shell_program(Some("/bin/bash".to_string())), "/bin/bash");
    assert_eq!(shell_program(None), "/bin/zsh");
}

#[test]
fn spawned_shells_get_terminal_capabilities() {
    let env = terminal_env();
    assert_eq!(env.len(), 2);
    assert_eq!(env[0], ("TERM".to_string(), "xterm-256color".to_string()));
    assert_eq!(env[1], ("COLORTERM".to_string(), "truecolor".to_string()));
}
