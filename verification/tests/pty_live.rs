//! End-to-end check against a real pseudo-terminal: a shell spawned on the
//! subordinate end echoes what is written to the primary end, and the
//! library's reader model turns the raw reads into the expected events.

use portable_pty::native_pty_system;
use portable_pty::CommandBuilder;
use portable_pty::PtySize;
use std::io::Read;
use std::io::Write;
use vivid::pty::terminal_env;
use vivid::reader::drain_outcomes;
use vivid::PtyError;
use vivid::PtyEvent;
use vivid::PtyManager;
use vivid::ReadOutcome;

#[test]
fn echo_roundtrip_through_a_real_shell() {
    let pty_system = native_pty_system();
    let pair = pty_system
        .openpty(PtySize {
            rows: 24,
            cols: 80,
            pixel_width: 0,
            pixel_height: 0,
        })
        .expect("failed to open a pseudo-terminal");

    let mut registry = PtyManager::new();
    let id = registry.register_session(24, 80);
    assert_eq!(id, 1);

    let mut cmd = CommandBuilder::new("/bin/sh");
    for (key, value) in terminal_env() {
        cmd.env(key, value);
    }
    let mut child = pair
        .slave
        .spawn_command(cmd)
        .expect("failed to spawn the shell");
    let mut writer = pair.master.take_writer().expect("no writer");
    let mut reader = pair.master.try_clone_reader().expect("no reader");
    drop(pair.slave);

    assert!(registry.write(id, "echo hi\nexit\n").is_ok());
    writer.write_all(b"echo hi\nexit\n").unwrap();
    writer.flush().unwrap();
    drop(writer);

    let mut outcomes = Vec::new();
    let mut buf = [0u8; 4096];
    loop {
        match reader.read(&mut buf) {
            Ok(0) => {
                outcomes.push(ReadOutcome::Eof);
                break;
            }
            Ok(n) => outcomes.push(ReadOutcome::Data(buf[..n].to_vec())),
            Err(_) => {
                outcomes.push(ReadOutcome::ReadError);
                break;
            }
        }
    }
    let _ = child.wait();

    let events = drain_outcomes(id, &outcomes);
    let mut exit_seen = false;
    let mut concatenated = String::new();
    for event in &events {
        match event {
            PtyEvent::Output { session_id, text } => {
                assert_eq!(*session_id, id);
                assert!(!exit_seen, "output after the exit event");
                concatenated.push_str(text);
            }
            PtyEvent::Exit { session_id } => {
                assert_eq!(*session_id, id);
                assert!(!exit_seen, "more than one exit event");
                exit_seen = true;
            }
        }
    }
    assert!(
        concatenated.contains("hi"),
        "echoed text not observed: {concatenated:?}"
    );

    assert_eq!(registry.close(id), Ok(()));
    assert_eq!(registry.write(id, "x"), Err(PtyError::SessionNotFound(id)));
}
