use vivid::capture::capture_event;
use vivid::capture::capture_event_name;
use vivid::CaptureController;
use vivid::LineBuffer;
use vivid::OutputPayload;

#[test]
fn activation_is_one_shot() {
    let mut controller = CaptureController::new();
    assert!(controller.activate());
    assert!(!controller.activate());
    assert!(!controller.activate());
}

#[test]
fn lines_complete_only_at_newlines() {
    let mut buffer = LineBuffer::new();
    assert_eq!(buffer.push_chunk(b"ab"), Vec::<String>::new());
    assert_eq!(buffer.push_chunk(b"c\nde"), vec!["abc".to_string()]);
    assert_eq!(buffer.push_chunk(b"\n"), vec!["de".to_string()]);
}

#[test]
fn carriage_returns_are_stripped_from_line_ends() {
    let mut buffer = LineBuffer::new();
    assert_eq!(
        buffer.push_chunk(b"x\r\ny\n"),
        vec!["x".to_string(), "y".to_string()]
    );
}

#[test]
fn several_lines_in_one_chunk_come_out_in_order() {
    let mut buffer = LineBuffer::new();
    assert_eq!(
        buffer.push_chunk(b"a\nb\nc"),
        vec!["a".to_string(), "b".to_string()]
    );
    assert_eq!(buffer.push_chunk(b"\n"), vec!["c".to_string()]);
}

#[test]
fn chunk_boundaries_do_not_change_the_lines() {
    let all_at_once = {
        let mut buffer = LineBuffer::new();
        buffer.push_chunk(b"one\ntwo\nthree")
    };
    let byte_by_byte = {
        let mut buffer = LineBuffer::new();
        let mut lines = Vec::new();
        for byte in b"one\ntwo\nthree" {
            lines.extend(buffer.push_chunk(&[*byte]));
        }
        lines
    };
    assert_eq!(all_at_once, byte_by_byte);
    assert_eq!(all_at_once, vec!["one".to_string(), "two".to_string()]);
}

#[test]
fn invalid_utf8_lines_decode_lossily() {
    let mut buffer = LineBuffer::new();
    assert_eq!(buffer.push_chunk(&[0xff, b'o', b'k', b'\n']), vec![
        "\u{FFFD}ok".to_string()
    ]);
}

#[test]
fn every_completed_line_is_reported() {
    assert_eq!(
        capture_event("stderr", "warning".to_string()),
        OutputPayload {
            stream: "stderr".to_string(),
            text: "warning".to_string(),
        }
    );
    assert_eq!(
        capture_event("stdout", String::new()),
        OutputPayload {
            stream: "stdout".to_string(),
            text: String::new(),
        }
    );
}

#[test]
fn captured_output_uses_its_own_event_channel() {
    assert_eq!(capture_event_name(), "vivid-output");
}
