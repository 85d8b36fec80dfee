use vivid::reader::drain_outcomes;
use vivid::reader::reader_step;
use vivid::PtyEvent;
use vivid::ReadOutcome;

#[test]
fn data_becomes_one_output_event() {
    let (event, done) = reader_step(3, &ReadOutcome::Data(b"hi\n".to_vec()));
    assert!(!done);
    match event {
        Some(PtyEvent::Output { session_id, text }) => {
            assert_eq!(session_id, 3);
            assert_eq!(text, "hi\n");
        }
        other => panic!("expected an output event, got {:?}", other),
    }
}

#[test]
fn eof_becomes_the_exit_event() {
    let (event, done) = reader_step(7, &ReadOutcome::Eof);
    assert!(done);
    assert_eq!(event, Some(PtyEvent::Exit { session_id: 7 }));
}

#[test]
fn read_error_stops_the_reader_silently() {
    let (event, done) = reader_step(7, &ReadOutcome::ReadError);
    assert!(done);
    assert_eq!(event, None);
}

#[test]
fn event_names_match_the_sink_channels() {
    let output = PtyEvent::Output {
        session_id: 1,
        text: "x".to_string(),
    };
    let exit = PtyEvent::Exit { session_id: 1 };
    assert_eq!(output.event_name(), "pty-output");
    assert_eq!(exit.event_name(), "pty-exit");
}

#[test]
fn invalid_utf8_decodes_to_replacement_characters() {
    let (event, _) = reader_step(1, &ReadOutcome::Data(vec![0xff, b'h', b'i']));
    match event {
        Some(PtyEvent::Output { text, .. }) => assert_eq!(text, "\u{FFFD}hi"),
        other => panic!("expected an output event, got {:?}", other),
    }
}

#[test]
fn session_output_is_observed_in_order_then_exactly_one_exit() {
    let outcomes = vec![
        ReadOutcome::Data(b"ab".to_vec()),
        ReadOutcome::Data(b"cd".to_vec()),
        ReadOutcome::Eof,
        ReadOutcome::Data(b"never read".to_vec()),
    ];
    let events = drain_outcomes(9, &outcomes);
    assert_eq!(
        events,
        vec![
            PtyEvent::Output {
                session_id: 9,
                text: "ab".to_string()
            },
            PtyEvent::Output {
                session_id: 9,
                text: "cd".to_string()
            },
            PtyEvent::Exit { session_id: 9 },
        ]
    );
    let concatenated: String = events
        .iter()
        .filter_map(|e| match e {
            PtyEvent::Output { text, .. } => Some(text.as_str()),
            _ => None,
        })
        .collect();
    assert_eq!(concatenated, "abcd");
    let exits = events
        .iter()
        .filter(|e| matches!(e, PtyEvent::Exit { .. }))
        .count();
    assert_eq!(exits, 1);
    assert!(matches!(events.last(), Some(PtyEvent::Exit { .. })));
}

#[test]
fn read_error_ends_the_stream_without_exit_event() {
    let outcomes = vec![ReadOutcome::Data(b"x".to_vec()), ReadOutcome::ReadError];
    let events = drain_outcomes(2, &outcomes);
    assert_eq!(
        events,
        vec![PtyEvent::Output {
            session_id: 2,
            text: "x".to_string()
        }]
    );
}
