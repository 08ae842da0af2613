use admin_server::containers::{Container, ContainerListing, LabelMap};
use admin_server::logs::{
    day_window, window_of_day, DayWindow, LogAction, LogChunk, LogError, LogEvent, LogQuery,
    LogReport, LogRequest, LogSession, StreamKind, UnexpectedLogEvent,
};

fn container(id: &str, service: &str) -> Container {
    let mut labels = LabelMap::new();
    labels.insert("com.docker.compose.service".to_string(), service.to_string());
    Container { id: Some(id.to_string()), labels }
}

fn query(service: &str, date: &str, pattern: Option<&str>, limit: Option<usize>) -> LogQuery {
    LogQuery {
        service: service.to_string(),
        date: date.to_string(),
        pattern: pattern.map(|p| p.to_string()),
        limit,
    }
}

fn listed() -> LogEvent {
    LogEvent::Containers(ContainerListing::Listed {
        containers: vec![container("c-web", "web"), container("c-worker", "worker")],
    })
}

fn output(kind: StreamKind, text: &str) -> LogEvent {
    LogEvent::Chunk(LogChunk::Output { kind, bytes: text.as_bytes().to_vec() })
}

/// Starts a session for `query` and brings it to the point where it reads the stream.
fn streaming(query: LogQuery) -> LogSession {
    let (mut session, first) = LogSession::begin(query);
    assert_eq!(first, LogAction::ListContainers);
    let next = session.step(listed()).unwrap();
    assert!(matches!(next, LogAction::OpenStream { .. }));
    session
}

fn report(service: &str, date: &str, lines: &[&str]) -> LogAction {
    LogAction::Finish {
        result: Ok(LogReport {
            service: service.to_string(),
            date: date.to_string(),
            count: lines.len(),
            lines: lines.iter().map(|l| l.to_string()).collect(),
        }),
    }
}

#[test]
fn window_of_a_day() {
    assert_eq!(window_of_day(719_163), DayWindow { since: 0, until: 86_399 });
    assert_eq!(window_of_day(719_164), DayWindow { since: 86_400, until: 172_799 });
    assert_eq!(window_of_day(719_162), DayWindow { since: -86_400, until: -1 });
}

#[test]
fn window_of_a_date() {
    assert_eq!(day_window("1970-01-01"), Some(DayWindow { since: 0, until: 86_399 }));
    assert_eq!(
        day_window("2024-01-01"),
        Some(DayWindow { since: 1_704_067_200, until: 1_704_153_599 })
    );
    assert_eq!(
        day_window("2024-02-29"),
        Some(DayWindow { since: 1_709_164_800, until: 1_709_251_199 })
    );
    assert_eq!(
        day_window("1969-12-31"),
        Some(DayWindow { since: -86_400, until: -1 })
    );
}

#[test]
fn dates_that_are_none() {
    assert_eq!(day_window("2024-13-01"), None);
    assert_eq!(day_window("2024-00-10"), None);
    assert_eq!(day_window("2024-02-30"), None);
    assert_eq!(day_window("2023-02-29"), None);
    assert_eq!(day_window("2024-01-32"), None);
    assert_eq!(day_window(""), None);
    assert_eq!(day_window("yesterday"), None);
    assert_eq!(day_window("2024-01"), None);
    assert_eq!(day_window("2024/01/01"), None);
    assert_eq!(day_window("2024-01-01T00:00:00"), None);
}

#[test]
fn invalid_month_is_a_bad_request() {
    let (session, first) = LogSession::begin(query("worker", "2024-13-01", None, None));
    assert_eq!(first, LogAction::Finish { result: Err(LogError::InvalidDate) });
    assert!(session.is_finished());
    assert_eq!(LogError::InvalidDate.status_code(), 400);
    assert_eq!(LogError::InvalidDate.body(), "date debe ser YYYY-MM-DD");
}

#[test]
fn unknown_service_is_not_found() {
    let (mut session, first) = LogSession::begin(query("ghost", "2024-01-01", None, None));
    assert_eq!(first, LogAction::ListContainers);
    let next = session.step(listed()).unwrap();
    assert_eq!(next, LogAction::Finish { result: Err(LogError::ServiceNotFound) });
    assert!(session.is_finished());
    assert_eq!(LogError::ServiceNotFound.status_code(), 404);
    assert_eq!(LogError::ServiceNotFound.body(), "service not found");
}

#[test]
fn unreachable_runtime_is_a_bad_gateway() {
    let (mut session, _) = LogSession::begin(query("web", "2024-01-01", None, None));
    let next = session
        .step(LogEvent::Containers(ContainerListing::Failed { error: "no socket".to_string() }))
        .unwrap();
    let error = LogError::RuntimeUnavailable { message: "no socket".to_string() };
    assert_eq!(error.status_code(), 502);
    assert_eq!(error.body(), "no socket");
    assert_eq!(next, LogAction::Finish { result: Err(error) });
}

#[test]
fn stream_is_asked_for_the_day_of_the_container() {
    let (mut session, _) = LogSession::begin(query("worker", "2024-01-01", None, None));
    let next = session.step(listed()).unwrap();
    assert_eq!(
        next,
        LogAction::OpenStream {
            request: LogRequest {
                container_id: "c-worker".to_string(),
                since: 1_704_067_200,
                until: 1_704_153_599,
                follow: false,
                stdout: true,
                stderr: true,
                timestamps: true,
                tail: "all".to_string(),
            }
        }
    );
    assert!(!session.is_finished());
}

#[test]
fn lines_are_collected_until_the_stream_ends() {
    let mut session = streaming(query("web", "2024-01-01", Some("GET"), None));
    assert_eq!(
        session.step(output(StreamKind::StdOut, "t1 GET /a\nt2 POST /b\n")),
        Ok(LogAction::ReadChunk)
    );
    assert_eq!(
        session.step(output(StreamKind::StdErr, "t3 GET /c\n\n")),
        Ok(LogAction::ReadChunk)
    );
    assert_eq!(session.step(output(StreamKind::Console, "t4 GET /d")), Ok(LogAction::ReadChunk));
    assert_eq!(
        session.step(LogEvent::EndOfStream),
        Ok(report("web", "2024-01-01", &["t1 GET /a", "t3 GET /c", "t4 GET /d"]))
    );
    assert!(session.is_finished());
}

#[test]
fn reading_stops_when_the_limit_is_reached() {
    let mut session = streaming(query("web", "2024-01-01", None, Some(3)));
    assert_eq!(session.step(output(StreamKind::StdOut, "a\nb\n")), Ok(LogAction::ReadChunk));
    assert_eq!(
        session.step(output(StreamKind::StdOut, "c\nd\ne\n")),
        Ok(report("web", "2024-01-01", &["a", "b", "c"]))
    );
    assert!(session.is_finished());
    assert_eq!(session.step(output(StreamKind::StdOut, "f\n")), Err(UnexpectedLogEvent {}));
}

#[test]
fn broken_stream_gives_no_partial_report() {
    let mut session = streaming(query("web", "2024-01-01", None, None));
    assert_eq!(session.step(output(StreamKind::StdOut, "a\nb\n")), Ok(LogAction::ReadChunk));
    let next = session.step(LogEvent::Chunk(LogChunk::Failed { error: "reset".to_string() }));
    assert_eq!(
        next,
        Ok(LogAction::Finish {
            result: Err(LogError::RuntimeUnavailable { message: "reset".to_string() })
        })
    );
    assert!(session.is_finished());
}

#[test]
fn standard_input_is_passed_over() {
    let mut session = streaming(query("web", "2024-01-01", None, None));
    assert_eq!(session.step(output(StreamKind::StdIn, "typed\n")), Ok(LogAction::ReadChunk));
    assert_eq!(session.step(output(StreamKind::StdOut, "said\n")), Ok(LogAction::ReadChunk));
    assert_eq!(session.step(LogEvent::EndOfStream), Ok(report("web", "2024-01-01", &["said"])));
}

#[test]
fn empty_stream_gives_an_empty_report() {
    let mut session = streaming(query("web", "2024-01-01", Some("x"), None));
    assert_eq!(session.step(LogEvent::EndOfStream), Ok(report("web", "2024-01-01", &[])));
}

#[test]
fn malformed_bytes_are_replaced_not_refused() {
    let mut session = streaming(query("web", "2024-01-01", None, None));
    let bytes = vec![b'o', b'k', 0xff, b'\n', 0xc3, 0xa9, b'\n', 0xe2, 0x82];
    assert_eq!(
        session.step(LogEvent::Chunk(LogChunk::Output { kind: StreamKind::StdOut, bytes })),
        Ok(LogAction::ReadChunk)
    );
    assert_eq!(
        session.step(LogEvent::EndOfStream),
        Ok(report("web", "2024-01-01", &["ok\u{fffd}", "\u{e9}", "\u{fffd}"]))
    );
}

#[test]
fn report_counts_its_lines_within_the_limit() {
    for limit in [0usize, 1, 2, 5, 50] {
        let mut session = streaming(query("web", "2024-01-01", Some("k"), Some(limit)));
        let mut action = LogAction::ReadChunk;
        for _ in 0..10 {
            if action != LogAction::ReadChunk {
                break;
            }
            action = session.step(output(StreamKind::StdOut, "k1\nzz\nk2\n\nk3\n")).unwrap();
        }
        if action == LogAction::ReadChunk {
            action = session.step(LogEvent::EndOfStream).unwrap();
        }
        match action {
            LogAction::Finish { result: Ok(found) } => {
                assert_eq!(found.count, found.lines.len());
                assert!(found.count <= limit.max(1).min(20_000));
                assert_eq!(found.count, 30.min(limit.max(1)));
                assert!(found.lines.iter().all(|line| line.contains("k")));
            }
            other => panic!("no report: {other:?}"),
        }
    }
}

#[test]
fn misplaced_log_events_are_refused() {
    let (mut session, _) = LogSession::begin(query("web", "2024-01-01", None, None));
    assert_eq!(session.step(LogEvent::EndOfStream), Err(UnexpectedLogEvent {}));
    assert_eq!(session.step(output(StreamKind::StdOut, "a\n")), Err(UnexpectedLogEvent {}));
    assert!(!session.is_finished());
    assert!(matches!(session.step(listed()), Ok(LogAction::OpenStream { .. })));
    assert_eq!(session.step(listed()), Err(UnexpectedLogEvent {}));
    assert_eq!(session.step(output(StreamKind::StdOut, "a\n")), Ok(LogAction::ReadChunk));
    assert_eq!(session.step(LogEvent::EndOfStream), Ok(report("web", "2024-01-01", &["a"])));
    assert_eq!(session.step(LogEvent::EndOfStream), Err(UnexpectedLogEvent {}));
}
