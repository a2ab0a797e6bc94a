use jsync::events::{BackupProgress, TransferOutcome};
use jsync::parser::OutputLine;
use jsync::progress::{LogRecord, ParserVariant, Stream, TransferStats};
use jsync::session::{SessionAction, SessionEvent, SessionState, TransferSession};
use jsync::signal::CancellationSignal;

fn free_text_session() -> TransferSession {
    TransferSession::new(7, "/photos/shoot", "/Volumes/Backup", "shoot", ParserVariant::FreeText)
}

fn text(line: &str) -> SessionEvent {
    SessionEvent::Output { stream: Stream::Standard, line: OutputLine::Text(line.to_string()) }
}

fn clear() -> CancellationSignal {
    CancellationSignal::new()
}

fn set() -> CancellationSignal {
    let mut signal = CancellationSignal::new();
    signal.request();
    signal
}

fn feed(session: &mut TransferSession, events: Vec<SessionEvent>) -> Vec<BackupProgress> {
    let mut published = Vec::new();
    for event in events {
        if let Some(progress) = session.step(&clear(), event) {
            published.push(progress);
        }
    }
    published
}

fn running(session: &mut TransferSession) {
    let published = feed(
        session,
        vec![
            SessionEvent::Begin,
            SessionEvent::DestinationChecked { exists: true },
            SessionEvent::SubfolderReady,
            SessionEvent::Spawned,
        ],
    );
    assert!(published.is_empty());
    assert_eq!(session.state(), SessionState::Running);
}

fn exited(success: bool, status: &str) -> SessionEvent {
    SessionEvent::Exited { success, status: status.to_string() }
}

#[test]
fn a_new_session_is_idle_and_asks_to_begin() {
    let session = free_text_session();
    assert_eq!(session.state(), SessionState::Idle);
    assert_eq!(session.destination_id(), 7);
    assert!(matches!(session.pending(), SessionAction::Begin));
    assert!(session.outcome().is_none());
}

#[test]
fn the_destination_is_checked_first() {
    let mut session = free_text_session();
    assert!(session.step(&clear(), SessionEvent::Begin).is_none());
    assert_eq!(session.state(), SessionState::DestinationCheck);
    match session.pending() {
        SessionAction::CheckDestination { path } => assert_eq!(path, "/Volumes/Backup"),
        other => panic!("unexpected action {:?}", other),
    }
}

#[test]
fn missing_destination_is_unreachable_and_nothing_is_spawned() {
    let mut session = free_text_session();
    let mut actions = Vec::new();
    for event in [SessionEvent::Begin, SessionEvent::DestinationChecked { exists: false }] {
        actions.push(session.pending());
        assert!(session.step(&clear(), event).is_none());
    }
    actions.push(session.pending());
    assert!(actions.iter().all(|action| !matches!(action, SessionAction::Spawn { .. })));
    assert_eq!(session.state(), SessionState::Unreachable);
    match session.outcome() {
        Some(TransferOutcome::DestinationUnreachable { reason }) => {
            assert_eq!(reason, "Destination not accessible: /Volumes/Backup")
        },
        other => panic!("unexpected outcome {:?}", other),
    }
    assert!(matches!(
        session.pending(),
        SessionAction::Complete { outcome: TransferOutcome::DestinationUnreachable { .. } }
    ));
}

#[test]
fn missing_destination_is_reported_even_when_cancelled() {
    let mut session = free_text_session();
    session.step(&set(), SessionEvent::Begin);
    session.step(&set(), SessionEvent::DestinationChecked { exists: false });
    assert_eq!(session.state(), SessionState::Unreachable);
}

#[test]
fn the_session_folder_is_made_below_the_destination() {
    let mut session = free_text_session();
    feed(&mut session, vec![SessionEvent::Begin, SessionEvent::DestinationChecked { exists: true }]);
    assert_eq!(session.state(), SessionState::Running);
    match session.pending() {
        SessionAction::CreateSubfolder { path } => assert_eq!(path, "/Volumes/Backup/shoot"),
        other => panic!("unexpected action {:?}", other),
    }
}

#[test]
fn a_folder_that_cannot_be_made_is_unreachable() {
    let mut session = free_text_session();
    feed(
        &mut session,
        vec![
            SessionEvent::Begin,
            SessionEvent::DestinationChecked { exists: true },
            SessionEvent::SubfolderFailed { reason: "read-only file system".to_string() },
        ],
    );
    match session.outcome() {
        Some(TransferOutcome::DestinationUnreachable { reason }) => {
            assert_eq!(reason, "Failed to create destination: read-only file system")
        },
        other => panic!("unexpected outcome {:?}", other),
    }
}

#[test]
fn the_tool_is_started_with_the_fixed_flags() {
    let mut session = free_text_session();
    feed(
        &mut session,
        vec![
            SessionEvent::Begin,
            SessionEvent::DestinationChecked { exists: true },
            SessionEvent::SubfolderReady,
        ],
    );
    match session.pending() {
        SessionAction::Spawn { arguments } => assert_eq!(
            arguments,
            vec![
                "sync",
                "/photos/shoot/",
                "/Volumes/Backup/shoot/",
                "--check-first",
                "-P",
                "--stats",
                "500ms",
                "--transfers",
                "4",
                "--checkers",
                "8",
            ]
        ),
        other => panic!("unexpected action {:?}", other),
    }
}

#[test]
fn a_tool_that_cannot_be_started_is_a_tool_failure() {
    let mut session = free_text_session();
    feed(
        &mut session,
        vec![
            SessionEvent::Begin,
            SessionEvent::DestinationChecked { exists: true },
            SessionEvent::SubfolderReady,
            SessionEvent::SpawnFailed { reason: "No such file or directory".to_string() },
        ],
    );
    assert_eq!(session.state(), SessionState::ToolFailed);
    match session.outcome() {
        Some(TransferOutcome::ToolFailure { message }) => {
            assert_eq!(message, "Failed to spawn rclone: No such file or directory")
        },
        other => panic!("unexpected outcome {:?}", other),
    }
}

#[test]
fn progress_is_published_with_the_counts_last_known() {
    let mut session = free_text_session();
    running(&mut session);
    let published = feed(
        &mut session,
        vec![
            text("Transferred:  12 / 504, 2%"),
            text("Transferred:   1.278 GiB / 2.398 GiB, 53%, 1.2 MB/s, ETA -"),
        ],
    );
    assert_eq!(published.len(), 1);
    let progress = &published[0];
    assert_eq!(progress.destination_id, 7);
    assert_eq!(progress.percent.hundredths(), 5300);
    assert_eq!(progress.transfer_rate, "1.2 MB/s");
    assert_eq!(progress.current_file, "");
    assert_eq!(progress.files_transferred, 12);
    assert_eq!(progress.total_files, 504);
}

#[test]
fn samples_that_differ_too_little_are_held_back() {
    let mut session = free_text_session();
    running(&mut session);
    let published = feed(
        &mut session,
        vec![
            text("Transferred: 1 GiB / 2 GiB, 50%"),
            text("Transferred: 1 GiB / 2 GiB, 50%"),
            text("Transferred: 2 GiB / 2 GiB, 100%"),
            text("Transferred: 2 GiB / 2 GiB, 100%"),
        ],
    );
    let percents: Vec<u32> = published.iter().map(|p| p.percent.hundredths()).collect();
    assert_eq!(percents, vec![5000, 10_000, 10_000]);
}

#[test]
fn lines_on_the_other_stream_and_noise_publish_nothing() {
    let mut session = free_text_session();
    running(&mut session);
    let published = feed(
        &mut session,
        vec![
            SessionEvent::Output {
                stream: Stream::Error,
                line: OutputLine::Text("Transferred: 1 GiB / 2 GiB, 50%".to_string()),
            },
            text("some other line"),
            SessionEvent::Tick,
            SessionEvent::ReadFailed { stream: Stream::Standard },
            SessionEvent::Spawned,
        ],
    );
    assert!(published.is_empty());
    assert_eq!(session.state(), SessionState::Running);
    assert!(matches!(
        session.pending(),
        SessionAction::AwaitOutput { standard: true, error: true }
    ));
}

#[test]
fn the_exit_is_awaited_once_both_streams_have_ended() {
    let mut session = free_text_session();
    running(&mut session);
    session.step(&clear(), SessionEvent::EndOfStream { stream: Stream::Error });
    assert!(matches!(
        session.pending(),
        SessionAction::AwaitOutput { standard: true, error: false }
    ));
    session.step(&clear(), SessionEvent::EndOfStream { stream: Stream::Error });
    assert!(matches!(
        session.pending(),
        SessionAction::AwaitOutput { standard: true, error: false }
    ));
    session.step(&clear(), SessionEvent::EndOfStream { stream: Stream::Standard });
    assert!(matches!(session.pending(), SessionAction::Wait));
    assert_eq!(session.state(), SessionState::Running);
}

#[test]
fn a_clean_exit_succeeds_with_the_file_total() {
    let mut session = free_text_session();
    running(&mut session);
    feed(
        &mut session,
        vec![
            text("Transferred:  500 / 504, 99%"),
            SessionEvent::EndOfStream { stream: Stream::Standard },
            SessionEvent::EndOfStream { stream: Stream::Error },
            exited(true, "exit status: 0"),
        ],
    );
    assert_eq!(session.state(), SessionState::Succeeded);
    match session.outcome() {
        Some(TransferOutcome::Success { files_copied, bytes_transferred }) => {
            assert_eq!(files_copied, 504);
            assert_eq!(bytes_transferred, 0);
        },
        other => panic!("unexpected outcome {:?}", other),
    }
}

#[test]
fn nonzero_exit_after_progress_is_a_tool_failure() {
    let mut session = free_text_session();
    running(&mut session);
    let published = feed(
        &mut session,
        vec![
            text("Transferred: 1 GiB / 4 GiB, 25%, 10 MiB/s, ETA 5m"),
            text("Transferred: 2 GiB / 4 GiB, 50%, 10 MiB/s, ETA 3m"),
            SessionEvent::EndOfStream { stream: Stream::Standard },
            SessionEvent::EndOfStream { stream: Stream::Error },
            exited(false, "exit status: 3"),
        ],
    );
    let percents: Vec<u32> = published.iter().map(|p| p.percent.hundredths()).collect();
    assert_eq!(percents, vec![2500, 5000]);
    assert_eq!(session.state(), SessionState::ToolFailed);
    match session.outcome() {
        Some(TransferOutcome::ToolFailure { message }) => {
            assert_eq!(message, "rclone failed with status: exit status: 3")
        },
        other => panic!("unexpected outcome {:?}", other),
    }
}

#[test]
fn a_status_that_cannot_be_had_is_a_tool_failure() {
    let mut session = free_text_session();
    running(&mut session);
    feed(
        &mut session,
        vec![
            SessionEvent::EndOfStream { stream: Stream::Standard },
            SessionEvent::EndOfStream { stream: Stream::Error },
            SessionEvent::WaitFailed { reason: "interrupted".to_string() },
        ],
    );
    match session.outcome() {
        Some(TransferOutcome::ToolFailure { message }) => {
            assert_eq!(message, "rclone wait error: interrupted")
        },
        other => panic!("unexpected outcome {:?}", other),
    }
}

#[test]
fn cancel_goes_before_pending_output() {
    let mut session = free_text_session();
    running(&mut session);
    let progress = session.step(&set(), text("Transferred: 1 GiB / 2 GiB, 50%"));
    assert!(progress.is_none());
    assert!(matches!(session.pending(), SessionAction::Terminate));
    assert_eq!(session.state(), SessionState::Running);
    assert!(session.step(&clear(), text("Transferred: 2 GiB / 2 GiB, 100%")).is_none());
    assert!(matches!(session.pending(), SessionAction::Terminate));
    session.step(&clear(), SessionEvent::Terminated);
    assert!(matches!(session.pending(), SessionAction::Wait));
    session.step(&clear(), exited(true, "exit status: 0"));
    assert_eq!(session.state(), SessionState::Cancelled);
    assert!(matches!(session.outcome(), Some(TransferOutcome::Cancelled)));
}

#[test]
fn cancel_is_seen_on_a_tick_while_the_tool_is_silent() {
    let mut session = free_text_session();
    running(&mut session);
    assert!(session.step(&clear(), SessionEvent::Tick).is_none());
    assert!(matches!(session.pending(), SessionAction::AwaitOutput { .. }));
    assert!(session.step(&set(), SessionEvent::Tick).is_none());
    assert!(matches!(session.pending(), SessionAction::Terminate));
}

#[test]
fn cancel_is_seen_as_soon_as_the_tool_runs() {
    let mut session = free_text_session();
    session.step(&set(), SessionEvent::Begin);
    session.step(&set(), SessionEvent::DestinationChecked { exists: true });
    session.step(&set(), SessionEvent::SubfolderReady);
    assert!(matches!(session.pending(), SessionAction::Spawn { .. }));
    session.step(&set(), SessionEvent::Spawned);
    assert!(matches!(session.pending(), SessionAction::Terminate));
    session.step(&set(), SessionEvent::Terminated);
    session.step(&set(), SessionEvent::WaitFailed { reason: "gone".to_string() });
    assert_eq!(session.state(), SessionState::Cancelled);
}

#[test]
fn an_ended_session_stays_as_it_is() {
    let mut session = free_text_session();
    session.step(&clear(), SessionEvent::Begin);
    session.step(&clear(), SessionEvent::DestinationChecked { exists: false });
    for event in [
        SessionEvent::Begin,
        SessionEvent::DestinationChecked { exists: true },
        SessionEvent::SubfolderReady,
        SessionEvent::Spawned,
        text("Transferred: 1 GiB / 2 GiB, 50%"),
        exited(true, "exit status: 0"),
    ] {
        assert!(session.step(&clear(), event).is_none());
        assert_eq!(session.state(), SessionState::Unreachable);
    }
}

#[test]
fn events_out_of_turn_change_nothing() {
    let mut session = free_text_session();
    for event in [
        SessionEvent::DestinationChecked { exists: true },
        SessionEvent::Spawned,
        exited(true, "exit status: 0"),
        SessionEvent::Tick,
    ] {
        assert!(session.step(&clear(), event).is_none());
        assert_eq!(session.state(), SessionState::Idle);
    }
    session.step(&clear(), SessionEvent::Begin);
    session.step(&clear(), SessionEvent::Spawned);
    assert_eq!(session.state(), SessionState::DestinationCheck);
}

#[test]
fn the_structured_log_is_read_from_the_error_stream() {
    let mut session =
        TransferSession::new(9, "/src", "/dst", "name", ParserVariant::StructuredLog);
    running(&mut session);
    let record = |bytes: u64| SessionEvent::Output {
        stream: Stream::Error,
        line: OutputLine::Record(
            LogRecord::Stats(
                TransferStats {
                    bytes,
                    total_bytes: 4096,
                    transfers: 1,
                    total_transfers: 2,
                    checks: 0,
                    total_checks: 0,
                    speed: 2048,
                },
            ),
        ),
    };
    let published = feed(
        &mut session,
        vec![
            record(1024),
            record(1044),
            record(2048),
            SessionEvent::Output {
                stream: Stream::Error,
                line: OutputLine::Record(LogRecord::Message("Copied (new)".to_string())),
            },
            SessionEvent::Output {
                stream: Stream::Standard,
                line: OutputLine::Record(
                    LogRecord::Stats(
                        TransferStats {
                            bytes: 4096,
                            total_bytes: 4096,
                            transfers: 2,
                            total_transfers: 2,
                            checks: 0,
                            total_checks: 0,
                            speed: 0,
                        },
                    ),
                ),
            },
        ],
    );
    let percents: Vec<u32> = published.iter().map(|p| p.percent.hundredths()).collect();
    assert_eq!(percents, vec![2500, 5000]);
    assert_eq!(published[0].transfer_rate, "2.00 KB/s");
    assert_eq!(published[0].files_transferred, 1);
    assert_eq!(published[0].total_files, 2);
    feed(
        &mut session,
        vec![
            SessionEvent::EndOfStream { stream: Stream::Standard },
            SessionEvent::EndOfStream { stream: Stream::Error },
            exited(true, "exit status: 0"),
        ],
    );
    match session.outcome() {
        Some(TransferOutcome::Success { files_copied, bytes_transferred }) => {
            assert_eq!(files_copied, 2);
            assert_eq!(bytes_transferred, 2048);
        },
        other => panic!("unexpected outcome {:?}", other),
    }
    match TransferSession::new(9, "/src", "/dst", "name", ParserVariant::StructuredLog).pending() {
        SessionAction::Begin => {},
        other => panic!("unexpected action {:?}", other),
    }
}

#[test]
fn the_structured_log_is_asked_for_by_its_flags() {
    let mut session =
        TransferSession::new(9, "/src//", "/dst/", "name", ParserVariant::StructuredLog);
    feed(
        &mut session,
        vec![
            SessionEvent::Begin,
            SessionEvent::DestinationChecked { exists: true },
            SessionEvent::SubfolderReady,
        ],
    );
    match session.pending() {
        SessionAction::Spawn { arguments } => assert_eq!(
            arguments,
            vec![
                "sync",
                "/src/",
                "/dst/name/",
                "--check-first",
                "--use-json-log",
                "--stats-log-level",
                "NOTICE",
                "--stats",
                "500ms",
                "--transfers",
                "4",
                "--checkers",
                "8",
            ]
        ),
        other => panic!("unexpected action {:?}", other),
    }
}
