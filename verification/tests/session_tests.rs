use rtp_pattern_server::error::{RuntimeFailure, SessionError, TargetState};
use rtp_pattern_server::event::{SessionEvent, Termination};
use rtp_pattern_server::format::FrameFormat;
use rtp_pattern_server::generator::{FrameGenerator, PushOutcome};
use rtp_pattern_server::pipeline::{ElementKind, ResolvedGraph, SessionConfig};
use rtp_pattern_server::session::{
    Command, Ending, Progress, Report, Session, SessionOutcome, SessionState, JOIN_WAIT_INTERVALS,
    JOIN_WAIT_NANOS,
};

fn local_config() -> SessionConfig {
    SessionConfig {
        remote_host: "127.0.0.1".to_string(),
        client_rtp_port: 5000,
        client_rtcp_port: 5001,
        server_rtcp_port: 5002,
    }
}

fn complete_graph() -> ResolvedGraph {
    ResolvedGraph {
        source: Some(ElementKind::AppSource),
        rtp_sink: Some(ElementKind::UdpSink),
        rtcp_sink: Some(ElementKind::UdpSink),
        rtcp_source: Some(ElementKind::UdpSource),
    }
}

fn running_session() -> Session {
    let (session, _) = Session::start(&local_config());
    let (session, _) = session.step(Report::GraphBuilt(complete_graph()));
    let (session, _) = session.step(Report::MediaDeclared { frame_bytes: Some(307_200) });
    let (session, _) = session.step(Report::StateChanged { reached: true });
    let (session, command) = session.step(Report::GeneratorSpawned);
    assert_eq!(command, Some(Command::AwaitEvent));
    session
}

fn socket_failure() -> RuntimeFailure {
    RuntimeFailure {
        source_path: "/pipeline0/rtpudpsink".to_string(),
        message: "could not send".to_string(),
        debug_detail: Some("gstmultiudpsink.c:1".to_string()),
    }
}

fn socket_error_event() -> SessionEvent {
    SessionEvent::Error {
        source_path: "/pipeline0/rtpudpsink".to_string(),
        message: "could not send".to_string(),
        debug_detail: Some("gstmultiudpsink.c:1".to_string()),
    }
}

#[test]
fn join_wait_is_a_few_frame_intervals() {
    assert_eq!(JOIN_WAIT_INTERVALS, 4);
    assert_eq!(JOIN_WAIT_NANOS, 266_666_664);
}

#[test]
fn start_asks_for_the_graph_of_the_config() {
    let (session, command) = Session::start(&local_config());
    assert_eq!(session.state(), SessionState::Constructed);
    assert_eq!(*session.progress(), Progress::Building);
    assert!(!session.is_finished());
    match command {
        Command::BuildGraph(description) => {
            assert!(description.starts_with("rtpbin name=rtpman autoremove=true\n"));
            assert!(description.contains("udpsink name=rtpudpsink host=127.0.0.1 port=5000\n"));
            assert!(description.contains("udpsink name=rtcpudpsink host=127.0.0.1 port=5001 "));
            assert!(description.ends_with("udpsrc name=rtcpudpsrc port=5002 ! rtpman.recv_rtcp_sink_0"));
        },
        other => panic!("unexpected command {:?}", other),
    }
}

#[test]
fn session_from_start_to_normal_end() {
    let (session, _) = Session::start(&local_config());

    let (session, command) = session.step(Report::GraphBuilt(complete_graph()));
    assert_eq!(command, Some(Command::DeclareMedia(FrameFormat::standard())));
    assert_eq!(session.state(), SessionState::Constructed);

    let (session, command) = session.step(Report::MediaDeclared { frame_bytes: Some(307_200) });
    assert_eq!(command, Some(Command::SetPlaying));
    assert_eq!(session.state(), SessionState::Constructed);

    let (session, command) = session.step(Report::StateChanged { reached: true });
    assert_eq!(command, Some(Command::SpawnGenerator));
    assert_eq!(session.state(), SessionState::Playing);

    let (session, command) = session.step(Report::GeneratorSpawned);
    assert_eq!(command, Some(Command::AwaitEvent));
    assert_eq!(*session.progress(), Progress::Running);

    let mut generator = FrameGenerator::new();
    let table: [(u8, u8, u8); 3] = [(0, 0, 0), (255, 255, 255), (0, 255, 255)];
    for (index, (red, green, blue)) in table.iter().enumerate() {
        let frame = generator.poll(false).unwrap();
        assert_eq!(frame.sequence_index(), index as u64);
        assert!(frame.conforms_to(&FrameFormat::standard()));
        assert_eq!(&frame.pixel_data()[..4], &[*blue, *green, *red, 0]);
        generator.record_push(PushOutcome::Accepted);
    }

    let (session, command) = session.step(Report::Event(SessionEvent::StatusInfo));
    assert_eq!(command, Some(Command::AwaitEvent));
    assert_eq!(session.state(), SessionState::Playing);

    let (session, command) = session.step(Report::Event(SessionEvent::EndOfStream));
    assert_eq!(command, Some(Command::CancelGenerator { wait_nanos: 266_666_664 }));
    assert_eq!(*session.progress(), Progress::Cancelling(Termination::Normal));
    assert_eq!(session.state(), SessionState::Playing);

    assert!(generator.poll(true).is_none());
    assert!(generator.is_stopped());

    let (session, command) = session.step(Report::GeneratorJoined { exited: true });
    assert_eq!(command, Some(Command::SetStopped));
    assert_eq!(session.state(), SessionState::Playing);

    let (session, command) = session.step(Report::StateChanged { reached: true });
    assert_eq!(
        command,
        Some(Command::Finish(SessionOutcome::Ended {
            reason: Termination::Normal,
            generator_stuck: false,
            stop_failed: false,
        }))
    );
    assert_eq!(session.state(), SessionState::StoppedNormal);
    assert_eq!(*session.progress(), Progress::Finished(Ending::Normal));
    assert!(session.is_finished());
}

#[test]
fn missing_element_fails_the_start_and_the_graph_never_plays() {
    let (session, _) = Session::start(&local_config());
    let graph = ResolvedGraph { rtcp_source: None, ..complete_graph() };
    let (session, command) = session.step(Report::GraphBuilt(graph));
    assert_eq!(command, Some(Command::SetStopped));
    assert_eq!(session.state(), SessionState::Constructed);
    assert_eq!(
        *session.progress(),
        Progress::Releasing(SessionError::MissingElement("rtcpudpsrc".to_string()))
    );

    let (session, command) = session.step(Report::StateChanged { reached: true });
    assert_eq!(
        command,
        Some(Command::Finish(SessionOutcome::NotStarted(SessionError::MissingElement(
            "rtcpudpsrc".to_string()
        ))))
    );
    assert_eq!(session.state(), SessionState::Constructed);
    assert!(session.is_finished());

    let (session, command) = session.step(Report::StateChanged { reached: true });
    assert_eq!(command, None);
    let (session, command) = session.step(Report::GeneratorSpawned);
    assert_eq!(command, None);
    assert_eq!(session.state(), SessionState::Constructed);
    assert_eq!(*session.progress(), Progress::Finished(Ending::NeverPlayed));
}

#[test]
fn element_of_the_wrong_kind_fails_the_start() {
    let (session, _) = Session::start(&local_config());
    let graph = ResolvedGraph { source: Some(ElementKind::Other), ..complete_graph() };
    let (session, command) = session.step(Report::GraphBuilt(graph));
    assert_eq!(command, Some(Command::SetStopped));
    let (session, command) = session.step(Report::StateChanged { reached: false });
    assert_eq!(
        command,
        Some(Command::Finish(SessionOutcome::NotStarted(SessionError::MissingElement(
            "src".to_string()
        ))))
    );
    assert_eq!(session.state(), SessionState::Constructed);
}

#[test]
fn failed_build_names_the_element_the_engine_lacks() {
    let (session, _) = Session::start(&local_config());
    let (session, command) = session.step(Report::BuildFailed("x264enc".to_string()));
    assert_eq!(
        command,
        Some(Command::Finish(SessionOutcome::NotStarted(SessionError::MissingElement(
            "x264enc".to_string()
        ))))
    );
    assert_eq!(session.state(), SessionState::Constructed);
    assert!(session.is_finished());
}

#[test]
fn refused_media_description_fails_the_start() {
    let (session, _) = Session::start(&local_config());
    let (session, _) = session.step(Report::GraphBuilt(complete_graph()));
    let (session, command) = session.step(Report::MediaDeclared { frame_bytes: None });
    assert_eq!(command, Some(Command::SetStopped));
    assert_eq!(*session.progress(), Progress::Releasing(SessionError::CapsNegotiationFailure));
    let (session, command) = session.step(Report::StateChanged { reached: true });
    assert_eq!(
        command,
        Some(Command::Finish(SessionOutcome::NotStarted(SessionError::CapsNegotiationFailure)))
    );
    assert_eq!(session.state(), SessionState::Constructed);
}

#[test]
fn frame_size_that_differs_from_the_generator_fails_the_start() {
    for bytes in [0usize, 307_199, 307_201, 230_400] {
        let (session, _) = Session::start(&local_config());
        let (session, _) = session.step(Report::GraphBuilt(complete_graph()));
        let (session, command) = session.step(Report::MediaDeclared { frame_bytes: Some(bytes) });
        assert_eq!(command, Some(Command::SetStopped));
        assert_eq!(*session.progress(), Progress::Releasing(SessionError::CapsNegotiationFailure));
    }
}

#[test]
fn failure_to_play_fails_the_start() {
    let (session, _) = Session::start(&local_config());
    let (session, _) = session.step(Report::GraphBuilt(complete_graph()));
    let (session, _) = session.step(Report::MediaDeclared { frame_bytes: Some(307_200) });
    let (session, command) = session.step(Report::StateChanged { reached: false });
    assert_eq!(command, Some(Command::SetStopped));
    assert_eq!(session.state(), SessionState::Constructed);
    let (session, command) = session.step(Report::StateChanged { reached: true });
    assert_eq!(
        command,
        Some(Command::Finish(SessionOutcome::NotStarted(SessionError::StateChangeFailure(
            TargetState::Playing
        ))))
    );
    assert_eq!(session.state(), SessionState::Constructed);
    assert_eq!(*session.progress(), Progress::Finished(Ending::NeverPlayed));
}

#[test]
fn error_event_fails_the_session_once_with_its_source() {
    let session = running_session();
    let (session, command) = session.step(Report::Event(socket_error_event()));
    assert_eq!(command, Some(Command::CancelGenerator { wait_nanos: JOIN_WAIT_NANOS }));
    assert_eq!(*session.progress(), Progress::Cancelling(Termination::Failed(socket_failure())));

    let (session, command) = session.step(Report::Event(SessionEvent::EndOfStream));
    assert_eq!(command, None);
    let (session, command) = session.step(Report::Event(socket_error_event()));
    assert_eq!(command, None);
    assert_eq!(*session.progress(), Progress::Cancelling(Termination::Failed(socket_failure())));

    let (session, command) = session.step(Report::GeneratorJoined { exited: true });
    assert_eq!(command, Some(Command::SetStopped));
    let (session, command) = session.step(Report::StateChanged { reached: true });
    match command {
        Some(Command::Finish(SessionOutcome::Ended { reason, generator_stuck, stop_failed })) => {
            assert_eq!(reason, Termination::Failed(socket_failure()));
            assert!(!generator_stuck);
            assert!(!stop_failed);
        },
        other => panic!("unexpected command {:?}", other),
    }
    assert_eq!(session.state(), SessionState::StoppedError);
    assert_eq!(*session.progress(), Progress::Finished(Ending::Failed));

    let (session, command) = session.step(Report::Event(socket_error_event()));
    assert_eq!(command, None);
    assert_eq!(session.state(), SessionState::StoppedError);
}

#[test]
fn status_events_after_the_end_of_stream_change_nothing() {
    let session = running_session();
    let (session, _) = session.step(Report::Event(SessionEvent::EndOfStream));
    assert_eq!(*session.progress(), Progress::Cancelling(Termination::Normal));
    let (session, command) = session.step(Report::Event(SessionEvent::StatusInfo));
    assert_eq!(command, None);
    assert_eq!(*session.progress(), Progress::Cancelling(Termination::Normal));
    let (session, command) = session.step(Report::Event(SessionEvent::Other));
    assert_eq!(command, None);
    assert_eq!(*session.progress(), Progress::Cancelling(Termination::Normal));
    assert_eq!(session.state(), SessionState::Playing);
}

#[test]
fn status_and_other_events_keep_the_session_running() {
    let mut session = running_session();
    for _ in 0..5 {
        let (next, command) = session.step(Report::Event(SessionEvent::StatusInfo));
        assert_eq!(command, Some(Command::AwaitEvent));
        let (next, command) = next.step(Report::Event(SessionEvent::Other));
        assert_eq!(command, Some(Command::AwaitEvent));
        assert_eq!(*next.progress(), Progress::Running);
        session = next;
    }
    assert_eq!(session.state(), SessionState::Playing);
}

#[test]
fn closed_event_stream_ends_the_session_normally() {
    let session = running_session();
    let (session, command) = session.step(Report::EventsClosed);
    assert_eq!(command, Some(Command::CancelGenerator { wait_nanos: JOIN_WAIT_NANOS }));
    assert_eq!(*session.progress(), Progress::Cancelling(Termination::Normal));
}

#[test]
fn stuck_generator_and_failed_stop_are_reported() {
    let session = running_session();
    let (session, _) = session.step(Report::Event(SessionEvent::EndOfStream));
    let (session, command) = session.step(Report::GeneratorJoined { exited: false });
    assert_eq!(command, Some(Command::SetStopped));
    assert_eq!(
        *session.progress(),
        Progress::Stopping { reason: Termination::Normal, generator_stuck: true }
    );
    let (session, command) = session.step(Report::StateChanged { reached: false });
    assert_eq!(
        command,
        Some(Command::Finish(SessionOutcome::Ended {
            reason: Termination::Normal,
            generator_stuck: true,
            stop_failed: true,
        }))
    );
    assert_eq!(session.state(), SessionState::StoppedNormal);
}

#[test]
fn finished_session_ignores_every_report() {
    let session = running_session();
    let (session, _) = session.step(Report::Event(SessionEvent::EndOfStream));
    let (session, _) = session.step(Report::GeneratorJoined { exited: true });
    let (mut session, _) = session.step(Report::StateChanged { reached: true });
    assert!(session.is_finished());
    let reports = vec![
        Report::GraphBuilt(complete_graph()),
        Report::BuildFailed("src".to_string()),
        Report::MediaDeclared { frame_bytes: Some(307_200) },
        Report::StateChanged { reached: true },
        Report::GeneratorSpawned,
        Report::Event(SessionEvent::EndOfStream),
        Report::EventsClosed,
        Report::GeneratorJoined { exited: true },
    ];
    for report in reports {
        let (next, command) = session.step(report);
        assert_eq!(command, None);
        assert_eq!(next.state(), SessionState::StoppedNormal);
        assert_eq!(*next.progress(), Progress::Finished(Ending::Normal));
        session = next;
    }
}

#[test]
fn report_that_answers_no_command_changes_nothing() {
    let (session, _) = Session::start(&local_config());
    let (session, command) = session.step(Report::StateChanged { reached: true });
    assert_eq!(command, None);
    assert_eq!(*session.progress(), Progress::Building);
    let (session, command) = session.step(Report::Event(SessionEvent::EndOfStream));
    assert_eq!(command, None);
    let (session, command) = session.step(Report::GeneratorSpawned);
    assert_eq!(command, None);
    assert_eq!(*session.progress(), Progress::Building);
    assert_eq!(session.state(), SessionState::Constructed);

    let session = running_session();
    let (session, command) = session.step(Report::GeneratorJoined { exited: true });
    assert_eq!(command, None);
    let (session, command) = session.step(Report::StateChanged { reached: false });
    assert_eq!(command, None);
    assert_eq!(*session.progress(), Progress::Running);
}
