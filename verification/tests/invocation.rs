use std::collections::HashSet;

use opentelemetry::trace::{
    SpanContext, SpanId, TraceContextExt, TraceFlags, TraceId, TraceState,
};
use worker_core::error::{EncodingError, InvocationTaskError};
use worker_core::identifiers::{LeaderEpoch, PartitionId};
use worker_core::invocation_task::{suspended_on, InvocationTask};
use worker_core::protocol::{
    copy_bytes, MessageType, ProtocolMessage, ServiceId, ServiceInvocationId,
};
use worker_core::request::{
    append_path, prepare_request, request_head, request_uri, validate_response, DeliveryOptions,
    EndpointAddress, EndpointMetadata, HttpMethod, HttpVersion, JournalMetadata, ProtocolType,
    RequestHead,
};
use worker_core::task::{
    InvocationTaskOutputInner, InvokeInputJournal, TaskAction, TaskEvent, TaskPhase,
    TerminalLoopState,
};
use worker_core::transport::{h2_reason, reason_of, TransportError};

type Message = ProtocolMessage<&'static str, u32>;
type Action = TaskAction<&'static str, u32>;
type Occurrence = TaskEvent<&'static str, u32>;

fn sid() -> ServiceInvocationId {
    ServiceInvocationId {
        service_id: ServiceId { service_name: "Greeter".to_string(), key: vec![7, 8] },
        invocation_id: vec![1, 2, 3, 4],
    }
}

fn endpoint(protocol_type: ProtocolType, path: &str) -> EndpointMetadata {
    EndpointMetadata {
        address: EndpointAddress {
            scheme: "http".to_string(),
            authority: "localhost:9080".to_string(),
            path: path.to_string(),
        },
        protocol_type,
        delivery_options: DeliveryOptions {
            additional_headers: vec![
                ("x-tenant".to_string(), "blue".to_string()),
                ("x-tenant".to_string(), "green".to_string()),
            ],
        },
    }
}

fn journal(journal_size: u32) -> JournalMetadata {
    JournalMetadata {
        method: "greet".to_string(),
        tracing_context: opentelemetry::Context::new(),
        journal_size,
    }
}

fn traced_journal(journal_size: u32) -> JournalMetadata {
    let span = SpanContext::new(
        TraceId::from_hex("4bf92f3577b34da6a3ce929d0e0e4736").unwrap(),
        SpanId::from_hex("00f067aa0ba902b7").unwrap(),
        TraceFlags::SAMPLED,
        true,
        TraceState::default(),
    );
    JournalMetadata {
        method: "greet".to_string(),
        tracing_context: opentelemetry::Context::new().with_remote_span_context(span),
        journal_size,
    }
}

fn task(has_completions: bool) -> InvocationTask {
    InvocationTask::new(
        (PartitionId(3), LeaderEpoch(9)),
        sid(),
        1,
        endpoint(ProtocolType::BidiStream, "/base/"),
        has_completions,
    )
}

fn expected_head() -> RequestHead {
    RequestHead {
        method: HttpMethod::Post,
        uri: "http://localhost:9080/base/Greeter/greet".to_string(),
        version: HttpVersion::Http2,
        headers: vec![
            ("content-type".to_string(), "application/restate".to_string()),
            ("x-tenant".to_string(), "blue".to_string()),
            ("x-tenant".to_string(), "green".to_string()),
        ],
    }
}

fn start_message(known_entries: u32) -> Message {
    ProtocolMessage::Start {
        invocation_id: vec![1, 2, 3, 4],
        instance_key: vec![7, 8],
        known_entries,
    }
}

fn ok_head() -> Occurrence {
    TaskEvent::ResponseHead { status: 200, content_type: Some("application/restate".to_string()) }
}

fn transport(h2_reason: u32, closed: bool) -> TransportError {
    TransportError { h2_reason, closed, message: "broken".to_string() }
}

/// A task that has replayed a journal of two entries and got a valid
/// answer.
fn streaming(has_completions: bool) -> InvocationTask {
    let mut task = task(has_completions);
    let invoked: Occurrence =
        TaskEvent::Invoked(InvokeInputJournal::CachedJournal(journal(2), vec!["e0", "e1"]));
    task.run(invoked);
    assert_eq!(task.run(ok_head()), Vec::<Action>::new());
    task
}

fn all_events() -> Vec<Occurrence> {
    vec![
        TaskEvent::Invoked(InvokeInputJournal::NoCachedJournal),
        TaskEvent::Invoked(InvokeInputJournal::CachedJournal(journal(0), vec![])),
        TaskEvent::JournalRead(Err("gone".to_string())),
        TaskEvent::JournalRead(Ok((journal(0), vec![]))),
        ok_head(),
        TaskEvent::RequestFailed(transport(0, false)),
        TaskEvent::RequestLost("panicked".to_string()),
        TaskEvent::WriteFailed(transport(2, true)),
        TaskEvent::Completion(1),
        TaskEvent::CompletionsClosed,
        TaskEvent::ResponseData { messages: vec![], failure: None },
        TaskEvent::ResponseFailed(transport(0, false)),
        TaskEvent::ResponseEnded,
        TaskEvent::Failed(InvocationTaskError::Other("lost".to_string())),
    ]
}

#[test]
fn path_is_appended_after_one_slash() {
    assert_eq!(append_path("/base/", &["Greeter", "greet"]), "/base/Greeter/greet");
    assert_eq!(append_path("/base", &["Greeter", "greet"]), "/base/Greeter/greet");
    assert_eq!(append_path("/", &["Greeter", "greet"]), "/Greeter/greet");
    assert_eq!(append_path("", &["Greeter", "greet"]), "/Greeter/greet");
    assert_eq!(append_path("/a//", &["b"]), "/a//b");
    assert_eq!(append_path("/a", &[]), "/a/");
    assert_eq!(append_path("/a", &["b", "", "c"]), "/a/b//c");
    assert_eq!(append_path("/ü/", &["ß"]), "/ü/ß");
}

#[test]
fn request_uri_is_built_from_the_parts() {
    let address = endpoint(ProtocolType::BidiStream, "/base/").address;
    assert_eq!(
        request_uri(&address, "Greeter", "greet"),
        Some("http://localhost:9080/base/Greeter/greet".to_string())
    );
    let root = endpoint(ProtocolType::BidiStream, "").address;
    assert_eq!(
        request_uri(&root, "Greeter", "greet"),
        Some("http://localhost:9080/Greeter/greet".to_string())
    );
}

#[test]
fn request_uri_refuses_what_is_no_address() {
    let address = endpoint(ProtocolType::BidiStream, "/base/").address;
    assert_eq!(request_uri(&address, "Gree ter", "greet"), None);
    let mut no_scheme = endpoint(ProtocolType::BidiStream, "/").address;
    no_scheme.scheme = "ht tp".to_string();
    assert_eq!(request_uri(&no_scheme, "Greeter", "greet"), None);
    let mut no_authority = endpoint(ProtocolType::BidiStream, "/").address;
    no_authority.authority = "local host".to_string();
    assert_eq!(request_uri(&no_authority, "Greeter", "greet"), None);
}

#[test]
fn request_head_lists_content_type_trace_and_additional_headers() {
    let trace = vec![("traceparent".to_string(), "00-aa-bb-01".to_string())];
    let additional = vec![("x-a".to_string(), "1".to_string())];
    let uri = || "http://h/p".to_string();
    let head = request_head(uri(), ProtocolType::BidiStream, &trace, &additional);
    assert_eq!(
        head,
        RequestHead {
            method: HttpMethod::Post,
            uri: "http://h/p".to_string(),
            version: HttpVersion::Http2,
            headers: vec![
                ("content-type".to_string(), "application/restate".to_string()),
                ("traceparent".to_string(), "00-aa-bb-01".to_string()),
                ("x-a".to_string(), "1".to_string()),
            ],
        }
    );
    let head = request_head(uri(), ProtocolType::RequestResponse, &vec![], &vec![]);
    assert_eq!(head.version, HttpVersion::Negotiated);
    assert_eq!(
        head.headers,
        vec![("content-type".to_string(), "application/restate".to_string())]
    );
}

#[test]
fn prepared_request_carries_no_trace_headers_without_a_span() {
    let bidi = endpoint(ProtocolType::BidiStream, "/base/");
    let head = prepare_request(&bidi, "Greeter", &journal(0));
    assert_eq!(head, Some(expected_head()));
    let head =
        prepare_request(&endpoint(ProtocolType::RequestResponse, "/base"), "Greeter", &journal(0))
            .unwrap();
    assert_eq!(head.version, HttpVersion::Negotiated);
    assert_eq!(head.uri, "http://localhost:9080/base/Greeter/greet");
}

#[test]
fn prepared_request_carries_the_trace_context() {
    let head = prepare_request(
        &endpoint(ProtocolType::BidiStream, "/base/"),
        "Greeter",
        &traced_journal(0),
    )
    .unwrap();
    assert_eq!(head.headers.first(), expected_head().headers.first());
    assert_eq!(head.headers[head.headers.len() - 2..], expected_head().headers[1..]);
    let trace = &head.headers[1..head.headers.len() - 2];
    assert!(trace.contains(&(
        "traceparent".to_string(),
        "00-4bf92f3577b34da6a3ce929d0e0e4736-00f067aa0ba902b7-01".to_string()
    )));
    assert!(trace.iter().all(|(name, _)| name == "traceparent" || name == "tracestate"));
}

#[test]
fn prepared_request_is_nothing_without_an_address() {
    assert_eq!(
        prepare_request(&endpoint(ProtocolType::BidiStream, "/base/"), "Gree ter", &journal(0)),
        None
    );
}

#[test]
fn response_is_valid_with_success_status_and_protocol_content_type() {
    let protocol = || Some("application/restate".to_string());
    assert_eq!(validate_response(200, protocol()), Ok(()));
    assert_eq!(validate_response(204, protocol()), Ok(()));
    assert_eq!(validate_response(299, protocol()), Ok(()));
    assert_eq!(
        validate_response(199, protocol()),
        Err(InvocationTaskError::UnexpectedResponse(199))
    );
    assert_eq!(
        validate_response(300, protocol()),
        Err(InvocationTaskError::UnexpectedResponse(300))
    );
    assert_eq!(validate_response(500, None), Err(InvocationTaskError::UnexpectedResponse(500)));
    assert_eq!(
        validate_response(200, None),
        Err(InvocationTaskError::UnexpectedContentType(None))
    );
    assert_eq!(
        validate_response(200, Some("application/json".to_string())),
        Err(InvocationTaskError::UnexpectedContentType(Some("application/json".to_string())))
    );
    assert_eq!(
        validate_response(200, Some("Application/Restate".to_string())),
        Err(InvocationTaskError::UnexpectedContentType(Some("Application/Restate".to_string())))
    );
}

#[test]
fn h2_reason_is_the_peer_code_or_an_internal_error() {
    assert_eq!(h2_reason(None), 2);
    let graceful = h2::Error::from(h2::Reason::NO_ERROR);
    assert_eq!(h2_reason(Some(&graceful)), 0);
    let cancelled = h2::Error::from(h2::Reason::CANCEL);
    assert_eq!(h2_reason(Some(&cancelled)), 8);
    assert_eq!(reason_of(None), 2);
    assert_eq!(reason_of(Some(0)), 0);
    assert_eq!(reason_of(Some(11)), 11);
}

#[test]
fn transport_error_is_graceful_only_without_an_error_code() {
    assert!(transport(0, false).is_graceful());
    assert!(!transport(2, false).is_graceful());
    assert!(!transport(8, true).is_graceful());
    assert!(transport(8, true).is_closed());
    assert!(!transport(0, false).is_closed());
}

#[test]
fn terminal_state_of_results_and_broken_connections() {
    assert_eq!(TerminalLoopState::from_result(Ok(5)), TerminalLoopState::Continue(5));
    assert_eq!(
        TerminalLoopState::<u8>::from_result(Err(InvocationTaskError::UnexpectedResponse(404))),
        TerminalLoopState::Failed(InvocationTaskError::UnexpectedResponse(404))
    );
    assert_eq!(
        TerminalLoopState::<()>::from_transport_error(transport(0, false)),
        TerminalLoopState::Closed
    );
    assert_eq!(
        TerminalLoopState::<()>::from_transport_error(transport(2, false)),
        TerminalLoopState::Failed(InvocationTaskError::Network(transport(2, false)))
    );
}

#[test]
fn last_report_of_a_terminal_state() {
    type Output = InvocationTaskOutputInner<&'static str>;
    assert_eq!(Output::from_terminal(TerminalLoopState::Closed), Output::Closed);
    assert_eq!(
        Output::from_terminal(TerminalLoopState::Suspended(HashSet::from([1, 2]))),
        Output::Suspended(HashSet::from([1, 2]))
    );
    assert_eq!(
        Output::from_terminal(TerminalLoopState::Failed(InvocationTaskError::Other("x".into()))),
        Output::Failed(InvocationTaskError::Other("x".into()))
    );
    assert_eq!(
        Output::from_error(InvocationTaskError::JournalReader("x".into())),
        Output::Failed(InvocationTaskError::JournalReader("x".into()))
    );
}

#[test]
fn failed_write_matters_unless_the_channel_was_closed() {
    assert_eq!(InvocationTask::write(transport(2, true)), Ok(()));
    assert_eq!(
        InvocationTask::write(transport(2, false)),
        Err(InvocationTaskError::Network(transport(2, false)))
    );
}

#[test]
fn suspension_names_a_set_of_entries() {
    assert_eq!(suspended_on(vec![3]), HashSet::from([3]));
    assert_eq!(suspended_on(vec![3, 1, 3, 2, 1]), HashSet::from([1, 2, 3]));
    assert_eq!(suspended_on(vec![]), HashSet::new());
}

#[test]
fn bytes_and_names_are_copied() {
    assert_eq!(copy_bytes(&vec![1, 2, 3]), vec![1, 2, 3]);
    assert_eq!(copy_bytes(&vec![]), Vec::<u8>::new());
    assert_eq!(sid().duplicate(), sid());
    assert_eq!(Message::new_start_message(&sid(), 5), start_message(5));
    assert_eq!(start_message(5).message_type(), MessageType::Start);
    assert_eq!(Message::Completion(1).message_type(), MessageType::Completion);
    assert_eq!(
        Message::Suspension { entry_indexes: vec![] }.message_type(),
        MessageType::Suspension
    );
    assert_eq!(Message::UnparsedEntry("e").message_type(), MessageType::Entry);
}

#[test]
fn new_task_waits_to_be_invoked() {
    let task = task(true);
    assert_eq!(task.phase(), TaskPhase::Created);
    assert_eq!(task.next_journal_index(), 0);
    assert_eq!(task.protocol_version(), 1);
    let output = task.output(InvocationTaskOutputInner::<&'static str>::Closed);
    assert_eq!(output.partition, (PartitionId(3), LeaderEpoch(9)));
    assert_eq!(output.service_invocation_id, sid());
    assert_eq!(output.inner, InvocationTaskOutputInner::Closed);
    assert_eq!(task.write_start::<&'static str, u32>(&journal(4)), start_message(4));
    assert_eq!(task.prepare_request(&journal(4)), Some(expected_head()));
}

#[test]
fn replay_then_suspend() {
    let mut task = task(true);
    let invoked: Occurrence =
        TaskEvent::Invoked(InvokeInputJournal::CachedJournal(journal(2), vec!["e0", "e1"]));
    assert!(task.ready_for(&invoked));
    assert_eq!(
        task.run(invoked),
        vec![
            TaskAction::OpenRequest(expected_head()),
            TaskAction::Send(start_message(2)),
            TaskAction::Send(ProtocolMessage::UnparsedEntry("e0")),
            TaskAction::Send(ProtocolMessage::UnparsedEntry("e1")),
        ]
    );
    assert_eq!(task.phase(), TaskPhase::Replaying);
    assert_eq!(task.next_journal_index(), 2);

    assert_eq!(task.run(ok_head()), Vec::<Action>::new());
    assert_eq!(task.phase(), TaskPhase::Streaming { bidi: true });
    assert_eq!(task.next_journal_index(), 2);

    let data: Occurrence = TaskEvent::ResponseData {
        messages: vec![
            ProtocolMessage::UnparsedEntry("new"),
            ProtocolMessage::Suspension { entry_indexes: vec![3] },
        ],
        failure: None,
    };
    assert_eq!(
        task.run(data),
        vec![
            TaskAction::Emit(InvocationTaskOutputInner::NewEntry {
                entry_index: 2,
                raw_entry: "new",
            }),
            TaskAction::Emit(InvocationTaskOutputInner::Suspended(HashSet::from([3]))),
        ]
    );
    assert_eq!(task.phase(), TaskPhase::Terminated);
    assert_eq!(task.next_journal_index(), 3);
    for event in all_events() {
        assert!(!task.ready_for(&event));
        assert_eq!(task.offer(event), None);
    }
    assert_eq!(task.phase(), TaskPhase::Terminated);
}

#[test]
fn journal_is_read_when_none_is_cached() {
    let mut task = task(false);
    let invoked: Occurrence = TaskEvent::Invoked(InvokeInputJournal::NoCachedJournal);
    assert_eq!(task.run(invoked), vec![TaskAction::ReadJournal]);
    assert_eq!(task.phase(), TaskPhase::ReadingJournal);
    let read: Occurrence = TaskEvent::JournalRead(Ok((journal(1), vec!["e0"])));
    assert_eq!(
        task.run(read),
        vec![
            TaskAction::OpenRequest(expected_head()),
            TaskAction::Send(start_message(1)),
            TaskAction::Send(ProtocolMessage::UnparsedEntry("e0")),
        ]
    );
    assert_eq!(task.phase(), TaskPhase::Replaying);
    assert_eq!(task.next_journal_index(), 1);
    assert_eq!(task.run(ok_head()), Vec::<Action>::new());
    assert_eq!(task.phase(), TaskPhase::Streaming { bidi: false });
}

#[test]
fn empty_journal_replays_nothing() {
    let mut task = task(false);
    let invoked: Occurrence =
        TaskEvent::Invoked(InvokeInputJournal::CachedJournal(journal(0), vec![]));
    assert_eq!(
        task.run(invoked),
        vec![TaskAction::OpenRequest(expected_head()), TaskAction::Send(start_message(0))]
    );
    assert_eq!(task.next_journal_index(), 0);
}

#[test]
fn unreadable_journal_fails_the_task() {
    let mut task = task(false);
    task.run(TaskEvent::<&'static str, u32>::Invoked(InvokeInputJournal::NoCachedJournal));
    let read: Occurrence = TaskEvent::JournalRead(Err("no such journal".to_string()));
    assert_eq!(
        task.run(read),
        vec![TaskAction::Emit(InvocationTaskOutputInner::Failed(
            InvocationTaskError::JournalReader("no such journal".to_string())
        ))]
    );
    assert_eq!(task.phase(), TaskPhase::Terminated);
}

#[test]
fn task_refuses_a_journal_it_cannot_replay() {
    let mut task = task(false);
    let short: Occurrence =
        TaskEvent::Invoked(InvokeInputJournal::CachedJournal(journal(2), vec!["e0"]));
    assert!(!task.ready_for(&short));
    assert_eq!(task.offer(short), None);
    assert_eq!(task.phase(), TaskPhase::Created);

    let mut metadata = journal(1);
    metadata.method = "gr eet".to_string();
    let no_address: Occurrence =
        TaskEvent::Invoked(InvokeInputJournal::CachedJournal(metadata, vec!["e0"]));
    assert_eq!(task.offer(no_address), None);
    assert_eq!(task.next_journal_index(), 0);

    let fine: Occurrence =
        TaskEvent::Invoked(InvokeInputJournal::CachedJournal(journal(1), vec!["e0"]));
    assert_eq!(task.offer(fine).map(|actions| actions.len()), Some(3));
    assert_eq!(task.phase(), TaskPhase::Replaying);
}

#[test]
fn invalid_answer_fails_the_task() {
    let cases: Vec<(Occurrence, InvocationTaskError)> = vec![
        (
            TaskEvent::ResponseHead { status: 404, content_type: None },
            InvocationTaskError::UnexpectedResponse(404),
        ),
        (
            TaskEvent::ResponseHead { status: 200, content_type: Some("text/plain".into()) },
            InvocationTaskError::UnexpectedContentType(Some("text/plain".into())),
        ),
        (
            TaskEvent::ResponseHead { status: 200, content_type: None },
            InvocationTaskError::UnexpectedContentType(None),
        ),
        (
            TaskEvent::RequestFailed(transport(2, false)),
            InvocationTaskError::Network(transport(2, false)),
        ),
        (
            TaskEvent::RequestLost("panicked".into()),
            InvocationTaskError::UnexpectedJoinError("panicked".into()),
        ),
        (
            TaskEvent::WriteFailed(transport(2, false)),
            InvocationTaskError::Network(transport(2, false)),
        ),
    ];
    for (event, error) in cases {
        let mut task = task(true);
        task.run(TaskEvent::<&'static str, u32>::Invoked(InvokeInputJournal::CachedJournal(
            journal(0),
            vec![],
        )));
        assert_eq!(
            task.run(event),
            vec![TaskAction::Emit(InvocationTaskOutputInner::Failed(error))]
        );
        assert_eq!(task.phase(), TaskPhase::Terminated);
    }
}

#[test]
fn graceful_shutdown_closes_the_task() {
    let mut task = task(true);
    task.run(TaskEvent::<&'static str, u32>::Invoked(InvokeInputJournal::CachedJournal(
        journal(0),
        vec![],
    )));
    let event: Occurrence = TaskEvent::RequestFailed(transport(0, false));
    assert_eq!(task.run(event), vec![TaskAction::Emit(InvocationTaskOutputInner::Closed)]);
    assert_eq!(task.phase(), TaskPhase::Terminated);

    let mut task = streaming(false);
    let event: Occurrence = TaskEvent::ResponseFailed(transport(0, false));
    assert_eq!(task.run(event), vec![TaskAction::Emit(InvocationTaskOutputInner::Closed)]);

    let mut task = streaming(false);
    let event: Occurrence = TaskEvent::ResponseFailed(transport(7, false));
    assert_eq!(
        task.run(event),
        vec![TaskAction::Emit(InvocationTaskOutputInner::Failed(InvocationTaskError::Network(
            transport(7, false)
        )))]
    );
}

#[test]
fn write_on_a_closed_channel_is_ignored() {
    let mut task = streaming(true);
    let event: Occurrence = TaskEvent::WriteFailed(transport(2, true));
    assert_eq!(task.run(event), Vec::<Action>::new());
    assert_eq!(task.phase(), TaskPhase::Streaming { bidi: true });
}

#[test]
fn end_of_response_closes_the_task() {
    let mut task = streaming(true);
    let event: Occurrence = TaskEvent::ResponseEnded;
    assert_eq!(task.run(event), vec![TaskAction::Emit(InvocationTaskOutputInner::Closed)]);
    assert_eq!(task.phase(), TaskPhase::Terminated);
}

#[test]
fn completions_are_forwarded_until_the_invoker_closes() {
    let mut task = streaming(true);
    let event: Occurrence = TaskEvent::Completion(11);
    assert_eq!(task.run(event), vec![TaskAction::Send(ProtocolMessage::Completion(11))]);
    let event: Occurrence = TaskEvent::CompletionsClosed;
    assert_eq!(task.run(event), Vec::<Action>::new());
    assert_eq!(task.phase(), TaskPhase::Streaming { bidi: false });
    let event: Occurrence = TaskEvent::Completion(12);
    assert!(!task.ready_for(&event));
    let data: Occurrence = TaskEvent::ResponseData {
        messages: vec![ProtocolMessage::UnparsedEntry("late")],
        failure: None,
    };
    assert_eq!(
        task.run(data),
        vec![TaskAction::Emit(InvocationTaskOutputInner::NewEntry {
            entry_index: 2,
            raw_entry: "late"
        })]
    );
    assert_eq!(task.phase(), TaskPhase::Streaming { bidi: false });
}

#[test]
fn failure_of_the_caller_fails_the_task() {
    let failure = || InvocationTaskError::Other("could not encode".to_string());
    let failed = |task: &mut InvocationTask| {
        let event: Occurrence = TaskEvent::Failed(failure());
        assert_eq!(
            task.run(event),
            vec![TaskAction::Emit(InvocationTaskOutputInner::Failed(failure()))]
        );
        assert_eq!(task.phase(), TaskPhase::Terminated);
    };
    failed(&mut task(true));
    failed(&mut streaming(true));
    failed(&mut streaming(false));
    let mut reading = task(false);
    reading.run(TaskEvent::<&'static str, u32>::Invoked(InvokeInputJournal::NoCachedJournal));
    failed(&mut reading);
    let mut replaying = task(false);
    replaying.run(TaskEvent::<&'static str, u32>::Invoked(InvokeInputJournal::CachedJournal(
        journal(0),
        vec![],
    )));
    failed(&mut replaying);
}

#[test]
fn task_without_completions_only_reads() {
    let task = streaming(false);
    assert_eq!(task.phase(), TaskPhase::Streaming { bidi: false });
    let event: Occurrence = TaskEvent::Completion(1);
    assert!(!task.ready_for(&event));
    let event: Occurrence = TaskEvent::CompletionsClosed;
    assert!(!task.ready_for(&event));
}

#[test]
fn entries_are_numbered_from_the_journal_size() {
    let mut task = streaming(false);
    let data = |names: Vec<&'static str>| -> Occurrence {
        TaskEvent::ResponseData {
            messages: names.into_iter().map(ProtocolMessage::UnparsedEntry).collect(),
            failure: None,
        }
    };
    let entry = |entry_index, raw_entry| -> Action {
        TaskAction::Emit(InvocationTaskOutputInner::NewEntry { entry_index, raw_entry })
    };
    assert_eq!(task.run(data(vec!["a", "b"])), vec![entry(2, "a"), entry(3, "b")]);
    assert_eq!(task.run(data(vec![])), Vec::<Action>::new());
    assert_eq!(task.run(data(vec!["c"])), vec![entry(4, "c")]);
    assert_eq!(task.next_journal_index(), 5);
    assert_eq!(task.phase(), TaskPhase::Streaming { bidi: false });
}

#[test]
fn messages_of_the_task_are_unexpected_from_the_endpoint() {
    let cases: Vec<(Message, MessageType)> = vec![
        (start_message(0), MessageType::Start),
        (ProtocolMessage::Completion(4), MessageType::Completion),
    ];
    for (message, kind) in cases {
        let mut task = streaming(true);
        let data: Occurrence = TaskEvent::ResponseData {
            messages: vec![
                ProtocolMessage::UnparsedEntry("kept"),
                message,
                ProtocolMessage::UnparsedEntry("never read"),
            ],
            failure: Some(EncodingError("never reached".to_string())),
        };
        assert_eq!(
            task.run(data),
            vec![
                TaskAction::Emit(InvocationTaskOutputInner::NewEntry {
                    entry_index: 2,
                    raw_entry: "kept"
                }),
                TaskAction::Emit(InvocationTaskOutputInner::Failed(
                    InvocationTaskError::UnexpectedMessage(kind)
                )),
            ]
        );
        assert_eq!(task.next_journal_index(), 3);
        assert_eq!(task.phase(), TaskPhase::Terminated);
    }
}

#[test]
fn undecodable_data_fails_the_task_after_its_messages() {
    let mut task = streaming(false);
    let data: Occurrence = TaskEvent::ResponseData {
        messages: vec![ProtocolMessage::UnparsedEntry("kept")],
        failure: Some(EncodingError("bad frame".to_string())),
    };
    assert_eq!(
        task.run(data),
        vec![
            TaskAction::Emit(InvocationTaskOutputInner::NewEntry {
                entry_index: 2,
                raw_entry: "kept"
            }),
            TaskAction::Emit(InvocationTaskOutputInner::Failed(InvocationTaskError::Encoding(
                EncodingError("bad frame".to_string())
            ))),
        ]
    );
    assert_eq!(task.phase(), TaskPhase::Terminated);
}

#[test]
fn handle_message_and_handle_read_report_into_the_actions() {
    let mut task = streaming(false);
    let mut actions: Vec<Action> = Vec::new();
    assert_eq!(
        task.handle_message(ProtocolMessage::UnparsedEntry("a"), &mut actions),
        TerminalLoopState::Continue(())
    );
    assert_eq!(
        task.handle_message(
            ProtocolMessage::Suspension { entry_indexes: vec![1, 1] },
            &mut actions
        ),
        TerminalLoopState::Suspended(HashSet::from([1]))
    );
    assert_eq!(
        task.handle_read(
            vec![ProtocolMessage::UnparsedEntry("b"), ProtocolMessage::Completion(0)],
            None,
            &mut actions
        ),
        TerminalLoopState::Failed(InvocationTaskError::UnexpectedMessage(MessageType::Completion))
    );
    assert_eq!(
        task.handle_read(vec![], Some(EncodingError("x".into())), &mut actions),
        TerminalLoopState::Failed(InvocationTaskError::Encoding(EncodingError("x".into())))
    );
    assert_eq!(task.handle_read(vec![], None, &mut actions), TerminalLoopState::Continue(()));
    assert_eq!(
        actions,
        vec![
            TaskAction::Emit(InvocationTaskOutputInner::NewEntry {
                entry_index: 2,
                raw_entry: "a"
            }),
            TaskAction::Emit(InvocationTaskOutputInner::NewEntry {
                entry_index: 3,
                raw_entry: "b"
            }),
        ]
    );
    assert_eq!(task.next_journal_index(), 4);
}

#[test]
fn every_task_makes_exactly_one_last_report() {
    let endings: Vec<Vec<Occurrence>> = vec![
        vec![TaskEvent::ResponseEnded],
        vec![TaskEvent::Completion(1), TaskEvent::CompletionsClosed, TaskEvent::ResponseEnded],
        vec![
            TaskEvent::ResponseData {
                messages: vec![ProtocolMessage::UnparsedEntry("a")],
                failure: None,
            },
            TaskEvent::ResponseData {
                messages: vec![ProtocolMessage::Suspension { entry_indexes: vec![2] }],
                failure: None,
            },
        ],
        vec![
            TaskEvent::WriteFailed(transport(2, true)),
            TaskEvent::ResponseFailed(transport(1, false)),
        ],
    ];
    for ending in endings {
        let mut task = streaming(true);
        let mut last_reports = 0;
        for event in ending {
            for action in task.run(event) {
                if matches!(
                    action,
                    TaskAction::Emit(
                        InvocationTaskOutputInner::Closed
                            | InvocationTaskOutputInner::Suspended(_)
                            | InvocationTaskOutputInner::Failed(_)
                    )
                ) {
                    last_reports += 1;
                }
            }
        }
        assert_eq!(task.phase(), TaskPhase::Terminated);
        assert_eq!(last_reports, 1);
        for event in all_events() {
            assert_eq!(task.offer(event), None);
        }
    }
}

#[test]
fn events_are_refused_outside_their_phase() {
    let task = task(true);
    for (i, event) in all_events().into_iter().enumerate() {
        assert_eq!(task.ready_for(&event), i < 2 || i == 13, "event {i} on a new task");
    }
    let task = streaming(true);
    for (i, event) in all_events().into_iter().enumerate() {
        assert_eq!(task.ready_for(&event), i >= 7, "event {i} while streaming");
    }
}
