use furiosa_client::compile::CompileTask;
use furiosa_client::compile::CompileTaskPhase;
use furiosa_client::flow::artifact_path;
use furiosa_client::flow::flow_advance;
use furiosa_client::flow::flow_request;
use furiosa_client::flow::flow_start;
use furiosa_client::flow::is_success_status;
use furiosa_client::flow::logs_path;
use furiosa_client::flow::make_dss_response;
use furiosa_client::flow::make_response;
use furiosa_client::flow::submit_path;
use furiosa_client::flow::task_path;
use furiosa_client::flow::ApiResponse;
use furiosa_client::flow::ErrorBodyOutcome;
use furiosa_client::flow::FlowEvent;
use furiosa_client::flow::FlowState;
use furiosa_client::flow::HttpMethod;
use furiosa_client::flow::Reply;
use furiosa_client::ClientError;

const ENDPOINT: &str = "https://test.api";

fn task(phase: CompileTaskPhase) -> CompileTask {
    CompileTask {
        version: 1,
        task_id: "task-1".to_string(),
        phase,
        submit_time: 0,
        start_time: None,
        finish_time: None,
        progress_bits: 0,
        error_message: None,
    }
}

fn error_body(message: &str) -> ErrorBodyOutcome {
    ErrorBodyOutcome::Parsed(ApiResponse {
        error_code: "E42".to_string(),
        message: message.to_string(),
        trace_id: None,
    })
}

#[test]
fn test_paths() {
    assert_eq!(submit_path(ENDPOINT), "https://test.api/api/compiler/v1alpha1/tasks");
    assert_eq!(task_path(ENDPOINT, "t9"), "https://test.api/api/compiler/v1alpha1/tasks/t9");
    assert_eq!(
        artifact_path(ENDPOINT, "t9"),
        "https://test.api/api/compiler/v1alpha1/tasks/t9/artifacts/output.enf"
    );
    assert_eq!(logs_path(ENDPOINT, "t9"), "https://test.api/api/compiler/v1alpha1/tasks/t9/logs");
}

#[test]
fn test_is_success_status() {
    assert!(is_success_status(200));
    assert!(is_success_status(204));
    assert!(is_success_status(299));
    assert!(!is_success_status(199));
    assert!(!is_success_status(300));
    assert!(!is_success_status(404));
    assert!(!is_success_status(500));
}

#[test]
fn test_poll_loop_three_fetches() {
    // Scripted server: the submitted task is pending, three successive
    // status fetches report Pending, Pending, Succeeded; the machine must
    // perform exactly three status GETs and then one artifact GET.
    let mut state = flow_start();

    let call = flow_request(ENDPOINT, &state).unwrap();
    assert_eq!(call.method, HttpMethod::Post);
    assert_eq!(call.path, "https://test.api/api/compiler/v1alpha1/tasks");
    assert_eq!(call.delay_millis, 0);
    state = flow_advance(
        ENDPOINT,
        state,
        FlowEvent::Task(Reply::Payload(task(CompileTaskPhase::Pending))),
    );

    let script = [
        CompileTaskPhase::Pending,
        CompileTaskPhase::Pending,
        CompileTaskPhase::Succeeded,
    ];
    let mut status_gets: usize = 0;
    let mut artifact_gets: usize = 0;
    for phase in script {
        let call = flow_request(ENDPOINT, &state).unwrap();
        assert_eq!(call.method, HttpMethod::Get);
        assert_eq!(call.path, "https://test.api/api/compiler/v1alpha1/tasks/task-1");
        assert_eq!(call.delay_millis, 500);
        status_gets += 1;
        state = flow_advance(ENDPOINT, state, FlowEvent::Task(Reply::Payload(task(phase))));
    }

    let call = flow_request(ENDPOINT, &state).unwrap();
    assert_eq!(call.method, HttpMethod::Get);
    assert_eq!(
        call.path,
        "https://test.api/api/compiler/v1alpha1/tasks/task-1/artifacts/output.enf"
    );
    assert_eq!(call.delay_millis, 0);
    artifact_gets += 1;
    state = flow_advance(ENDPOINT, state, FlowEvent::Bytes(Reply::Payload(vec![1u8, 2, 3])));

    assert_eq!(status_gets, 3);
    assert_eq!(artifact_gets, 1);
    match state {
        FlowState::Done { result } => assert_eq!(result.unwrap(), vec![1u8, 2, 3]),
        _ => panic!("the flow should be done after the artifact fetch"),
    }
}

#[test]
fn test_failed_task_fetches_logs_only() {
    // Scripted server: the task fails immediately.  The machine performs
    // one logs GET, zero artifact GETs, and returns a compilation-failed
    // error whose message is exactly the log body.
    let mut state = flow_start();
    state = flow_advance(
        ENDPOINT,
        state,
        FlowEvent::Task(Reply::Payload(task(CompileTaskPhase::Failed))),
    );

    let call = flow_request(ENDPOINT, &state).unwrap();
    assert_eq!(call.method, HttpMethod::Get);
    assert_eq!(call.path, "https://test.api/api/compiler/v1alpha1/tasks/task-1/logs");

    let log = b"error: operator not supported".to_vec();
    state = flow_advance(ENDPOINT, state, FlowEvent::Bytes(Reply::Payload(log)));
    match state {
        FlowState::Done { result } => match result {
            Err(ClientError::CompilationFailed(msg)) => {
                assert_eq!(msg, "error: operator not supported");
            },
            other => panic!("expected a compilation failure, got {:?}", other),
        },
        _ => panic!("the flow should be done after the log fetch"),
    }
}

#[test]
fn test_log_bytes_are_decoded_lossily() {
    let mut state = flow_start();
    state = flow_advance(
        ENDPOINT,
        state,
        FlowEvent::Task(Reply::Payload(task(CompileTaskPhase::Failed))),
    );
    let invalid = vec![0xffu8, b'l', b'o', b'g'];
    state = flow_advance(ENDPOINT, state, FlowEvent::Bytes(Reply::Payload(invalid)));
    match state {
        FlowState::Done { result } => match result {
            Err(ClientError::CompilationFailed(msg)) => assert_eq!(msg, "\u{fffd}log"),
            other => panic!("expected a compilation failure, got {:?}", other),
        },
        _ => panic!("the flow should be done after the log fetch"),
    }
}

#[test]
fn test_non_2xx_submit_is_api_error() {
    // A 4xx/5xx reply to the initial POST yields an API error without ever
    // producing a task id or entering the poll loop.
    let state = flow_advance(
        ENDPOINT,
        flow_start(),
        FlowEvent::Task(Reply::Api(error_body("bad target spec"))),
    );
    match &state {
        FlowState::Done { result } => match result {
            Err(ClientError::ApiError(m)) => assert_eq!(
                m,
                "fail to call API https://test.api/api/compiler/v1alpha1/tasks: bad target spec"
            ),
            other => panic!("expected an API error, got {:?}", other),
        },
        _ => panic!("a rejected submission must end the flow at once"),
    }
    assert!(flow_request(ENDPOINT, &state).is_none());
}

#[test]
fn test_malformed_error_body_on_submit() {
    let state = flow_advance(
        ENDPOINT,
        flow_start(),
        FlowEvent::Task(Reply::Api(ErrorBodyOutcome::Unparsable("invalid JSON".to_string()))),
    );
    match state {
        FlowState::Done { result } => match result {
            Err(ClientError::ApiError(m)) => assert_eq!(
                m,
                "fail to deserialize the error response from \
                 https://test.api/api/compiler/v1alpha1/tasks: invalid JSON"
            ),
            other => panic!("expected an API error, got {:?}", other),
        },
        _ => panic!("a malformed error body must end the flow at once"),
    }
}

#[test]
fn test_transport_error_propagates() {
    let state = flow_advance(
        ENDPOINT,
        flow_start(),
        FlowEvent::Task(Reply::Transport("connection refused".to_string())),
    );
    match state {
        FlowState::Done { result } => match result {
            Err(ClientError::ApiError(m)) => assert_eq!(m, "connection refused"),
            other => panic!("expected an API error, got {:?}", other),
        },
        _ => panic!("a transport failure must end the flow at once"),
    }
}

#[test]
fn test_poll_error_stops_polling() {
    let mut state = flow_start();
    state = flow_advance(
        ENDPOINT,
        state,
        FlowEvent::Task(Reply::Payload(task(CompileTaskPhase::Running))),
    );
    state = flow_advance(
        ENDPOINT,
        state,
        FlowEvent::Task(Reply::Api(error_body("gone"))),
    );
    match state {
        FlowState::Done { result } => match result {
            Err(ClientError::ApiError(m)) => assert_eq!(
                m,
                "fail to call API https://test.api/api/compiler/v1alpha1/tasks/task-1: gone"
            ),
            other => panic!("expected an API error, got {:?}", other),
        },
        _ => panic!("a failed status fetch must end the flow at once"),
    }
}

#[test]
fn test_make_response_body_unreadable() {
    let r: Result<Vec<u8>, ClientError> = make_response(
        "https://test.api/x",
        Reply::BodyUnreadable("unexpected EOF".to_string()),
    );
    match r {
        Err(ClientError::ApiError(m)) => {
            assert_eq!(m, "fail to deserialize the bytes: unexpected EOF");
        },
        other => panic!("expected an API error, got {:?}", other),
    }
}

#[test]
fn test_make_dss_response_messages() {
    let ok = make_dss_response("calibration onnx", Reply::Payload(vec![9u8]));
    assert_eq!(ok.unwrap(), vec![9u8]);

    let unreadable = make_dss_response(
        "calibration onnx",
        Reply::BodyUnreadable("unexpected EOF".to_string()),
    );
    match unreadable {
        Err(ClientError::ApiError(m)) => {
            assert_eq!(m, "fail to fetch the calibration onnx: unexpected EOF");
        },
        other => panic!("expected an API error, got {:?}", other),
    }

    let rejected = make_dss_response("quantized onnx", Reply::Api(error_body("bad model")));
    match rejected {
        Err(ClientError::ApiError(m)) => assert_eq!(m, "fail to compile: bad model"),
        other => panic!("expected an API error, got {:?}", other),
    }

    let malformed = make_dss_response(
        "quantized onnx",
        Reply::Api(ErrorBodyOutcome::Unparsable("not json".to_string())),
    );
    match malformed {
        Err(ClientError::ApiError(m)) => assert_eq!(m, "fail to get API response: not json"),
        other => panic!("expected an API error, got {:?}", other),
    }

    let transport = make_dss_response("quantized onnx", Reply::Transport("timed out".to_string()));
    match transport {
        Err(ClientError::ApiError(m)) => assert_eq!(m, "timed out"),
        other => panic!("expected an API error, got {:?}", other),
    }
}
