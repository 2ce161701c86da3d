use absinthe::config::HardwareConfig;
use absinthe::error::{AbsintheError, SessionError};
use absinthe::session::{Operation, Phase, ValidationSession};
use absinthe::wire::{accept_response, frame_line};

#[test]
fn framing_appends_one_newline() {
    let line = frame_line(&b"{\"session_info\":[5,5,5]}".to_vec()).unwrap();
    assert_eq!(line, b"{\"session_info\":[5,5,5]}\n".to_vec());
}

#[test]
fn framing_rejects_embedded_newline() {
    assert!(matches!(
        frame_line(&b"{\"a\":\n1}".to_vec()),
        Err(SessionError::MalformedMessage)
    ));
}

#[test]
fn response_keeps_line_as_read() {
    let body = accept_response(b"{\"result\":[7,7,7]}\n".to_vec(), String::new()).unwrap();
    assert_eq!(body, b"{\"result\":[7,7,7]}\n".to_vec());
    let body = accept_response(b"{\"result\":[]}\r\n".to_vec(), String::new()).unwrap();
    assert_eq!(body, b"{\"result\":[]}\r\n".to_vec());
    let body = accept_response(b"{\"result\":[]}".to_vec(), String::new()).unwrap();
    assert_eq!(body, b"{\"result\":[]}".to_vec());
}

#[test]
fn premature_eof_carries_diagnostics() {
    match accept_response(Vec::new(), "boom".to_string()) {
        Err(SessionError::ChildUnexpectedEof(text)) => assert_eq!(text, "boom"),
        other => panic!("unexpected outcome: {:?}", other),
    }
}

fn session() -> ValidationSession<String> {
    ValidationSession::new("engine".to_string())
}

/// Runs `op` through the session with the given outcome.
fn run(session: &mut ValidationSession<String>, op: Operation, succeeded: bool) -> Result<(), SessionError> {
    let transport = session.begin(op)?;
    session.end(op, transport, succeeded);
    Ok(())
}

#[test]
fn key_establishment_before_initialize_is_rejected() {
    let mut session = session();
    assert!(matches!(
        session.check(Operation::KeyEstablishment),
        Err(SessionError::InvalidState)
    ));
    assert!(matches!(
        session.begin(Operation::KeyEstablishment),
        Err(SessionError::InvalidState)
    ));
    assert_eq!(session.phase(), Phase::Created);
    assert_eq!(session.transport, Some("engine".to_string()));
}

#[test]
fn sign_before_key_establishment_is_rejected() {
    let mut session = session();
    assert!(matches!(session.begin(Operation::Sign), Err(SessionError::InvalidState)));
    run(&mut session, Operation::Initialize, true).unwrap();
    assert!(matches!(session.begin(Operation::Sign), Err(SessionError::InvalidState)));
    assert_eq!(session.phase(), Phase::Initialized);
    assert_eq!(session.transport, Some("engine".to_string()));
}

#[test]
fn initialize_twice_is_rejected() {
    let mut session = session();
    run(&mut session, Operation::Initialize, true).unwrap();
    assert!(matches!(
        run(&mut session, Operation::Initialize, true),
        Err(SessionError::InvalidState)
    ));
    assert_eq!(session.phase(), Phase::Initialized);
}

#[test]
fn begin_lends_the_transport() {
    let mut session = session();
    let transport = session.begin(Operation::Initialize).unwrap();
    assert_eq!(transport, "engine");
    assert_eq!(session.transport, None);
    assert!(matches!(session.begin(Operation::Initialize), Err(SessionError::InvalidState)));
    session.end(Operation::Initialize, transport, true);
    assert_eq!(session.transport, Some("engine".to_string()));
}

#[test]
fn phases_run_in_order() {
    let mut session = session();
    run(&mut session, Operation::Initialize, true).unwrap();
    assert_eq!(session.phase(), Phase::Initialized);
    run(&mut session, Operation::KeyEstablishment, true).unwrap();
    assert_eq!(session.phase(), Phase::KeyEstablished);
    run(&mut session, Operation::Sign, true).unwrap();
    assert_eq!(session.phase(), Phase::Signed);
    assert_eq!(session.close(), Some("engine".to_string()));
    assert_eq!(session.phase(), Phase::Closed);
}

#[test]
fn failed_phase_blocks_retry() {
    let mut session = session();
    run(&mut session, Operation::Initialize, false).unwrap();
    assert_eq!(session.phase(), Phase::Failed);
    assert!(session.check(Operation::Initialize).is_err());
    assert!(session.check(Operation::KeyEstablishment).is_err());
    assert!(session.check(Operation::Sign).is_err());
}

#[test]
fn close_releases_once() {
    let mut session = session();
    run(&mut session, Operation::Initialize, false).unwrap();
    assert_eq!(session.close(), Some("engine".to_string()));
    assert_eq!(session.close(), None);
    assert_eq!(session.close(), None);
    assert_eq!(session.phase(), Phase::Closed);
}

#[test]
fn closed_session_runs_no_phase() {
    let mut session = session();
    assert!(session.close().is_some());
    assert!(matches!(session.begin(Operation::Initialize), Err(SessionError::InvalidState)));
}

fn byte_field(reply: &[u8], key: &str) -> Vec<u8> {
    let value: serde_json::Value = serde_json::from_slice(reply).unwrap();
    value[key]
        .as_array()
        .unwrap()
        .iter()
        .map(|v| v.as_u64().unwrap() as u8)
        .collect()
}

#[test]
fn subprocess_exchange_scenario() {
    let mut session = session();

    let transport = session.begin(Operation::Initialize).unwrap();
    let request = frame_line(&b"{\"hardware_config\":{},\"cert_data\":[1,2,3]}".to_vec()).unwrap();
    assert_eq!(request, b"{\"hardware_config\":{},\"cert_data\":[1,2,3]}\n".to_vec());
    let reply = accept_response(b"{\"session_info\":[9,9,9]}\n".to_vec(), String::new()).unwrap();
    assert_eq!(byte_field(&reply, "session_info"), vec![9, 9, 9]);
    session.end(Operation::Initialize, transport, true);

    let transport = session.begin(Operation::KeyEstablishment).unwrap();
    let request = frame_line(&b"{\"session_info\":[5,5,5]}".to_vec()).unwrap();
    assert_eq!(request, b"{\"session_info\":[5,5,5]}\n".to_vec());
    session.end(Operation::KeyEstablishment, transport, true);

    let transport = session.begin(Operation::Sign).unwrap();
    let reply = accept_response(b"{\"result\":[7,7,7]}\n".to_vec(), String::new()).unwrap();
    assert_eq!(byte_field(&reply, "result"), vec![7, 7, 7]);
    session.end(Operation::Sign, transport, true);
    assert_eq!(session.phase(), Phase::Signed);
    assert!(session.close().is_some());
}

#[test]
fn profile_from_validation_data_is_unsupported() {
    let outcome = HardwareConfig::from_validation_data(&[1, 2, 3]);
    match outcome {
        Err(AbsintheError(code)) => assert_eq!(code, absinthe::config::UNSUPPORTED_OPERATION),
        Ok(_) => panic!("expected an error"),
    }
    assert_eq!(AbsintheError(7).code(), 7);
}

#[test]
fn error_message_is_decimal_code() {
    assert_eq!(AbsintheError(-42).message(), "-42");
    assert_eq!(AbsintheError(0).message(), "0");
    assert_eq!(AbsintheError(7).message(), "7");
    assert_eq!(AbsintheError(1234567).message(), "1234567");
    assert_eq!(AbsintheError(i32::MIN).message(), "-2147483648");
    assert_eq!(AbsintheError(i32::MAX).message(), "2147483647");
}
