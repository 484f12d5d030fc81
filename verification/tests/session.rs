use evmcall::session::{advance, finish, parse_request, Event, SessionState, StepOutcome};

const ID_A: &str = "0x0000000000000000000000000000000000000001";
const ID_B: &str = "0x0000000000000000000000000000000000000002";
const ID_C: &str = "0x0000000000000000000000000000000000000003";
const SIGNER: &str = "0x00000000000000000000000000000000000000ff";

#[test]
fn parse_request_accepts_valid_inputs() {
    let q = parse_request(ID_A, ID_B, ID_C, SIGNER).unwrap();
    assert_eq!(q.evm_id.bytes()[19], 0x01);
    assert_eq!(q.evm_state_id.bytes()[19], 0x02);
    assert_eq!(q.gas_id.bytes()[19], 0x03);
    assert_eq!(q.signer.bytes()[19], 0xff);
}

#[test]
fn parse_request_reports_first_bad_input() {
    let r = parse_request("junk", ID_B, ID_C, SIGNER);
    assert_eq!(
        r.unwrap_err(),
        "Failed ObjectID::from_str: `junk`, invalid length"
    );
}

#[test]
fn parse_request_reports_bad_state_id() {
    let r = parse_request(ID_A, "0xzzzzzzzzzzzzzzzzzzzzzzzzzzzzzzzzzzzzzzzz", ID_C, SIGNER);
    assert_eq!(
        r.unwrap_err(),
        "Failed ObjectID::from_str: `0xzzzzzzzzzzzzzzzzzzzzzzzzzzzzzzzzzzzzzzzz`, invalid hex digit"
    );
}

#[test]
fn parse_request_reports_bad_gas_id() {
    let r = parse_request(ID_A, ID_B, "0x12", SIGNER);
    assert_eq!(
        r.unwrap_err(),
        "Failed ObjectID::from_str: `0x12`, invalid length"
    );
}

#[test]
fn parse_request_reports_bad_signer_as_address() {
    let r = parse_request(ID_A, ID_B, ID_C, "nobody");
    assert_eq!(
        r.unwrap_err(),
        "Failed SuiAddress::from_str: `nobody`, invalid length"
    );
}

#[test]
fn session_completes_when_every_step_succeeds() {
    let mut s = SessionState::ResolvingHome;
    s = advance(s, Event::HomeResolved(Some(String::from("/root"))));
    match &s {
        SessionState::LoadingKeystore { path } => {
            assert_eq!(path, "/root/.sui/sui_config/sui.keystore")
        },
        _ => panic!("expected a keystore step"),
    }
    s = advance(s, Event::KeystoreLoaded(StepOutcome::Success));
    assert!(matches!(s, SessionState::BuildingRuntime));
    s = advance(s, Event::RuntimeBuilt(StepOutcome::Success));
    assert!(matches!(s, SessionState::Connecting));
    s = advance(s, Event::Connected(StepOutcome::Success));
    assert!(matches!(s, SessionState::BuildingCall));
    s = advance(s, Event::CallBuilt(StepOutcome::Success));
    assert!(matches!(s, SessionState::Signing));
    s = advance(s, Event::Signed(StepOutcome::Success));
    assert!(matches!(s, SessionState::Executing));
    s = advance(s, Event::Executed(StepOutcome::Success));
    assert!(matches!(s, SessionState::Completed));
    assert_eq!(finish(s), None);
}

#[test]
fn session_fails_without_home_directory() {
    let s = advance(SessionState::ResolvingHome, Event::HomeResolved(None));
    assert_eq!(
        finish(s),
        Some(String::from("Failed to obtain home directory path"))
    );
}

#[test]
fn session_reports_keystore_failure_with_path() {
    let s = SessionState::LoadingKeystore {
        path: String::from("/root/.sui/sui_config/sui.keystore"),
    };
    let s = advance(s, Event::KeystoreLoaded(StepOutcome::Failure(String::from("denied"))));
    assert_eq!(
        finish(s),
        Some(String::from(
            "Failed FileBasedKeystore: `/root/.sui/sui_config/sui.keystore`, denied"
        ))
    );
}

#[test]
fn session_reports_runtime_failure() {
    let s = advance(
        SessionState::BuildingRuntime,
        Event::RuntimeBuilt(StepOutcome::Failure(String::from("no threads"))),
    );
    assert_eq!(finish(s), Some(String::from("Failed tokio runtime: no threads")));
}

#[test]
fn session_connect_failure_names_endpoint() {
    let s = advance(
        SessionState::Connecting,
        Event::Connected(StepOutcome::Failure(String::from("connection refused"))),
    );
    let m = finish(s).unwrap();
    assert_eq!(
        m,
        "Failed new_rpc_client: `http://127.0.0.1:5001`, connection refused"
    );
    assert!(m.contains("http://127.0.0.1:5001"));
}

#[test]
fn session_reports_call_sign_and_execute_failures() {
    let s = advance(
        SessionState::BuildingCall,
        Event::CallBuilt(StepOutcome::Failure(String::from("bad arg"))),
    );
    assert_eq!(finish(s), Some(String::from("Failed move_call: bad arg")));

    let s = advance(
        SessionState::Signing,
        Event::Signed(StepOutcome::Failure(String::from("no key"))),
    );
    assert_eq!(finish(s), Some(String::from("Failed sign: no key")));

    let s = advance(
        SessionState::Executing,
        Event::Executed(StepOutcome::Failure(String::from("rejected"))),
    );
    assert_eq!(
        finish(s),
        Some(String::from("Failed execute_transaction: rejected"))
    );
}

#[test]
fn session_ignores_event_for_another_step() {
    let s = advance(SessionState::Connecting, Event::Signed(StepOutcome::Success));
    assert!(matches!(s, SessionState::Connecting));
}

#[test]
fn session_failure_is_terminal() {
    let s = advance(SessionState::ResolvingHome, Event::HomeResolved(None));
    let s = advance(s, Event::KeystoreLoaded(StepOutcome::Success));
    assert_eq!(
        finish(s),
        Some(String::from("Failed to obtain home directory path"))
    );
}
