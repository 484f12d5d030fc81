use evmcall::diag::{
    execute_failure_message, home_failure_message, keystore_failure_message,
    move_call_failure_message, parse_failure_message, rpc_failure_message, runtime_failure_message,
    sign_failure_message,
};

#[test]
fn parse_failure_message_exact() {
    let m = parse_failure_message("ObjectID", "0xzz", "invalid length");
    assert_eq!(m, "Failed ObjectID::from_str: `0xzz`, invalid length");
}

#[test]
fn parse_failure_message_names_type_and_input() {
    let m = parse_failure_message("SuiAddress", "not-an-address", "invalid length");
    assert!(m.contains("SuiAddress"));
    assert!(m.contains("not-an-address"));
}

#[test]
fn home_failure_message_exact() {
    assert_eq!(home_failure_message(), "Failed to obtain home directory path");
}

#[test]
fn keystore_failure_message_exact() {
    let m = keystore_failure_message("/home/u/.sui/sui_config/sui.keystore", "denied");
    assert_eq!(
        m,
        "Failed FileBasedKeystore: `/home/u/.sui/sui_config/sui.keystore`, denied"
    );
}

#[test]
fn runtime_failure_message_exact() {
    assert_eq!(runtime_failure_message("no threads"), "Failed tokio runtime: no threads");
}

#[test]
fn rpc_failure_message_exact() {
    let m = rpc_failure_message("http://127.0.0.1:5001", "connection refused");
    assert_eq!(m, "Failed new_rpc_client: `http://127.0.0.1:5001`, connection refused");
}

#[test]
fn rpc_failure_message_names_endpoint() {
    let m = rpc_failure_message("http://127.0.0.1:5001", "connection refused");
    assert!(m.contains("http://127.0.0.1:5001"));
}

#[test]
fn step_failure_messages_exact() {
    assert_eq!(move_call_failure_message("bad arg"), "Failed move_call: bad arg");
    assert_eq!(sign_failure_message("no key"), "Failed sign: no key");
    assert_eq!(
        execute_failure_message("rejected"),
        "Failed execute_transaction: rejected"
    );
}
