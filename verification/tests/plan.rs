use evmcall::hexid::ObjectId;
use evmcall::plan::{
    build_call_plan, keystore_path_for, locate_keystore, resolve_keystore_path, rpc_endpoint,
    CALL_GAS_BUDGET,
};

#[test]
fn endpoint_is_fixed() {
    assert_eq!(rpc_endpoint(), "http://127.0.0.1:5001");
}

#[test]
fn keystore_path_appends_fixed_location() {
    assert_eq!(
        keystore_path_for("/home/u"),
        "/home/u/.sui/sui_config/sui.keystore"
    );
}

#[test]
fn resolve_keystore_path_with_home() {
    let r = resolve_keystore_path(Some(String::from("/root")));
    assert_eq!(r, Ok(String::from("/root/.sui/sui_config/sui.keystore")));
}

#[test]
fn resolve_keystore_path_without_home_is_fixed_diagnostic() {
    let r = resolve_keystore_path(None);
    assert_eq!(r, Err(String::from("Failed to obtain home directory path")));
}

#[test]
fn locate_keystore_path_ends_with_fixed_location() {
    match locate_keystore() {
        Ok(p) => assert!(p.ends_with("/.sui/sui_config/sui.keystore")),
        Err(m) => assert_eq!(m, "Failed to obtain home directory path"),
    }
}

#[test]
fn call_plan_is_fixed() {
    let state_id =
        ObjectId::parse("0x00000000000000000000000000000000000000a1").unwrap();
    let plan = build_call_plan(&state_id);
    assert_eq!(plan.module, "vm");
    assert_eq!(plan.function, "call");
    assert!(plan.type_arguments.is_empty());
    assert_eq!(plan.arguments.len(), 2);
    assert_eq!(plan.arguments[0], "0x00000000000000000000000000000000000000a1");
    assert_eq!(plan.arguments[1], "hello");
    assert_eq!(plan.gas_budget, 1000);
    assert_eq!(CALL_GAS_BUDGET, 1000);
}
