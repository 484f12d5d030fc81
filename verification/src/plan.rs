//! The fixed configuration of the pipeline and the plan of the contract call.
//!
//! The pipeline talks to one hard-coded local endpoint, keeps its keystore at
//! one fixed path under the home directory, and always builds the same call:
//! module `vm`, function `call`, the stringified state identifier and the
//! literal `hello` as arguments, and a fixed gas budget.

use vstd::prelude::*;
use vstd::string::*;
use crate::diag::{home_failure_text, home_failure_message};
use crate::hexid::{ObjectId, id_display_text};

verus! {

/// The gas budget of every contract call this pipeline submits.
pub const CALL_GAS_BUDGET: u64 = 1000;

/// The hard-coded local endpoint.
pub open spec fn rpc_endpoint_text() -> Seq<char> {
    "http://127.0.0.1:5001"@
}

/// The hard-coded local endpoint, as a string.
pub fn rpc_endpoint() -> (r: &'static str)
    ensures
        r@ == rpc_endpoint_text(),
{
    "http://127.0.0.1:5001"
}

/// The keystore's fixed location under the home directory.
pub open spec fn keystore_rel_text() -> Seq<char> {
    "/.sui/sui_config/sui.keystore"@
}

/// The keystore path for a given home directory.
pub open spec fn keystore_path_text(home: Seq<char>) -> Seq<char> {
    home + keystore_rel_text()
}

/// Append the keystore's fixed location to a home directory.
pub fn keystore_path_for(home: &str) -> (r: String)
    ensures
        r@ == keystore_path_text(home@),
{
    let mut r = String::from_str(home);
    r.append("/.sui/sui_config/sui.keystore");
    r
}

/// Resolve the keystore path from an optional home directory: without one,
/// the fixed home-directory diagnostic is the result.
pub fn resolve_keystore_path(home: Option<String>) -> (r: Result<String, String>)
    ensures
        home matches Some(h) ==> (r matches Ok(p) && p@ == keystore_path_text(h@)),
        home is None ==> (r matches Err(m) && m@ == home_failure_text()),
{
    match home {
        Some(h) => Ok(keystore_path_for(h.as_str())),
        None => Err(home_failure_message()),
    }
}

/// Relies on dirs::home_dir: the platform's home directory for the invoking
/// user, if the platform reports one. The result depends on the environment,
/// so nothing more is promised of it.
#[verifier::external_body]
fn home_dir_text() -> (r: Option<String>) {
    dirs::home_dir().map(|p| p.to_string_lossy().into_owned())
}

/// Locate the keystore under the invoking user's home directory. Whatever
/// the environment reports, the result is either the fixed diagnostic or a
/// path ending in the keystore's fixed location.
pub fn locate_keystore() -> (r: Result<String, String>)
    ensures
        r matches Err(m) ==> m@ == home_failure_text(),
        r matches Ok(p) ==> p@.len() >= keystore_rel_text().len() && p@.subrange(
            p@.len() - keystore_rel_text().len(),
            p@.len() as int,
        ) == keystore_rel_text(),
{
    let home = home_dir_text();
    let r = resolve_keystore_path(home);
    proof {
        if r is Ok {
            let p = r->Ok_0;
            assert(p@.subrange(
                p@.len() - keystore_rel_text().len(),
                p@.len() as int,
            ) =~= keystore_rel_text());
        }
    }
    r
}

/// The unsigned contract call the pipeline always builds: its target module
/// and function, its type arguments and arguments, and its gas budget.
pub struct CallPlan {
    /// The fixed module name, `vm`.
    pub module: String,
    /// The fixed function name, `call`.
    pub function: String,
    /// Type arguments; always empty.
    pub type_arguments: Vec<String>,
    /// Call arguments: the stringified state identifier, then `hello`.
    pub arguments: Vec<String>,
    /// The fixed gas budget.
    pub gas_budget: u64,
}

/// Build the fixed contract-call plan for a state identifier.
pub fn build_call_plan(state_id: &ObjectId) -> (r: CallPlan)
    requires
        state_id.wf(),
    ensures
        r.module@ == "vm"@,
        r.function@ == "call"@,
        r.type_arguments@.len() == 0,
        r.arguments@.len() == 2,
        r.arguments@[0]@ == id_display_text(state_id@),
        r.arguments@[1]@ == "hello"@,
        r.gas_budget == CALL_GAS_BUDGET,
{
    let mut arguments: Vec<String> = Vec::new();
    arguments.push(state_id.to_text());
    arguments.push(String::from_str("hello"));
    CallPlan {
        module: String::from_str("vm"),
        function: String::from_str("call"),
        type_arguments: Vec::new(),
        arguments,
        gas_budget: 1000,
    }
}

} // verus!
