//! The exact diagnostic strings of the pipeline.
//!
//! Every failing step reports a plain-text diagnostic; these builders pin
//! each one down to the character, so callers can rely on what a returned
//! string names: the failing step, the offending input, the endpoint.

use vstd::prelude::*;
use vstd::string::*;

verus! {

/// Diagnostic for a value that would not parse: names the target type,
/// the offending text, and the parser's description.
pub open spec fn parse_failure_text(target: Seq<char>, input: Seq<char>, err: Seq<char>) -> Seq<char> {
    "Failed "@ + target + "::from_str: `"@ + input + "`, "@ + err
}

/// The fixed diagnostic for an unresolvable home directory.
pub open spec fn home_failure_text() -> Seq<char> {
    "Failed to obtain home directory path"@
}

/// Diagnostic for a keystore that could not be loaded or created.
pub open spec fn keystore_failure_text(path: Seq<char>, err: Seq<char>) -> Seq<char> {
    "Failed FileBasedKeystore: `"@ + path + "`, "@ + err
}

/// Diagnostic for an execution context that could not be built.
pub open spec fn runtime_failure_text(err: Seq<char>) -> Seq<char> {
    "Failed tokio runtime: "@ + err
}

/// Diagnostic for an endpoint that could not be reached: names the endpoint.
pub open spec fn rpc_failure_text(endpoint: Seq<char>, err: Seq<char>) -> Seq<char> {
    "Failed new_rpc_client: `"@ + endpoint + "`, "@ + err
}

/// Diagnostic for a contract call that could not be built.
pub open spec fn move_call_failure_text(err: Seq<char>) -> Seq<char> {
    "Failed move_call: "@ + err
}

/// Diagnostic for a transaction that could not be signed.
pub open spec fn sign_failure_text(err: Seq<char>) -> Seq<char> {
    "Failed sign: "@ + err
}

/// Diagnostic for a transaction that could not be executed.
pub open spec fn execute_failure_text(err: Seq<char>) -> Seq<char> {
    "Failed execute_transaction: "@ + err
}

/// Whether `needle` occurs contiguously inside `hay`.
pub open spec fn contains_text(hay: Seq<char>, needle: Seq<char>) -> bool {
    exists|i: int|
        0 <= i && i + needle.len() <= hay.len() && #[trigger] hay.subrange(i, i + needle.len())
            == needle
}

/// Anything standing between two other pieces of text occurs in the whole.
pub proof fn lemma_contains_middle(before: Seq<char>, mid: Seq<char>, after: Seq<char>)
    ensures
        contains_text(before + mid + after, mid),
{
    let hay = before + mid + after;
    let i = before.len() as int;
    assert(hay.subrange(i, i + mid.len()) =~= mid);
}

/// Build the parse-failure diagnostic.
pub fn parse_failure_message(target: &str, input: &str, err: &str) -> (r: String)
    ensures
        r@ == parse_failure_text(target@, input@, err@),
{
    let mut r = String::from_str("Failed ");
    r.append(target);
    r.append("::from_str: `");
    r.append(input);
    r.append("`, ");
    r.append(err);
    r
}

/// Build the fixed home-directory diagnostic.
pub fn home_failure_message() -> (r: String)
    ensures
        r@ == home_failure_text(),
{
    String::from_str("Failed to obtain home directory path")
}

/// Build the keystore diagnostic.
pub fn keystore_failure_message(path: &str, err: &str) -> (r: String)
    ensures
        r@ == keystore_failure_text(path@, err@),
{
    let mut r = String::from_str("Failed FileBasedKeystore: `");
    r.append(path);
    r.append("`, ");
    r.append(err);
    r
}

/// Build the execution-context diagnostic.
pub fn runtime_failure_message(err: &str) -> (r: String)
    ensures
        r@ == runtime_failure_text(err@),
{
    let mut r = String::from_str("Failed tokio runtime: ");
    r.append(err);
    r
}

/// Build the connection diagnostic.
pub fn rpc_failure_message(endpoint: &str, err: &str) -> (r: String)
    ensures
        r@ == rpc_failure_text(endpoint@, err@),
{
    let mut r = String::from_str("Failed new_rpc_client: `");
    r.append(endpoint);
    r.append("`, ");
    r.append(err);
    r
}

/// Build the call-building diagnostic.
pub fn move_call_failure_message(err: &str) -> (r: String)
    ensures
        r@ == move_call_failure_text(err@),
{
    let mut r = String::from_str("Failed move_call: ");
    r.append(err);
    r
}

/// Build the signing diagnostic.
pub fn sign_failure_message(err: &str) -> (r: String)
    ensures
        r@ == sign_failure_text(err@),
{
    let mut r = String::from_str("Failed sign: ");
    r.append(err);
    r
}

/// Build the execution diagnostic.
pub fn execute_failure_message(err: &str) -> (r: String)
    ensures
        r@ == execute_failure_text(err@),
{
    let mut r = String::from_str("Failed execute_transaction: ");
    r.append(err);
    r
}

/// A parse-failure diagnostic names the target type and carries the
/// offending input text, whatever they are.
pub proof fn lemma_parse_failure_names_type_and_input(
    target: Seq<char>,
    input: Seq<char>,
    err: Seq<char>,
)
    ensures
        contains_text(parse_failure_text(target, input, err), target),
        contains_text(parse_failure_text(target, input, err), input),
{
    let whole = parse_failure_text(target, input, err);
    assert(whole =~= "Failed "@ + target + ("::from_str: `"@ + input + "`, "@ + err));
    lemma_contains_middle("Failed "@, target, "::from_str: `"@ + input + "`, "@ + err);
    assert(whole =~= ("Failed "@ + target + "::from_str: `"@) + input + ("`, "@ + err));
    lemma_contains_middle("Failed "@ + target + "::from_str: `"@, input, "`, "@ + err);
}

/// A connection diagnostic carries the endpoint text, whatever it is.
pub proof fn lemma_rpc_failure_names_endpoint(endpoint: Seq<char>, err: Seq<char>)
    ensures
        contains_text(rpc_failure_text(endpoint, err), endpoint),
{
    let whole = rpc_failure_text(endpoint, err);
    assert(whole =~= "Failed new_rpc_client: `"@ + endpoint + ("`, "@ + err));
    lemma_contains_middle("Failed new_rpc_client: `"@, endpoint, "`, "@ + err);
}

/// A keystore diagnostic carries the keystore path, whatever it is.
pub proof fn lemma_keystore_failure_names_path(path: Seq<char>, err: Seq<char>)
    ensures
        contains_text(keystore_failure_text(path, err), path),
{
    let whole = keystore_failure_text(path, err);
    assert(whole =~= "Failed FileBasedKeystore: `"@ + path + ("`, "@ + err));
    lemma_contains_middle("Failed FileBasedKeystore: `"@, path, "`, "@ + err);
}

} // verus!
