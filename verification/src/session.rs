//! The pipeline itself: parse the four inputs, then walk the fixed sequence
//! of outside steps, aborting on the first failure with its exact diagnostic.
//!
//! The outside work — resolving the home directory, loading the keystore,
//! building the execution context, connecting, building the call, signing,
//! submitting — is driven step by step: the caller performs the step a state
//! asks for and feeds the outcome back through [`advance`].

use vstd::prelude::*;
use crate::diag::{
    parse_failure_text, parse_failure_message, home_failure_text, keystore_failure_text,
    keystore_failure_message, runtime_failure_text, runtime_failure_message, rpc_failure_text,
    rpc_failure_message, move_call_failure_text, move_call_failure_message, sign_failure_text,
    sign_failure_message, execute_failure_text, execute_failure_message, home_failure_message,
};
use crate::hexid::{ObjectId, Address, is_valid_id_text, id_bytes_of_text, id_error_text};
use crate::plan::{keystore_path_text, keystore_path_for, rpc_endpoint_text, rpc_endpoint};

verus! {

/// The four decoded inputs of a call: three object identifiers and the
/// signer's address.
#[derive(Debug)]
pub struct ParsedRequest {
    /// The contract object to call.
    pub evm_id: ObjectId,
    /// The contract's state object, passed (stringified) as first argument.
    pub evm_state_id: ObjectId,
    /// The gas object paying for the call.
    pub gas_id: ObjectId,
    /// The account that signs the transaction.
    pub signer: Address,
}

impl ParsedRequest {
    /// All four values hold their full twenty bytes.
    pub open spec fn wf(&self) -> bool {
        self.evm_id.wf() && self.evm_state_id.wf() && self.gas_id.wf() && self.signer.wf()
    }
}

/// Parse the four textual inputs in order, stopping at the first that is
/// rejected with a diagnostic naming its target type and the offending text.
pub fn parse_request(evm_id: &str, evm_state_id: &str, gas_id: &str, signer: &str) -> (r: Result<
    ParsedRequest,
    String,
>)
    ensures
        r is Ok <==> is_valid_id_text(evm_id@) && is_valid_id_text(evm_state_id@)
            && is_valid_id_text(gas_id@) && is_valid_id_text(signer@),
        r matches Ok(q) ==> q.wf() && q.evm_id@ == id_bytes_of_text(evm_id@) && q.evm_state_id@
            == id_bytes_of_text(evm_state_id@) && q.gas_id@ == id_bytes_of_text(gas_id@)
            && q.signer@ == id_bytes_of_text(signer@),
        !is_valid_id_text(evm_id@) ==> (r matches Err(m) && m@ == parse_failure_text(
            "ObjectID"@,
            evm_id@,
            id_error_text(evm_id@),
        )),
        is_valid_id_text(evm_id@) && !is_valid_id_text(evm_state_id@) ==> (r matches Err(m) && m@
            == parse_failure_text("ObjectID"@, evm_state_id@, id_error_text(evm_state_id@))),
        is_valid_id_text(evm_id@) && is_valid_id_text(evm_state_id@) && !is_valid_id_text(gas_id@)
            ==> (r matches Err(m) && m@ == parse_failure_text(
            "ObjectID"@,
            gas_id@,
            id_error_text(gas_id@),
        )),
        is_valid_id_text(evm_id@) && is_valid_id_text(evm_state_id@) && is_valid_id_text(gas_id@)
            && !is_valid_id_text(signer@) ==> (r matches Err(m) && m@ == parse_failure_text(
            "SuiAddress"@,
            signer@,
            id_error_text(signer@),
        )),
{
    let evm_id_v = match ObjectId::parse(evm_id) {
        Ok(v) => v,
        Err(e) => {
            return Err(parse_failure_message("ObjectID", evm_id, e.describe()));
        },
    };
    let evm_state_id_v = match ObjectId::parse(evm_state_id) {
        Ok(v) => v,
        Err(e) => {
            return Err(parse_failure_message("ObjectID", evm_state_id, e.describe()));
        },
    };
    let gas_id_v = match ObjectId::parse(gas_id) {
        Ok(v) => v,
        Err(e) => {
            return Err(parse_failure_message("ObjectID", gas_id, e.describe()));
        },
    };
    let signer_v = match Address::parse(signer) {
        Ok(v) => v,
        Err(e) => {
            return Err(parse_failure_message("SuiAddress", signer, e.describe()));
        },
    };
    Ok(ParsedRequest {
        evm_id: evm_id_v,
        evm_state_id: evm_state_id_v,
        gas_id: gas_id_v,
        signer: signer_v,
    })
}

/// How one outside step went: cleanly, or with a description of the failure.
pub enum StepOutcome {
    /// The step succeeded.
    Success,
    /// The step failed; the text describes the underlying error.
    Failure(String),
}

/// Where the pipeline stands. Every state up to [`SessionState::Executing`]
/// names the one outside step the caller must perform next.
pub enum SessionState {
    /// Ask the platform for the home directory.
    ResolvingHome,
    /// Load or create the keystore at `path`.
    LoadingKeystore { path: String },
    /// Build the single-threaded execution context.
    BuildingRuntime,
    /// Connect to the fixed endpoint.
    Connecting,
    /// Build the contract call.
    BuildingCall,
    /// Sign the transaction bytes.
    Signing,
    /// Submit the signed transaction for quorum execution.
    Executing,
    /// Every step succeeded; there is nothing to report.
    Completed,
    /// A step failed; `message` is the diagnostic to hand back.
    Failed { message: String },
}

/// What the caller observed while performing the step a state asked for.
pub enum Event {
    /// The home directory, if the platform reported one.
    HomeResolved(Option<String>),
    /// The keystore was loaded or created, or not.
    KeystoreLoaded(StepOutcome),
    /// The execution context was built, or not.
    RuntimeBuilt(StepOutcome),
    /// The connection to the fixed endpoint was made, or not.
    Connected(StepOutcome),
    /// The contract call was built, or not.
    CallBuilt(StepOutcome),
    /// The transaction was signed, or not.
    Signed(StepOutcome),
    /// The transaction was submitted and executed, or not.
    Executed(StepOutcome),
}

/// The transition relation of the pipeline: from `state`, on `event`, the
/// pipeline moves to `r`. A failure outcome always moves to
/// [`SessionState::Failed`] with that step's exact diagnostic; an event that
/// does not answer the pending step leaves the state unchanged.
pub open spec fn advances_to(state: SessionState, event: Event, r: SessionState) -> bool {
    match (state, event) {
        (SessionState::ResolvingHome, Event::HomeResolved(home)) => match home {
            Some(h) => r matches SessionState::LoadingKeystore { path } && path@
                == keystore_path_text(h@),
            None => r matches SessionState::Failed { message } && message@
                == home_failure_text(),
        },
        (SessionState::LoadingKeystore { path }, Event::KeystoreLoaded(o)) => match o {
            StepOutcome::Success => r is BuildingRuntime,
            StepOutcome::Failure(err) => r matches SessionState::Failed { message } && message@
                == keystore_failure_text(path@, err@),
        },
        (SessionState::BuildingRuntime, Event::RuntimeBuilt(o)) => match o {
            StepOutcome::Success => r is Connecting,
            StepOutcome::Failure(err) => r matches SessionState::Failed { message } && message@
                == runtime_failure_text(err@),
        },
        (SessionState::Connecting, Event::Connected(o)) => match o {
            StepOutcome::Success => r is BuildingCall,
            StepOutcome::Failure(err) => r matches SessionState::Failed { message } && message@
                == rpc_failure_text(rpc_endpoint_text(), err@),
        },
        (SessionState::BuildingCall, Event::CallBuilt(o)) => match o {
            StepOutcome::Success => r is Signing,
            StepOutcome::Failure(err) => r matches SessionState::Failed { message } && message@
                == move_call_failure_text(err@),
        },
        (SessionState::Signing, Event::Signed(o)) => match o {
            StepOutcome::Success => r is Executing,
            StepOutcome::Failure(err) => r matches SessionState::Failed { message } && message@
                == sign_failure_text(err@),
        },
        (SessionState::Executing, Event::Executed(o)) => match o {
            StepOutcome::Success => r is Completed,
            StepOutcome::Failure(err) => r matches SessionState::Failed { message } && message@
                == execute_failure_text(err@),
        },
        _ => r == state,
    }
}

/// Take one step of the pipeline.
pub fn advance(state: SessionState, event: Event) -> (r: SessionState)
    ensures
        advances_to(state, event, r),
{
    match (state, event) {
        (SessionState::ResolvingHome, Event::HomeResolved(home)) => match home {
            Some(h) => SessionState::LoadingKeystore { path: keystore_path_for(h.as_str()) },
            None => SessionState::Failed { message: home_failure_message() },
        },
        (SessionState::LoadingKeystore { path }, Event::KeystoreLoaded(o)) => match o {
            StepOutcome::Success => SessionState::BuildingRuntime,
            StepOutcome::Failure(err) => SessionState::Failed {
                message: keystore_failure_message(path.as_str(), err.as_str()),
            },
        },
        (SessionState::BuildingRuntime, Event::RuntimeBuilt(o)) => match o {
            StepOutcome::Success => SessionState::Connecting,
            StepOutcome::Failure(err) => SessionState::Failed {
                message: runtime_failure_message(err.as_str()),
            },
        },
        (SessionState::Connecting, Event::Connected(o)) => match o {
            StepOutcome::Success => SessionState::BuildingCall,
            StepOutcome::Failure(err) => SessionState::Failed {
                message: rpc_failure_message(rpc_endpoint(), err.as_str()),
            },
        },
        (SessionState::BuildingCall, Event::CallBuilt(o)) => match o {
            StepOutcome::Success => SessionState::Signing,
            StepOutcome::Failure(err) => SessionState::Failed {
                message: move_call_failure_message(err.as_str()),
            },
        },
        (SessionState::Signing, Event::Signed(o)) => match o {
            StepOutcome::Success => SessionState::Executing,
            StepOutcome::Failure(err) => SessionState::Failed {
                message: sign_failure_message(err.as_str()),
            },
        },
        (SessionState::Executing, Event::Executed(o)) => match o {
            StepOutcome::Success => SessionState::Completed,
            StepOutcome::Failure(err) => SessionState::Failed {
                message: execute_failure_message(err.as_str()),
            },
        },
        (s, _) => s,
    }
}

/// The final result a finished pipeline hands to its caller: a diagnostic
/// on failure, nothing on success.
pub fn finish(state: SessionState) -> (r: Option<String>)
    requires
        state is Completed || state is Failed,
    ensures
        state is Completed ==> r is None,
        state matches SessionState::Failed { message } ==> (r matches Some(m) && m@ == message@),
{
    match state {
        SessionState::Failed { message } => Some(message),
        _ => None,
    }
}

/// Whichever of the four inputs is the first to be rejected, the diagnostic
/// that [`parse_request`] promises for it contains that input's target type
/// name and the offending text itself.
pub proof fn lemma_parse_request_names_offender(
    evm_id: Seq<char>,
    evm_state_id: Seq<char>,
    gas_id: Seq<char>,
    signer: Seq<char>,
)
    ensures
        !is_valid_id_text(evm_id) ==> crate::diag::contains_text(
            parse_failure_text("ObjectID"@, evm_id, id_error_text(evm_id)),
            evm_id,
        ),
        !is_valid_id_text(evm_state_id) ==> crate::diag::contains_text(
            parse_failure_text("ObjectID"@, evm_state_id, id_error_text(evm_state_id)),
            evm_state_id,
        ),
        !is_valid_id_text(gas_id) ==> crate::diag::contains_text(
            parse_failure_text("ObjectID"@, gas_id, id_error_text(gas_id)),
            gas_id,
        ),
        !is_valid_id_text(signer) ==> crate::diag::contains_text(
            parse_failure_text("SuiAddress"@, signer, id_error_text(signer)),
            signer,
        ),
        crate::diag::contains_text(
            parse_failure_text("SuiAddress"@, signer, id_error_text(signer)),
            "SuiAddress"@,
        ),
        crate::diag::contains_text(
            parse_failure_text("ObjectID"@, evm_id, id_error_text(evm_id)),
            "ObjectID"@,
        ),
{
    crate::diag::lemma_parse_failure_names_type_and_input("ObjectID"@, evm_id, id_error_text(evm_id));
    crate::diag::lemma_parse_failure_names_type_and_input(
        "ObjectID"@,
        evm_state_id,
        id_error_text(evm_state_id),
    );
    crate::diag::lemma_parse_failure_names_type_and_input("ObjectID"@, gas_id, id_error_text(gas_id));
    crate::diag::lemma_parse_failure_names_type_and_input(
        "SuiAddress"@,
        signer,
        id_error_text(signer),
    );
}

/// When the home directory cannot be resolved, the pipeline fails with the
/// exact fixed diagnostic — no other input reaches this decision, so the
/// diagnostic is the same whatever else was supplied.
pub proof fn lemma_home_unresolved_fixed_diagnostic(event: Event, r: SessionState)
    requires
        event matches Event::HomeResolved(h) && h is None,
        advances_to(SessionState::ResolvingHome, event, r),
    ensures
        r matches SessionState::Failed { message } && message@ == home_failure_text(),
{
}

/// When the connection to the fixed endpoint fails, the diagnostic the
/// pipeline fails with contains the endpoint's address.
pub proof fn lemma_connect_failure_names_endpoint(event: Event, r: SessionState)
    requires
        event matches Event::Connected(o) && o is Failure,
        advances_to(SessionState::Connecting, event, r),
    ensures
        r matches SessionState::Failed { message } && crate::diag::contains_text(
            message@,
            rpc_endpoint_text(),
        ),
{
    let err = event->Connected_0->Failure_0;
    crate::diag::lemma_rpc_failure_names_endpoint(rpc_endpoint_text(), err@);
}

/// A failure diagnostic is final: once the pipeline has failed, no further
/// event moves it anywhere else or changes the diagnostic.
pub proof fn lemma_failure_is_terminal(state: SessionState, event: Event, r: SessionState)
    requires
        state is Failed,
        advances_to(state, event, r),
    ensures
        r == state,
{
}

/// Success is final too.
pub proof fn lemma_completion_is_terminal(state: SessionState, event: Event, r: SessionState)
    requires
        state is Completed,
        advances_to(state, event, r),
    ensures
        r == state,
{
}

/// Whether `events` answers each of the seven steps, in order, with success:
/// a resolved home directory, then six clean outcomes.
pub open spec fn all_success_events(events: Seq<Event>) -> bool {
    &&& events.len() == 7
    &&& events[0] matches Event::HomeResolved(h) && h is Some
    &&& events[1] matches Event::KeystoreLoaded(o) && o is Success
    &&& events[2] matches Event::RuntimeBuilt(o) && o is Success
    &&& events[3] matches Event::Connected(o) && o is Success
    &&& events[4] matches Event::CallBuilt(o) && o is Success
    &&& events[5] matches Event::Signed(o) && o is Success
    &&& events[6] matches Event::Executed(o) && o is Success
}

/// Whether `states` is a walk of the pipeline under `events`: one more state
/// than events, each consecutive pair related by the transition relation.
pub open spec fn is_run(states: Seq<SessionState>, events: Seq<Event>) -> bool {
    &&& states.len() == events.len() + 1
    &&& forall|i: int|
        0 <= i < events.len() ==> advances_to(states[i], #[trigger] events[i], states[i + 1])
}

/// A pipeline that starts at the beginning and sees every step succeed ends
/// completed, never passing through a failure: the call sequence finishes
/// without an error string to report.
pub proof fn lemma_successful_run_completes(states: Seq<SessionState>, events: Seq<Event>)
    requires
        states.len() == 8,
        states[0] is ResolvingHome,
        is_run(states, events),
        all_success_events(events),
    ensures
        states[7] is Completed,
        forall|i: int| 0 <= i < 8 ==> !((#[trigger] states[i]) is Failed),
{
    assert(advances_to(states[0], events[0], states[1]));
    assert(advances_to(states[1], events[1], states[2]));
    assert(advances_to(states[2], events[2], states[3]));
    assert(advances_to(states[3], events[3], states[4]));
    assert(advances_to(states[4], events[4], states[5]));
    assert(advances_to(states[5], events[5], states[6]));
    assert(advances_to(states[6], events[6], states[7]));
    assert(states[1] is LoadingKeystore);
    assert(states[2] is BuildingRuntime);
    assert(states[3] is Connecting);
    assert(states[4] is BuildingCall);
    assert(states[5] is Signing);
    assert(states[6] is Executing);
}

} // verus!
