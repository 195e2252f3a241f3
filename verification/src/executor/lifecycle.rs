//! The life of one instance: when it may start a call, what the end of a
//! call makes of it, and how a faulted instance comes back into use.

use crate::executor::error::Error;
use crate::executor::wasm_runtime::result_view;
use vstd::prelude::*;

verus! {

/// Where an instance stands between and during calls.
#[derive(Debug, Copy, Clone, PartialEq, Eq, Hash, Structural)]
pub enum InstanceState {
    /// Freshly created, at its baseline; no call was made yet.
    Instantiated,
    /// A call is running. An instance processes one call at a time.
    Executing,
    /// The last call trapped. The guest-visible state is not to be trusted.
    Faulted,
    /// Back at the baseline after a call or an explicit reset.
    Reset,
}

/// What happens to an instance.
#[derive(Debug, Copy, Clone, PartialEq, Eq, Hash, Structural)]
pub enum InstanceEvent {
    /// A call starts.
    CallStarted,
    /// The running call came to its end without a trap.
    CallReturned,
    /// The running call was aborted by a trap.
    CallTrapped,
    /// The owner asks for an explicit reset to the baseline.
    ResetRequested,
}

/// What an engine does with a faulted instance. An engine picks one policy
/// and keeps to it.
#[derive(Debug, Copy, Clone, PartialEq, Eq, Hash, Structural)]
pub enum FaultPolicy {
    /// A faulted instance can be reset in place and used again.
    ResetInPlace,
    /// A faulted instance is never used again.
    Discard,
}

/// The transitions of an instance; `None` where `event` is not allowed in
/// `state`.
///
/// A call starts only from a clean instance. A call that returns leaves the
/// instance clean; one that traps leaves it faulted. A faulted instance
/// accepts nothing but an explicit reset, and that only where the engine
/// resets in place.
pub open spec fn spec_step(
    state: InstanceState,
    event: InstanceEvent,
    policy: FaultPolicy,
) -> Option<InstanceState> {
    match (state, event) {
        (InstanceState::Instantiated, InstanceEvent::CallStarted) => Some(InstanceState::Executing),
        (InstanceState::Reset, InstanceEvent::CallStarted) => Some(InstanceState::Executing),
        (InstanceState::Executing, InstanceEvent::CallReturned) => Some(InstanceState::Reset),
        (InstanceState::Executing, InstanceEvent::CallTrapped) => Some(InstanceState::Faulted),
        (InstanceState::Faulted, InstanceEvent::ResetRequested) => if policy is ResetInPlace {
            Some(InstanceState::Reset)
        } else {
            None
        },
        _ => None,
    }
}

/// The state that `event` leads to from `state`, or `None` where the event
/// is not allowed there.
#[verifier::when_used_as_spec(spec_step)]
pub fn step(state: InstanceState, event: InstanceEvent, policy: FaultPolicy) -> (next: Option<
    InstanceState,
>)
    ensures
        next == spec_step(state, event, policy),
{
    match (state, event) {
        (InstanceState::Instantiated, InstanceEvent::CallStarted) => Some(InstanceState::Executing),
        (InstanceState::Reset, InstanceEvent::CallStarted) => Some(InstanceState::Executing),
        (InstanceState::Executing, InstanceEvent::CallReturned) => Some(InstanceState::Reset),
        (InstanceState::Executing, InstanceEvent::CallTrapped) => Some(InstanceState::Faulted),
        (InstanceState::Faulted, InstanceEvent::ResetRequested) => match policy {
            FaultPolicy::ResetInPlace => Some(InstanceState::Reset),
            FaultPolicy::Discard => None,
        },
        _ => None,
    }
}

/// Whether a call may start in `state`: only on a clean instance.
pub open spec fn spec_accepts_call(state: InstanceState) -> bool {
    state is Instantiated || state is Reset
}

/// Whether a call may start in `state`.
#[verifier::when_used_as_spec(spec_accepts_call)]
pub fn accepts_call(state: InstanceState) -> (yes: bool)
    ensures
        yes == spec_accepts_call(state),
{
    match state {
        InstanceState::Instantiated => true,
        InstanceState::Reset => true,
        _ => false,
    }
}

/// The event that the end of a call amounts to: a trap faults the instance,
/// every other end, an error value included, is a return.
pub open spec fn spec_call_end(result: Result<Seq<u8>, Error>) -> InstanceEvent {
    if result == Err::<Seq<u8>, Error>(Error::Trap) {
        InstanceEvent::CallTrapped
    } else {
        InstanceEvent::CallReturned
    }
}

/// The state that a call leaves the instance in: faulted after a trap, and
/// clean after every other end.
pub open spec fn state_after_call(result: Result<Seq<u8>, Error>) -> InstanceState {
    if result == Err::<Seq<u8>, Error>(Error::Trap) {
        InstanceState::Faulted
    } else {
        InstanceState::Reset
    }
}

/// The event that the end of a call with `result` amounts to.
pub fn call_end(result: &Result<Vec<u8>, Error>) -> (event: InstanceEvent)
    ensures
        event == spec_call_end(result_view(*result)),
{
    match result {
        Err(Error::Trap) => InstanceEvent::CallTrapped,
        _ => InstanceEvent::CallReturned,
    }
}

/// The state after the events of `trace` in turn, or `None` as soon as one
/// of them is not allowed.
pub open spec fn run(
    state: InstanceState,
    trace: Seq<InstanceEvent>,
    policy: FaultPolicy,
) -> Option<InstanceState>
    decreases trace.len(),
{
    if trace.len() == 0 {
        Some(state)
    } else {
        match spec_step(state, trace[0], policy) {
            Some(next) => run(next, trace.drop_first(), policy),
            None => None,
        }
    }
}

/// A call starts exactly on a clean instance, and then the instance is
/// executing.
pub proof fn lemma_call_starts_on_clean_instance(state: InstanceState, policy: FaultPolicy)
    ensures
        spec_step(state, InstanceEvent::CallStarted, policy) is Some <==> spec_accepts_call(state),
        spec_accepts_call(state) ==> spec_step(state, InstanceEvent::CallStarted, policy) == Some(
            InstanceState::Executing,
        ),
{
}

/// A faulted instance is not used again without an explicit reset: the one
/// event it accepts is a reset, where the engine resets in place, and under
/// the other policy it accepts nothing.
pub proof fn lemma_faulted_needs_reset(event: InstanceEvent, policy: FaultPolicy)
    ensures
        spec_step(InstanceState::Faulted, event, policy) is Some <==> event is ResetRequested
            && policy is ResetInPlace,
        spec_step(InstanceState::Faulted, event, policy) matches Some(next) ==> next is Reset,
{
}

/// One unfolding of `run`.
proof fn lemma_run_unfolds(state: InstanceState, trace: Seq<InstanceEvent>, policy: FaultPolicy)
    ensures
        trace.len() == 0 ==> run(state, trace, policy) == Some(state),
        trace.len() > 0 ==> run(state, trace, policy) == match spec_step(state, trace[0], policy) {
            Some(next) => run(next, trace.drop_first(), policy),
            None => None,
        },
{
}

/// The state after a trace and one more event is the step that the event
/// makes from the state after the trace.
pub proof fn lemma_run_extends(
    state: InstanceState,
    trace: Seq<InstanceEvent>,
    event: InstanceEvent,
    policy: FaultPolicy,
)
    ensures
        run(state, trace.push(event), policy) == match run(state, trace, policy) {
            Some(reached) => spec_step(reached, event, policy),
            None => None,
        },
    decreases trace.len(),
{
    if trace.len() == 0 {
        assert(trace.push(event).drop_first() =~= trace);
        lemma_run_unfolds(state, trace.push(event), policy);
        match spec_step(state, event, policy) {
            Some(next) => {
                lemma_run_unfolds(next, trace, policy);
            },
            None => {},
        }
    } else {
        assert(trace.push(event).drop_first() =~= trace.drop_first().push(event));
        assert(trace.push(event)[0] == trace[0]);
        match spec_step(state, trace[0], policy) {
            Some(next) => {
                lemma_run_extends(next, trace.drop_first(), event, policy);
            },
            None => {},
        }
    }
}

/// Every state is entered by the rules, whatever came before: after any
/// trace an instance is executing only if a call just started, faulted only
/// if a call just trapped, and clean only if a call just returned or a
/// faulted instance was just reset in place.
pub proof fn lemma_states_are_entered_by_rule(
    state: InstanceState,
    trace: Seq<InstanceEvent>,
    event: InstanceEvent,
    policy: FaultPolicy,
)
    ensures
        run(state, trace.push(event), policy) matches Some(reached) ==> {
            &&& reached is Executing <==> event is CallStarted
            &&& reached is Faulted <==> event is CallTrapped
            &&& reached is Reset <==> event is CallReturned || event is ResetRequested
            &&& event is ResetRequested ==> policy is ResetInPlace && run(state, trace, policy)
                == Some(InstanceState::Faulted)
            &&& event is CallStarted ==> (run(state, trace, policy) matches Some(before)
                && spec_accepts_call(before))
        },
{
    lemma_run_extends(state, trace, event, policy);
}

/// A call on a clean instance, from its start to its end, leaves the
/// instance in the state that its result tells.
pub proof fn lemma_call_leads_to_state_after_call(
    state: InstanceState,
    result: Result<Seq<u8>, Error>,
    policy: FaultPolicy,
)
    requires
        spec_accepts_call(state),
    ensures
        run(state, seq![InstanceEvent::CallStarted, spec_call_end(result)], policy) == Some(
            state_after_call(result),
        ),
        spec_accepts_call(state_after_call(result)) <==> result != Err::<Seq<u8>, Error>(
            Error::Trap,
        ),
{
    let trace = seq![InstanceEvent::CallStarted, spec_call_end(result)];
    lemma_run_unfolds(state, trace, policy);
    lemma_run_unfolds(InstanceState::Executing, trace.drop_first(), policy);
    lemma_run_unfolds(state_after_call(result), trace.drop_first().drop_first(), policy);
}

} // verus!
