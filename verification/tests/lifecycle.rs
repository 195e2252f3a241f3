use substrate_host::executor::error::Error;
use substrate_host::executor::lifecycle::{
    accepts_call, call_end, step, FaultPolicy, InstanceEvent, InstanceState,
};

const STATES: [InstanceState; 4] = [
    InstanceState::Instantiated,
    InstanceState::Executing,
    InstanceState::Faulted,
    InstanceState::Reset,
];

const EVENTS: [InstanceEvent; 4] = [
    InstanceEvent::CallStarted,
    InstanceEvent::CallReturned,
    InstanceEvent::CallTrapped,
    InstanceEvent::ResetRequested,
];

#[test]
fn the_listed_transitions() {
    for policy in [FaultPolicy::ResetInPlace, FaultPolicy::Discard] {
        assert_eq!(
            step(InstanceState::Instantiated, InstanceEvent::CallStarted, policy),
            Some(InstanceState::Executing)
        );
        assert_eq!(
            step(InstanceState::Executing, InstanceEvent::CallReturned, policy),
            Some(InstanceState::Reset)
        );
        assert_eq!(
            step(InstanceState::Executing, InstanceEvent::CallTrapped, policy),
            Some(InstanceState::Faulted)
        );
        assert_eq!(
            step(InstanceState::Reset, InstanceEvent::CallStarted, policy),
            Some(InstanceState::Executing)
        );
    }
    assert_eq!(
        step(InstanceState::Faulted, InstanceEvent::ResetRequested, FaultPolicy::ResetInPlace),
        Some(InstanceState::Reset)
    );
    assert_eq!(
        step(InstanceState::Faulted, InstanceEvent::ResetRequested, FaultPolicy::Discard),
        None
    );
}

#[test]
fn no_other_transition_exists() {
    let mut allowed = 0;
    for state in STATES {
        for event in EVENTS {
            for policy in [FaultPolicy::ResetInPlace, FaultPolicy::Discard] {
                if step(state, event, policy).is_some() {
                    allowed += 1;
                }
            }
        }
    }
    // Four transitions under either policy, and the reset in place.
    assert_eq!(allowed, 9);
}

#[test]
fn a_faulted_instance_takes_no_call() {
    for policy in [FaultPolicy::ResetInPlace, FaultPolicy::Discard] {
        assert_eq!(step(InstanceState::Faulted, InstanceEvent::CallStarted, policy), None);
        assert_eq!(step(InstanceState::Faulted, InstanceEvent::CallReturned, policy), None);
        assert_eq!(step(InstanceState::Faulted, InstanceEvent::CallTrapped, policy), None);
    }
    assert!(!accepts_call(InstanceState::Faulted));
    assert!(!accepts_call(InstanceState::Executing));
    assert!(accepts_call(InstanceState::Instantiated));
    assert!(accepts_call(InstanceState::Reset));
}

#[test]
fn one_call_at_a_time() {
    for policy in [FaultPolicy::ResetInPlace, FaultPolicy::Discard] {
        assert_eq!(step(InstanceState::Executing, InstanceEvent::CallStarted, policy), None);
        assert_eq!(step(InstanceState::Executing, InstanceEvent::ResetRequested, policy), None);
    }
}

#[test]
fn only_a_trap_faults() {
    assert_eq!(call_end(&Ok(vec![1, 2, 3])), InstanceEvent::CallReturned);
    assert_eq!(call_end(&Ok(Vec::new())), InstanceEvent::CallReturned);
    assert_eq!(call_end(&Err(Error::Trap)), InstanceEvent::CallTrapped);
    assert_eq!(call_end(&Err(Error::MethodNotFound)), InstanceEvent::CallReturned);
    assert_eq!(call_end(&Err(Error::OutOfMemory)), InstanceEvent::CallReturned);
    assert_eq!(call_end(&Err(Error::CompileOrInstantiate)), InstanceEvent::CallReturned);
}

#[test]
fn trap_then_reset_then_call() {
    let policy = FaultPolicy::ResetInPlace;
    let mut state = InstanceState::Instantiated;
    for (event, expected) in [
        (InstanceEvent::CallStarted, InstanceState::Executing),
        (InstanceEvent::CallTrapped, InstanceState::Faulted),
        (InstanceEvent::ResetRequested, InstanceState::Reset),
        (InstanceEvent::CallStarted, InstanceState::Executing),
        (InstanceEvent::CallReturned, InstanceState::Reset),
    ] {
        state = step(state, event, policy).unwrap();
        assert_eq!(state, expected);
    }
}
