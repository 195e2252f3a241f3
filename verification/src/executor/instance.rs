//! The host's books on one instance: where it stands in its life and how
//! large its heap is, kept together through the calls that it takes.

use crate::executor::error::Error;
use crate::executor::heap::{HeapView, InstanceHeap};
use crate::executor::lifecycle::{
    call_end, spec_accepts_call, spec_call_end, spec_step, state_after_call, step, FaultPolicy,
    InstanceEvent, InstanceState,
};
use crate::executor::wasm_runtime::{result_view, CallContext, HeapAllocStrategy};
use vstd::prelude::*;

verus! {

/// The books on one instance as plain values.
pub struct ControlView {
    /// The heap of the instance.
    pub heap: HeapView,
    /// Where the instance stands in its life.
    pub state: InstanceState,
    /// What the engine does with the instance once it is faulted.
    pub policy: FaultPolicy,
}

impl ControlView {
    /// The books on a freshly created instance.
    pub open spec fn fresh(
        strategy: HeapAllocStrategy,
        declared_initial_pages: u32,
        policy: FaultPolicy,
    ) -> ControlView {
        ControlView {
            heap: HeapView::baseline(strategy, declared_initial_pages),
            state: InstanceState::Instantiated,
            policy,
        }
    }

    /// The books after the start of a call, or `None` where the instance
    /// takes no call. The call starts on the heap of a fresh instance:
    /// whatever grew before is discarded.
    pub open spec fn begin_call(self) -> Option<ControlView> {
        match spec_step(self.state, InstanceEvent::CallStarted, self.policy) {
            Some(next) => Some(ControlView { heap: self.heap.reset(), state: next, ..self }),
            None => None,
        }
    }

    /// The books after the running call asked for a heap of `pages` pages
    /// in total, or the error of a request that the ceiling forbids.
    pub open spec fn request(self, pages: u32, context: CallContext) -> Result<ControlView, Error> {
        match self.heap.request(pages, context) {
            Ok(heap) => Ok(ControlView { heap, ..self }),
            Err(e) => Err(e),
        }
    }

    /// The books after the running call ended with `result`, or `None`
    /// where no call is running.
    pub open spec fn end_call(self, result: Result<Seq<u8>, Error>) -> Option<ControlView> {
        match spec_step(self.state, spec_call_end(result), self.policy) {
            Some(next) => Some(ControlView { state: next, ..self }),
            None => None,
        }
    }

    /// The books after an explicit reset, or `None` where the instance is
    /// not faulted or the engine does not reset in place.
    pub open spec fn reset(self) -> Option<ControlView> {
        match spec_step(self.state, InstanceEvent::ResetRequested, self.policy) {
            Some(next) => Some(ControlView { heap: self.heap.reset(), state: next, ..self }),
            None => None,
        }
    }
}

/// The host's books on one instance: its heap and its place in its life.
#[derive(Debug)]
pub struct InstanceControl {
    heap: InstanceHeap,
    state: InstanceState,
    policy: FaultPolicy,
}

impl View for InstanceControl {
    type V = ControlView;

    closed spec fn view(&self) -> ControlView {
        ControlView { heap: self.heap@, state: self.state, policy: self.policy }
    }
}

impl InstanceControl {
    /// Opens the books on a new instance of a module that declares
    /// `declared_initial_pages` under `strategy`.
    ///
    /// Fails exactly when the page budget cannot be reserved.
    pub fn instantiate(
        strategy: HeapAllocStrategy,
        declared_initial_pages: u32,
        policy: FaultPolicy,
    ) -> (control: Result<InstanceControl, Error>)
        ensures
            control is Ok <==> strategy.spec_reservable(declared_initial_pages),
            control matches Ok(c) ==> c@ == ControlView::fresh(
                strategy,
                declared_initial_pages,
                policy,
            ),
            control matches Err(e) ==> e == Error::CompileOrInstantiate,
    {
        match InstanceHeap::instantiate(strategy, declared_initial_pages) {
            Ok(heap) => Ok(InstanceControl { heap, state: InstanceState::Instantiated, policy }),
            Err(e) => Err(e),
        }
    }

    /// Where the instance stands in its life.
    pub fn state(&self) -> (state: InstanceState)
        ensures
            state == self@.state,
    {
        self.state
    }

    /// What the engine does with the instance once it is faulted.
    pub fn policy(&self) -> (policy: FaultPolicy)
        ensures
            policy == self@.policy,
    {
        self.policy
    }

    /// The heap of the instance.
    pub fn heap(&self) -> (heap: &InstanceHeap)
        ensures
            heap@ == self@.heap,
    {
        &self.heap
    }

    /// Starts a call if the instance is clean, and says whether it did.
    ///
    /// A call that starts finds the heap of a fresh instance.
    pub fn begin_call(&mut self) -> (started: bool)
        ensures
            match old(self)@.begin_call() {
                Some(next) => started && final(self)@ == next,
                None => !started && final(self)@ == old(self)@,
            },
    {
        match step(self.state, InstanceEvent::CallStarted, self.policy) {
            Some(next) => {
                self.heap.reset();
                self.state = next;
                true
            },
            None => false,
        }
    }

    /// Asks for a heap of `pages` pages in total on behalf of a call made in
    /// `context`.
    ///
    /// Where the effective ceiling admits it, the heap grows to `pages` if
    /// it was smaller. Otherwise the request fails with `OutOfMemory` and
    /// the books are left as they were.
    pub fn request_pages(&mut self, pages: u32, context: CallContext) -> (granted: Result<
        (),
        Error,
    >)
        ensures
            match old(self)@.request(pages, context) {
                Ok(next) => granted is Ok && final(self)@ == next,
                Err(e) => granted == Err::<(), Error>(e) && final(self)@ == old(self)@,
            },
    {
        self.heap.request_pages(pages, context)
    }

    /// Ends the running call with `result`, and says whether a call was
    /// running.
    ///
    /// A trap leaves the instance faulted, every other end leaves it clean.
    pub fn end_call(&mut self, result: &Result<Vec<u8>, Error>) -> (ended: bool)
        ensures
            match old(self)@.end_call(result_view(*result)) {
                Some(next) => ended && final(self)@ == next,
                None => !ended && final(self)@ == old(self)@,
            },
    {
        match step(self.state, call_end(result), self.policy) {
            Some(next) => {
                self.state = next;
                true
            },
            None => false,
        }
    }

    /// Resets a faulted instance in place where the engine allows it, and
    /// says whether it did.
    pub fn reset(&mut self) -> (done: bool)
        ensures
            match old(self)@.reset() {
                Some(next) => done && final(self)@ == next,
                None => !done && final(self)@ == old(self)@,
            },
    {
        match step(self.state, InstanceEvent::ResetRequested, self.policy) {
            Some(next) => {
                self.heap.reset();
                self.state = next;
                true
            },
            None => false,
        }
    }
}

/// Every call starts from the baseline: whatever the heap grew to before,
/// in this call or an earlier one, the call that starts next finds the heap
/// of a fresh instance, and so does the first call after an explicit reset.
pub proof fn lemma_every_call_starts_from_the_baseline(control: ControlView)
    ensures
        control.begin_call() matches Some(started) ==> {
            &&& started.state is Executing
            &&& started.heap == HeapView::baseline(
                control.heap.strategy,
                control.heap.declared_initial_pages,
            )
        },
        control.reset() matches Some(clean) ==> clean.begin_call() matches Some(started)
            && started.heap == HeapView::baseline(
            control.heap.strategy,
            control.heap.declared_initial_pages,
        ),
{
}

/// A call on a clean instance that asks for memory and returns leaves an
/// instance that the next call finds as a fresh one: the next call starts in
/// the state and on the heap in which the first one started.
pub proof fn lemma_next_call_does_not_see_the_call_before(
    control: ControlView,
    pages: u32,
    context: CallContext,
    result: Result<Seq<u8>, Error>,
)
    requires
        spec_accepts_call(control.state),
        result != Err::<Seq<u8>, Error>(Error::Trap),
    ensures
        ({
            let first = control.begin_call()->0;
            let grown = match first.request(pages, context) {
                Ok(next) => next,
                Err(_) => first,
            };
            &&& control.begin_call() is Some
            &&& grown.end_call(result) matches Some(ended) && ended.begin_call() == Some(first)
        }),
{
}

/// A trap is contained: the faulted instance takes no call, an explicit
/// reset is granted exactly where the engine resets in place, and after it
/// the next call starts as on a fresh instance.
pub proof fn lemma_trap_is_contained(control: ControlView)
    requires
        spec_accepts_call(control.state),
    ensures
        ({
            let first = control.begin_call()->0;
            let faulted = first.end_call(Err(Error::Trap))->0;
            &&& first.end_call(Err(Error::Trap)) is Some
            &&& faulted.state is Faulted
            &&& faulted.begin_call() is None
            &&& faulted.reset() is Some <==> control.policy is ResetInPlace
            &&& faulted.reset() matches Some(clean) ==> clean.begin_call() == Some(first)
        }),
{
}

/// The state in which a call leaves the books is the one that its result
/// tells: faulted after a trap, clean after every other end.
pub proof fn lemma_end_call_follows_the_result(control: ControlView, result: Result<Seq<u8>, Error>)
    requires
        control.state is Executing,
    ensures
        control.end_call(result) matches Some(ended) && ended.state == state_after_call(result)
            && ended.heap == control.heap && ended.policy == control.policy,
{
}

/// Books that are kept through a call, from its start on a clean instance
/// to its end, are in the state that the contract of a call asks of the
/// instance: clean unless the call trapped.
pub proof fn lemma_books_follow_the_call_contract(
    control: ControlView,
    result: Result<Seq<u8>, Error>,
)
    requires
        spec_accepts_call(control.state),
    ensures
        control.begin_call() matches Some(started) && started.end_call(result) matches Some(ended)
            && ended.state == state_after_call(result),
{
}

} // verus!
