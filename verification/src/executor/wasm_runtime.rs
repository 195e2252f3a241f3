//! Definitions for a wasm runtime.

use crate::executor::error::Error;
use crate::executor::heap::dynamic_cap;
use crate::executor::lifecycle::{spec_accepts_call, state_after_call, InstanceState};
use vstd::prelude::*;

verus! {

/// Default heap allocation pages.
pub const DEFAULT_HEAP_ALLOC_PAGES: u32 = 2048;

/// The default extra heap pages for offchain execution, which is 30x the
/// default extra pages for onchain execution.
pub const DEFAULT_OFFCHAIN_HEAP_PAGES: u32 = 61440;

/// The default max allocation for offchain execution is 3GiB.
pub const DEFAULT_OFFCHAIN_HEAP_MAX_ALLOCATION: u32 = 3221225472;

/// The context in which a call is done, fixed for the duration of the call.
#[derive(Debug, Copy, Clone, PartialEq, Eq, Hash, Structural)]
pub enum CallContext {
    /// The call is auxiliary: it may use the strategy's offchain override.
    Offchain,
    /// The call is consensus-critical: bounded and deterministic.
    Onchain,
}

/// Memory accounting of one completed call, sampled once after it ended.
#[derive(Debug, Copy, Clone, PartialEq, Eq, Hash, Structural)]
pub struct AllocationStats {
    /// The number of bytes allocated when the call ended.
    pub bytes_allocated: u32,
    /// The maximum that `bytes_allocated` ever reached.
    pub bytes_allocated_peak: u32,
    /// The sum of every allocation made during the call.
    pub bytes_allocated_sum: u128,
    /// The amount of address space, in bytes, used by the allocator.
    pub address_space_used: u32,
}

/// Defines the heap pages allocation strategy the wasm runtime should use.
///
/// A heap page is defined as 64KiB of memory.
#[derive(Debug, Copy, Clone, PartialEq, Eq, Hash, Structural)]
pub enum HeapAllocStrategy {
    /// Allocate a static number of heap pages.
    ///
    /// The total number of allocated heap pages is the initial number of heap
    /// pages requested by the wasm file plus the `extra_pages`.
    Static {
        /// The number of pages that will be added on top of the initial heap
        /// pages requested by the wasm file.
        extra_pages: u32,
        /// Overwrite the maximum possible heap allocation in the offchain
        /// context if different than `None`.
        offchain_heap_max_allocation: Option<u32>,
    },
    /// Allocate the initial heap pages as requested by the wasm file and then
    /// allow it to grow dynamically.
    Dynamic {
        /// The absolute maximum size of the linear memory (in pages).
        ///
        /// When `Some(_)` the linear memory will be allowed to grow up to this
        /// limit. When `None` the linear memory will be allowed to grow up to
        /// the maximum limit supported by WASM (4GB).
        maximum_pages: Option<u32>,
        /// Overwrite the maximum possible heap allocation in the offchain
        /// context if different than `None`.
        offchain_heap_max_allocation: Option<u32>,
    },
}

/// The strategy used for onchain execution when the operator gives none.
pub open spec fn spec_default_heap_alloc_strategy() -> HeapAllocStrategy {
    HeapAllocStrategy::Static { extra_pages: 2048, offchain_heap_max_allocation: None }
}

/// Default heap allocation strategy for onchain execution.
#[verifier::when_used_as_spec(spec_default_heap_alloc_strategy)]
pub fn default_heap_alloc_strategy() -> (strategy: HeapAllocStrategy)
    ensures
        strategy == spec_default_heap_alloc_strategy(),
{
    HeapAllocStrategy::Static {
        extra_pages: DEFAULT_HEAP_ALLOC_PAGES,
        offchain_heap_max_allocation: None,
    }
}

/// The strategy used for offchain execution when the operator gives none.
pub open spec fn spec_default_offchain_heap_alloc_strategy() -> HeapAllocStrategy {
    HeapAllocStrategy::Static {
        extra_pages: 61440,
        offchain_heap_max_allocation: Some(3221225472u32),
    }
}

/// Default heap allocation strategy for offchain execution.
#[verifier::when_used_as_spec(spec_default_offchain_heap_alloc_strategy)]
pub fn default_offchain_heap_alloc_strategy() -> (strategy: HeapAllocStrategy)
    ensures
        strategy == spec_default_offchain_heap_alloc_strategy(),
{
    HeapAllocStrategy::Static {
        extra_pages: DEFAULT_OFFCHAIN_HEAP_PAGES,
        offchain_heap_max_allocation: Some(DEFAULT_OFFCHAIN_HEAP_MAX_ALLOCATION),
    }
}

/// The strategy that a call in `context` falls back on when the operator
/// gives none: each context has its own default.
pub open spec fn spec_default_strategy_for(context: CallContext) -> HeapAllocStrategy {
    match context {
        CallContext::Onchain => spec_default_heap_alloc_strategy(),
        CallContext::Offchain => spec_default_offchain_heap_alloc_strategy(),
    }
}

/// The strategy for calls in `context`: the one that the operator
/// configured for that context, or exactly the default where there is none.
pub fn strategy_or_default(
    configured: Option<HeapAllocStrategy>,
    context: CallContext,
) -> (strategy: HeapAllocStrategy)
    ensures
        strategy == match configured {
            Some(chosen) => chosen,
            None => spec_default_strategy_for(context),
        },
{
    match configured {
        Some(chosen) => chosen,
        None => match context {
            CallContext::Onchain => default_heap_alloc_strategy(),
            CallContext::Offchain => default_offchain_heap_alloc_strategy(),
        },
    }
}

/// The result of a call with its output taken as a sequence of bytes.
pub open spec fn result_view(result: Result<Vec<u8>, Error>) -> Result<Seq<u8>, Error> {
    match result {
        Ok(output) => Ok(output@),
        Err(e) => Err(e),
    }
}

/// What a finished call hands back: the output bytes or the error, and the
/// allocation statistics where the engine sampled them.
pub struct CallOutcome {
    /// The output bytes of the guest, or why there are none.
    pub result: Result<Seq<u8>, Error>,
    /// The statistics sampled after the call, if any.
    pub stats: Option<AllocationStats>,
}

/// A compiled guest as the host sees it: the heap strategy it is bound to,
/// what it declares and exports, and what it answers from its clean baseline
/// to a consensus-critical call.
pub struct GuestModel {
    /// The strategy that the module was compiled under.
    pub strategy: HeapAllocStrategy,
    /// The initial pages that the bytecode declares.
    pub declared_initial_pages: u32,
    /// The names of the guest's exports.
    pub exports: Set<Seq<char>>,
    /// Whether the engine tracks allocation statistics.
    pub tracks_allocation_stats: bool,
    /// The largest heap, in pages, that an onchain call of a method on an
    /// input asks for while it runs from the baseline.
    pub onchain_demand: spec_fn(Seq<char>, Seq<u8>) -> nat,
    /// The outcome of an onchain call of a method on an input, started from
    /// the baseline.
    pub onchain: spec_fn(Seq<char>, Seq<u8>) -> CallOutcome,
}

impl GuestModel {
    /// Whether an onchain call of `method` on `data` asks for more heap than
    /// the ceiling of the guest's strategy admits.
    pub open spec fn exceeds_ceiling(self, method: Seq<char>, data: Seq<u8>) -> bool {
        (self.onchain_demand)(method, data) * 65536 > self.strategy.spec_ceiling_bytes(
            self.declared_initial_pages,
            CallContext::Onchain,
        )
    }
}

/// Whether `outcome` is one that a call of `method` on `data` in `context`
/// may have, on an instance of `guest` that was reset to its baseline.
///
/// An absent export gives `MethodNotFound` and no statistics, and nothing
/// else gives that error; no call gives an instantiation error; statistics
/// come only from an engine that tracks them; and an onchain call has the
/// one outcome that the guest determines, which is `OutOfMemory` exactly
/// where the export exists and asks for more heap than the ceiling admits.
pub open spec fn call_allowed(
    guest: GuestModel,
    method: Seq<char>,
    data: Seq<u8>,
    context: CallContext,
    outcome: CallOutcome,
) -> bool {
    &&& outcome.result == Err::<Seq<u8>, Error>(Error::MethodNotFound) <==> !guest.exports.contains(
        method,
    )
    &&& !guest.exports.contains(method) ==> outcome.stats is None
    &&& outcome.result != Err::<Seq<u8>, Error>(Error::CompileOrInstantiate)
    &&& outcome.stats is Some ==> guest.tracks_allocation_stats
    &&& context is Onchain ==> outcome == (guest.onchain)(method, data)
    &&& context is Onchain ==> (outcome.result == Err::<Seq<u8>, Error>(Error::OutOfMemory)
        <==> guest.exports.contains(method) && guest.exceeds_ceiling(method, data))
}

impl GuestModel {
    /// The guest's own answer to every onchain call is one that a call may
    /// have. A guest that an engine runs is of this kind.
    pub open spec fn well_formed(self) -> bool {
        forall|method: Seq<char>, data: Seq<u8>|
            call_allowed(
                self,
                method,
                data,
                CallContext::Onchain,
                #[trigger] (self.onchain)(method, data),
            )
    }
}

/// Whether `result` is one that a call may have when the statistics are
/// discarded: an allowed outcome exists that carries it.
pub open spec fn result_allowed(
    guest: GuestModel,
    method: Seq<char>,
    data: Seq<u8>,
    context: CallContext,
    result: Result<Seq<u8>, Error>,
) -> bool {
    exists|stats: Option<AllocationStats>| #[trigger]
        call_allowed(guest, method, data, context, CallOutcome { result, stats })
}

/// A trait that defines an abstract WASM runtime module.
///
/// This can be implemented by an execution engine.
pub trait WasmModule: Sync + Send {
    /// The guest that this module holds. An engine that is verified against
    /// this contract states its own; by default nothing is known of it.
    open spec fn guest(&self) -> GuestModel {
        arbitrary()
    }

    /// The instances that this module creates. An engine that hides the
    /// type of its instances takes `Box<dyn WasmInstance>`.
    type Instance: WasmInstance;

    /// Create a new instance.
    ///
    /// The instance runs this module's guest and has made no call yet. The
    /// only failure is an instantiation error, and a page budget that
    /// cannot be reserved is one.
    fn new_instance(&self) -> (instance: Result<Self::Instance, Error>)
        ensures
            instance matches Ok(created) ==> created.guest() == self.guest()
                && created.state() is Instantiated
                && self.guest().strategy.spec_reservable(self.guest().declared_initial_pages),
            instance matches Err(e) ==> e == Error::CompileOrInstantiate,
    ;
}

/// A trait that defines an abstract wasm module instance.
///
/// This can be implemented by an execution engine.
pub trait WasmInstance: Send {
    /// The guest that this instance runs. An engine that is verified against
    /// this contract states its own; by default nothing is known of it.
    open spec fn guest(&self) -> GuestModel {
        arbitrary()
    }

    /// Where this instance stands in its life. An engine that is verified
    /// against this contract states its own; by default nothing is known of
    /// it.
    open spec fn state(&self) -> InstanceState {
        arbitrary()
    }

    /// Call a method on this WASM instance.
    ///
    /// Before execution, instance is reset. The instance has to be clean: a
    /// faulted one is not called again.
    ///
    /// Returns the encoded result on success: what
    /// `call_with_allocation_stats` returns, without the statistics.
    fn call(&mut self, method: &str, data: &[u8], context: CallContext) -> (result: Result<
        Vec<u8>,
        Error,
    >)
        requires
            spec_accepts_call(old(self).state()),
        ensures
            final(self).guest() == old(self).guest(),
            final(self).state() == state_after_call(result_view(result)),
            result_allowed(old(self).guest(), method@, data@, context, result_view(result)),
    {
        self.call_with_allocation_stats(method, data, context).0
    }

    /// Call a method on this WASM instance.
    ///
    /// Before execution, instance is reset, so the call starts from the
    /// guest's baseline and leaves the guest as it was. The instance has to
    /// be clean: a faulted one is not called again. A trap leaves the
    /// instance faulted, every other end leaves it clean.
    ///
    /// Returns the encoded result on success, and the allocation statistics
    /// sampled once after the call where the engine tracks them.
    fn call_with_allocation_stats(
        &mut self,
        method: &str,
        data: &[u8],
        context: CallContext,
    ) -> (outcome: (Result<Vec<u8>, Error>, Option<AllocationStats>))
        requires
            spec_accepts_call(old(self).state()),
        ensures
            final(self).guest() == old(self).guest(),
            final(self).state() == state_after_call(result_view(outcome.0)),
            call_allowed(
                old(self).guest(),
                method@,
                data@,
                context,
                CallOutcome { result: result_view(outcome.0), stats: outcome.1 },
            ),
    ;

    /// Call an exported method on this WASM instance.
    ///
    /// Before execution, instance is reset. The instance has to be clean.
    ///
    /// Returns the encoded result on success, as `call` does.
    fn call_export(&mut self, method: &str, data: &[u8], context: CallContext) -> (result: Result<
        Vec<u8>,
        Error,
    >)
        requires
            spec_accepts_call(old(self).state()),
        ensures
            final(self).guest() == old(self).guest(),
            final(self).state() == state_after_call(result_view(result)),
            result_allowed(old(self).guest(), method@, data@, context, result_view(result)),
    {
        self.call(method, data, context)
    }
}

/// A boxed instance is the instance in the box: an engine may hand out its
/// instances behind a pointer, of a type that is known or not.
impl<I: WasmInstance + ?Sized> WasmInstance for Box<I> {
    open spec fn guest(&self) -> GuestModel {
        (**self).guest()
    }

    open spec fn state(&self) -> InstanceState {
        (**self).state()
    }

    fn call_with_allocation_stats(
        &mut self,
        method: &str,
        data: &[u8],
        context: CallContext,
    ) -> (outcome: (Result<Vec<u8>, Error>, Option<AllocationStats>)) {
        (**self).call_with_allocation_stats(method, data, context)
    }
}

/// Two identical onchain calls have identical outcomes, output bytes and
/// allocation statistics alike, on whichever instances of the guest and
/// under whichever engines they run: every call starts from the same
/// baseline, and the guest determines the rest.
pub proof fn lemma_onchain_calls_are_deterministic(
    guest: GuestModel,
    method: Seq<char>,
    data: Seq<u8>,
    first: CallOutcome,
    second: CallOutcome,
)
    requires
        call_allowed(guest, method, data, CallContext::Onchain, first),
        call_allowed(guest, method, data, CallContext::Onchain, second),
    ensures
        first == second,
{
}

/// Two identical onchain calls that discard the statistics have identical
/// results.
pub proof fn lemma_onchain_results_are_deterministic(
    guest: GuestModel,
    method: Seq<char>,
    data: Seq<u8>,
    first: Result<Seq<u8>, Error>,
    second: Result<Seq<u8>, Error>,
)
    requires
        result_allowed(guest, method, data, CallContext::Onchain, first),
        result_allowed(guest, method, data, CallContext::Onchain, second),
    ensures
        first == second,
        first == (guest.onchain)(method, data).result,
{
}

/// Instances of one module are isolated from each other: whatever call ran
/// on a sibling, and whatever came of it, an instance answers an onchain
/// call as the module's guest does from its baseline.
pub proof fn lemma_instances_are_isolated(
    guest: GuestModel,
    sibling_method: Seq<char>,
    sibling_data: Seq<u8>,
    sibling_context: CallContext,
    sibling_outcome: CallOutcome,
    method: Seq<char>,
    data: Seq<u8>,
    outcome: CallOutcome,
)
    requires
        call_allowed(guest, sibling_method, sibling_data, sibling_context, sibling_outcome),
        call_allowed(guest, method, data, CallContext::Onchain, outcome),
    ensures
        outcome == (guest.onchain)(method, data),
{
}

/// A call of a method that the guest does not export fails with
/// `MethodNotFound` and produces no allocation statistics.
pub proof fn lemma_absent_method_is_not_found(
    guest: GuestModel,
    method: Seq<char>,
    data: Seq<u8>,
    context: CallContext,
    outcome: CallOutcome,
)
    requires
        !guest.exports.contains(method),
        call_allowed(guest, method, data, context, outcome),
    ensures
        outcome.result == Err::<Seq<u8>, Error>(Error::MethodNotFound),
        outcome.stats is None,
{
}

/// The contract of a call can be met: on a well-formed guest every call, in
/// either context, has an outcome that is allowed, the guest's own answer.
pub proof fn lemma_every_call_has_an_allowed_outcome(
    guest: GuestModel,
    method: Seq<char>,
    data: Seq<u8>,
    context: CallContext,
)
    requires
        guest.well_formed(),
    ensures
        call_allowed(guest, method, data, context, (guest.onchain)(method, data)),
        result_allowed(guest, method, data, context, (guest.onchain)(method, data).result),
{
    let outcome = (guest.onchain)(method, data);
    assert(call_allowed(guest, method, data, CallContext::Onchain, outcome));
    assert(call_allowed(
        guest,
        method,
        data,
        context,
        CallOutcome { result: outcome.result, stats: outcome.stats },
    ));
}

/// The contract of a call is free of contradiction: well-formed guests
/// exist under every strategy, for one the guest without exports, whose
/// every call is answered with `MethodNotFound`.
pub proof fn lemma_a_well_formed_guest_exists(
    strategy: HeapAllocStrategy,
    declared_initial_pages: u32,
)
    ensures
        exists|guest: GuestModel|
            #![trigger guest.well_formed()]
            guest.well_formed() && guest.strategy == strategy && guest.declared_initial_pages
                == declared_initial_pages,
{
    let guest = GuestModel {
        strategy,
        declared_initial_pages,
        exports: Set::empty(),
        tracks_allocation_stats: false,
        onchain_demand: |method: Seq<char>, data: Seq<u8>| 0nat,
        onchain: |method: Seq<char>, data: Seq<u8>|
            CallOutcome { result: Err(Error::MethodNotFound), stats: None },
    };
    assert(guest.well_formed());
}

/// Under a static strategy an onchain call that asks for more pages than
/// the declared initial pages plus the extra pages fails with `OutOfMemory`,
/// and one that asks for no more than that does not fail with it.
pub proof fn lemma_onchain_call_is_bound_by_static_ceiling(
    guest: GuestModel,
    extra_pages: u32,
    offchain_heap_max_allocation: Option<u32>,
    method: Seq<char>,
    data: Seq<u8>,
    outcome: CallOutcome,
)
    requires
        guest.strategy == (HeapAllocStrategy::Static { extra_pages, offchain_heap_max_allocation }),
        guest.exports.contains(method),
        call_allowed(guest, method, data, CallContext::Onchain, outcome),
    ensures
        outcome.result == Err::<Seq<u8>, Error>(Error::OutOfMemory) <==> (guest.onchain_demand)(
            method,
            data,
        ) > guest.declared_initial_pages + extra_pages,
{
}

/// Under a dynamic strategy an onchain call fails with `OutOfMemory` exactly
/// where it asks for more pages than `maximum_pages`, or than 4 GiB hold
/// where that is unset.
pub proof fn lemma_onchain_call_is_bound_by_dynamic_cap(
    guest: GuestModel,
    maximum_pages: Option<u32>,
    offchain_heap_max_allocation: Option<u32>,
    method: Seq<char>,
    data: Seq<u8>,
    outcome: CallOutcome,
)
    requires
        guest.strategy == (HeapAllocStrategy::Dynamic {
            maximum_pages,
            offchain_heap_max_allocation,
        }),
        guest.exports.contains(method),
        call_allowed(guest, method, data, CallContext::Onchain, outcome),
    ensures
        outcome.result == Err::<Seq<u8>, Error>(Error::OutOfMemory) <==> (guest.onchain_demand)(
            method,
            data,
        ) > dynamic_cap(maximum_pages),
{
}

} // verus!
