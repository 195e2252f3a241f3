//! Enforcement of a heap allocation strategy: how many pages an instance's
//! linear memory starts with, how far it may grow, and which requests for
//! memory are refused.

use crate::executor::error::Error;
use crate::executor::wasm_runtime::{CallContext, HeapAllocStrategy};
use vstd::prelude::*;

verus! {

/// A heap page is exactly this many bytes.
pub const WASM_PAGE_SIZE: u32 = 65536;

/// The absolute ceiling of a linear memory: 4 GiB expressed in pages.
pub const MAX_WASM_PAGES: u32 = 65536;

impl HeapAllocStrategy {
    /// The byte limit that replaces the page ceiling in offchain calls, if any.
    pub open spec fn spec_offchain_heap_max_allocation(&self) -> Option<u32> {
        match *self {
            HeapAllocStrategy::Static { offchain_heap_max_allocation, .. } =>
                offchain_heap_max_allocation,
            HeapAllocStrategy::Dynamic { offchain_heap_max_allocation, .. } =>
                offchain_heap_max_allocation,
        }
    }

    /// The byte limit that replaces the page ceiling in offchain calls, if any.
    #[verifier::when_used_as_spec(spec_offchain_heap_max_allocation)]
    pub fn offchain_heap_max_allocation(&self) -> (limit: Option<u32>)
        ensures
            limit == self.spec_offchain_heap_max_allocation(),
    {
        match self {
            HeapAllocStrategy::Static { offchain_heap_max_allocation, .. } =>
                *offchain_heap_max_allocation,
            HeapAllocStrategy::Dynamic { offchain_heap_max_allocation, .. } =>
                *offchain_heap_max_allocation,
        }
    }

    /// The pages an instance holds right after instantiation, for a module
    /// that declares `declared_initial_pages`.
    pub open spec fn spec_initial_pages(&self, declared_initial_pages: u32) -> nat {
        match *self {
            HeapAllocStrategy::Static { extra_pages, .. } =>
                (declared_initial_pages + extra_pages) as nat,
            HeapAllocStrategy::Dynamic { .. } => declared_initial_pages as nat,
        }
    }

    /// The pages an instance holds right after instantiation.
    pub fn initial_pages(&self, declared_initial_pages: u32) -> (pages: u64)
        ensures
            pages == self.spec_initial_pages(declared_initial_pages),
    {
        match self {
            HeapAllocStrategy::Static { extra_pages, .. } => {
                let declared: u64 = declared_initial_pages as u64;
                let extra: u64 = *extra_pages as u64;
                declared + extra
            },
            HeapAllocStrategy::Dynamic { .. } => declared_initial_pages as u64,
        }
    }

    /// The page ceiling: the size the linear memory may never exceed.
    ///
    /// A static heap is instantiated at its ceiling. A dynamic heap may grow
    /// to `maximum_pages`, or to the absolute ceiling when that is unset.
    pub open spec fn spec_ceiling_pages(&self, declared_initial_pages: u32) -> nat {
        match *self {
            HeapAllocStrategy::Static { extra_pages, .. } =>
                (declared_initial_pages + extra_pages) as nat,
            HeapAllocStrategy::Dynamic { maximum_pages: Some(maximum), .. } => maximum as nat,
            HeapAllocStrategy::Dynamic { maximum_pages: None, .. } => MAX_WASM_PAGES as nat,
        }
    }

    /// The page ceiling: the size the linear memory may never exceed.
    pub fn ceiling_pages(&self, declared_initial_pages: u32) -> (pages: u64)
        ensures
            pages == self.spec_ceiling_pages(declared_initial_pages),
    {
        match self {
            HeapAllocStrategy::Static { extra_pages, .. } => {
                let declared: u64 = declared_initial_pages as u64;
                let extra: u64 = *extra_pages as u64;
                declared + extra
            },
            HeapAllocStrategy::Dynamic { maximum_pages: Some(maximum), .. } => *maximum as u64,
            HeapAllocStrategy::Dynamic { maximum_pages: None, .. } => MAX_WASM_PAGES as u64,
        }
    }

    /// Whether an engine can reserve the page budget: the initial size does
    /// not exceed the ceiling, and the ceiling does not exceed 4 GiB.
    pub open spec fn spec_reservable(&self, declared_initial_pages: u32) -> bool {
        &&& self.spec_initial_pages(declared_initial_pages) <= self.spec_ceiling_pages(
            declared_initial_pages,
        )
        &&& self.spec_ceiling_pages(declared_initial_pages) <= MAX_WASM_PAGES
    }

    /// Whether an engine can reserve the page budget.
    #[verifier::when_used_as_spec(spec_reservable)]
    pub fn reservable(&self, declared_initial_pages: u32) -> (yes: bool)
        ensures
            yes == self.spec_reservable(declared_initial_pages),
    {
        let initial: u64 = self.initial_pages(declared_initial_pages);
        let ceiling: u64 = self.ceiling_pages(declared_initial_pages);
        initial <= ceiling && ceiling <= MAX_WASM_PAGES as u64
    }

    /// Whether the offchain byte limit governs calls made in `context`.
    pub open spec fn spec_override_applies(&self, context: CallContext) -> bool {
        context is Offchain && self.spec_offchain_heap_max_allocation() is Some
    }

    /// Whether the offchain byte limit governs calls made in `context`.
    #[verifier::when_used_as_spec(spec_override_applies)]
    pub fn override_applies(&self, context: CallContext) -> (yes: bool)
        ensures
            yes == self.spec_override_applies(context),
    {
        match context {
            CallContext::Offchain => self.offchain_heap_max_allocation().is_some(),
            CallContext::Onchain => false,
        }
    }

    /// The effective ceiling in bytes for calls made in `context`: the
    /// offchain limit where it applies, else the page ceiling.
    pub open spec fn spec_ceiling_bytes(
        &self,
        declared_initial_pages: u32,
        context: CallContext,
    ) -> nat {
        if self.spec_override_applies(context) {
            self.spec_offchain_heap_max_allocation()->0 as nat
        } else {
            self.spec_ceiling_pages(declared_initial_pages) * 65536
        }
    }

    /// The effective ceiling in bytes for calls made in `context`.
    pub fn ceiling_bytes(&self, declared_initial_pages: u32, context: CallContext) -> (bytes: u64)
        ensures
            bytes == self.spec_ceiling_bytes(declared_initial_pages, context),
    {
        match (context, self.offchain_heap_max_allocation()) {
            (CallContext::Offchain, Some(limit)) => limit as u64,
            _ => {
                let pages: u64 = self.ceiling_pages(declared_initial_pages);
                pages * 65536
            },
        }
    }

    /// Whether a heap of `pages` pages in total fits under the effective
    /// ceiling of `context`.
    pub open spec fn spec_admits(
        &self,
        declared_initial_pages: u32,
        context: CallContext,
        pages: u32,
    ) -> bool {
        pages * 65536 <= self.spec_ceiling_bytes(declared_initial_pages, context)
    }

    /// Whether a heap of `pages` pages in total fits under the effective
    /// ceiling of `context`.
    #[verifier::when_used_as_spec(spec_admits)]
    pub fn admits(&self, declared_initial_pages: u32, context: CallContext, pages: u32) -> (yes:
        bool)
        ensures
            yes == self.spec_admits(declared_initial_pages, context, pages),
    {
        let wanted: u64 = pages as u64;
        wanted * 65536 <= self.ceiling_bytes(declared_initial_pages, context)
    }
}

/// The state of one instance's heap as plain values: the strategy it was
/// instantiated under, what its module declares, and the pages it spans now.
pub struct HeapView {
    /// The strategy that the heap was instantiated under.
    pub strategy: HeapAllocStrategy,
    /// The initial pages that the module declares.
    pub declared_initial_pages: u32,
    /// The pages that the heap spans now.
    pub current_pages: nat,
}

impl HeapView {
    /// The heap of a freshly instantiated instance.
    pub open spec fn baseline(
        strategy: HeapAllocStrategy,
        declared_initial_pages: u32,
    ) -> HeapView {
        HeapView {
            strategy,
            declared_initial_pages,
            current_pages: strategy.spec_initial_pages(declared_initial_pages),
        }
    }

    /// The pages this heap held right after instantiation.
    pub open spec fn initial_pages(self) -> nat {
        self.strategy.spec_initial_pages(self.declared_initial_pages)
    }

    /// The page ceiling of this heap.
    pub open spec fn ceiling_pages(self) -> nat {
        self.strategy.spec_ceiling_pages(self.declared_initial_pages)
    }

    /// The effective ceiling in bytes for calls made in `context`.
    pub open spec fn ceiling_bytes(self, context: CallContext) -> nat {
        self.strategy.spec_ceiling_bytes(self.declared_initial_pages, context)
    }

    /// The budget was reservable, and the heap never shrinks below its
    /// initial size nor spans more than 4 GiB.
    pub open spec fn well_formed(self) -> bool {
        &&& self.strategy.spec_reservable(self.declared_initial_pages)
        &&& self.initial_pages() <= self.current_pages <= MAX_WASM_PAGES
    }

    /// What a request for a heap of `pages` pages in total leads to: the
    /// grown heap, or an out-of-memory error where the ceiling forbids it.
    pub open spec fn request(self, pages: u32, context: CallContext) -> Result<HeapView, Error> {
        if self.strategy.spec_admits(self.declared_initial_pages, context, pages) {
            Ok(
                HeapView {
                    current_pages: if pages > self.current_pages {
                        pages as nat
                    } else {
                        self.current_pages
                    },
                    ..self
                },
            )
        } else {
            Err(Error::OutOfMemory)
        }
    }

    /// The heap after a reset: growth is discarded.
    pub open spec fn reset(self) -> HeapView {
        HeapView::baseline(self.strategy, self.declared_initial_pages)
    }
}

/// Page accounting of the linear memory that one instance exclusively owns.
#[derive(Debug)]
pub struct InstanceHeap {
    strategy: HeapAllocStrategy,
    declared_initial_pages: u32,
    current_pages: u32,
}

impl View for InstanceHeap {
    type V = HeapView;

    closed spec fn view(&self) -> HeapView {
        HeapView {
            strategy: self.strategy,
            declared_initial_pages: self.declared_initial_pages,
            current_pages: self.current_pages as nat,
        }
    }
}

impl InstanceHeap {
    #[verifier::type_invariant]
    spec fn holds_budget(self) -> bool {
        self@.well_formed()
    }

    /// Instantiates the heap of a module that declares
    /// `declared_initial_pages` under `strategy`.
    ///
    /// Fails exactly when the page budget cannot be reserved.
    pub fn instantiate(strategy: HeapAllocStrategy, declared_initial_pages: u32) -> (heap: Result<
        InstanceHeap,
        Error,
    >)
        ensures
            heap is Ok <==> strategy.spec_reservable(declared_initial_pages),
            heap matches Ok(h) ==> h@ == HeapView::baseline(strategy, declared_initial_pages)
                && h@.well_formed(),
            heap matches Err(e) ==> e == Error::CompileOrInstantiate,
    {
        if !strategy.reservable(declared_initial_pages) {
            return Err(Error::CompileOrInstantiate);
        }
        let initial: u64 = strategy.initial_pages(declared_initial_pages);
        Ok(InstanceHeap { strategy, declared_initial_pages, current_pages: initial as u32 })
    }

    /// The strategy this heap was instantiated under.
    pub fn strategy(&self) -> (strategy: HeapAllocStrategy)
        ensures
            strategy == self@.strategy,
    {
        self.strategy
    }

    /// The initial pages that the module declares.
    pub fn declared_initial_pages(&self) -> (pages: u32)
        ensures
            pages == self@.declared_initial_pages,
    {
        self.declared_initial_pages
    }

    /// The pages this heap held right after instantiation.
    pub fn initial_pages(&self) -> (pages: u32)
        ensures
            pages == self@.initial_pages(),
            self@.well_formed(),
    {
        proof {
            use_type_invariant(self);
        }
        let pages: u64 = self.strategy.initial_pages(self.declared_initial_pages);
        pages as u32
    }

    /// The page ceiling of this heap.
    pub fn ceiling_pages(&self) -> (pages: u32)
        ensures
            pages == self@.ceiling_pages(),
            self@.well_formed(),
    {
        proof {
            use_type_invariant(self);
        }
        let pages: u64 = self.strategy.ceiling_pages(self.declared_initial_pages);
        pages as u32
    }

    /// The pages this heap spans now.
    pub fn current_pages(&self) -> (pages: u32)
        ensures
            pages == self@.current_pages,
            self@.well_formed(),
    {
        proof {
            use_type_invariant(self);
        }
        self.current_pages
    }

    /// The effective ceiling in bytes for calls made in `context`.
    pub fn ceiling_bytes(&self, context: CallContext) -> (bytes: u64)
        ensures
            bytes == self@.ceiling_bytes(context),
    {
        self.strategy.ceiling_bytes(self.declared_initial_pages, context)
    }

    /// Asks for a heap of `pages` pages in total on behalf of a call made in
    /// `context`.
    ///
    /// Where the effective ceiling admits it, the heap grows to `pages` if
    /// it was smaller. Otherwise the request fails with `OutOfMemory` and
    /// the heap is left as it was.
    pub fn request_pages(&mut self, pages: u32, context: CallContext) -> (granted: Result<
        (),
        Error,
    >)
        ensures
            match old(self)@.request(pages, context) {
                Ok(next) => granted is Ok && final(self)@ == next,
                Err(e) => granted == Err::<(), Error>(e) && final(self)@ == old(self)@,
            },
            final(self)@.well_formed(),
    {
        proof {
            use_type_invariant(&*self);
        }
        if !self.strategy.admits(self.declared_initial_pages, context, pages) {
            return Err(Error::OutOfMemory);
        }
        if pages > self.current_pages {
            self.current_pages = pages;
        }
        Ok(())
    }

    /// Restores the heap to its size right after instantiation.
    pub fn reset(&mut self)
        ensures
            final(self)@ == old(self)@.reset(),
            final(self)@.well_formed(),
    {
        proof {
            use_type_invariant(&*self);
        }
        let initial: u64 = self.strategy.initial_pages(self.declared_initial_pages);
        self.current_pages = initial as u32;
    }
}

impl HeapView {
    /// Whether the effective ceiling of calls in `context` admits exactly the
    /// heaps that the page ceiling admits. It does wherever the offchain
    /// limit does not govern the call.
    pub open spec fn page_ceiling_governs(self, context: CallContext) -> bool {
        self.ceiling_bytes(context) / 65536 == self.ceiling_pages()
    }
}

/// A static heap is instantiated at its ceiling, which is the declared
/// initial pages plus the extra pages, and the ceiling stays what it is
/// through requests and resets.
pub proof fn lemma_static_heap_starts_at_its_ceiling(
    extra_pages: u32,
    offchain_heap_max_allocation: Option<u32>,
    declared_initial_pages: u32,
    pages: u32,
    context: CallContext,
)
    ensures
        ({
            let strategy = HeapAllocStrategy::Static { extra_pages, offchain_heap_max_allocation };
            let fresh = HeapView::baseline(strategy, declared_initial_pages);
            &&& fresh.current_pages == declared_initial_pages + extra_pages
            &&& fresh.ceiling_pages() == declared_initial_pages + extra_pages
            &&& fresh.reset() == fresh
            &&& fresh.request(pages, context) matches Ok(next) ==> next.ceiling_pages()
                == fresh.ceiling_pages()
        }),
{
}

/// A request beyond the ceiling of a static heap is refused with an
/// out-of-memory error and never granted, unless the call is one that the
/// offchain limit governs and that limit admits the request.
pub proof fn lemma_static_request_beyond_ceiling_is_refused(
    extra_pages: u32,
    offchain_heap_max_allocation: Option<u32>,
    heap: HeapView,
    pages: u32,
    context: CallContext,
)
    requires
        heap.strategy == (HeapAllocStrategy::Static { extra_pages, offchain_heap_max_allocation }),
        heap.well_formed(),
        pages > heap.declared_initial_pages + extra_pages,
        heap.strategy.spec_override_applies(context) ==> pages * 65536
            > offchain_heap_max_allocation->0,
    ensures
        heap.request(pages, context) == Err::<HeapView, Error>(Error::OutOfMemory),
{
}

/// Where the page ceiling governs the call, a static heap never grows: a
/// request is granted exactly when it fits under the ceiling, and a granted
/// request leaves the heap as it was.
pub proof fn lemma_static_heap_never_grows(
    extra_pages: u32,
    offchain_heap_max_allocation: Option<u32>,
    heap: HeapView,
    pages: u32,
    context: CallContext,
)
    requires
        heap.strategy == (HeapAllocStrategy::Static { extra_pages, offchain_heap_max_allocation }),
        heap.well_formed(),
        heap.page_ceiling_governs(context),
    ensures
        pages <= heap.declared_initial_pages + extra_pages ==> heap.request(pages, context) == Ok::<
            HeapView,
            Error,
        >(heap),
        pages > heap.declared_initial_pages + extra_pages ==> heap.request(pages, context) == Err::<
            HeapView,
            Error,
        >(Error::OutOfMemory),
{
}

/// The cap of a dynamic heap: `maximum_pages` where it is set, else 4 GiB
/// expressed in pages.
pub open spec fn dynamic_cap(maximum_pages: Option<u32>) -> nat {
    match maximum_pages {
        Some(maximum) => maximum as nat,
        None => MAX_WASM_PAGES as nat,
    }
}

/// A dynamic heap starts at the declared initial pages and grows on demand
/// up to its cap and no further. Where the page ceiling governs the call, a
/// request is granted exactly when it does not exceed the cap, a refused
/// one is an out-of-memory error, a heap under the cap stays under it, and
/// a request for the cap itself is granted and reaches it.
pub proof fn lemma_dynamic_growth_is_capped(
    maximum_pages: Option<u32>,
    offchain_heap_max_allocation: Option<u32>,
    heap: HeapView,
    pages: u32,
    context: CallContext,
)
    requires
        heap.strategy == (HeapAllocStrategy::Dynamic {
            maximum_pages,
            offchain_heap_max_allocation,
        }),
        heap.well_formed(),
        heap.page_ceiling_governs(context),
    ensures
        heap.reset().current_pages == heap.declared_initial_pages,
        heap.ceiling_pages() == dynamic_cap(maximum_pages),
        pages <= dynamic_cap(maximum_pages) <==> heap.request(pages, context) is Ok,
        heap.request(pages, context) matches Err(e) ==> e == Error::OutOfMemory,
        heap.request(pages, context) matches Ok(next) ==> {
            &&& heap.current_pages <= dynamic_cap(maximum_pages) ==> next.current_pages
                <= dynamic_cap(maximum_pages)
            &&& heap.current_pages <= pages ==> next.current_pages == pages
        },
        heap.current_pages <= dynamic_cap(maximum_pages) ==> (heap.request(
            dynamic_cap(maximum_pages) as u32,
            context,
        ) matches Ok(full) && full.current_pages == dynamic_cap(maximum_pages)),
{
}

/// The page ceiling governs every onchain call, and every call under a
/// strategy without an offchain limit.
pub proof fn lemma_page_ceiling_governs_without_limit(heap: HeapView, context: CallContext)
    requires
        !heap.strategy.spec_override_applies(context),
    ensures
        heap.page_ceiling_governs(context),
{
}

/// Within a call the heap only grows, whatever is requested, and neither a
/// request nor a reset changes the ceiling. A reset discards all growth: it
/// leads back to the freshly instantiated heap.
pub proof fn lemma_growth_is_monotonic_until_reset(
    heap: HeapView,
    pages: u32,
    context: CallContext,
)
    requires
        heap.well_formed(),
    ensures
        heap.request(pages, context) matches Ok(next) ==> {
            &&& next.well_formed()
            &&& next.current_pages >= heap.current_pages
            &&& next.ceiling_pages() == heap.ceiling_pages()
            &&& next.reset() == heap.reset()
        },
        heap.reset() == HeapView::baseline(heap.strategy, heap.declared_initial_pages),
        heap.reset().ceiling_pages() == heap.ceiling_pages(),
        heap.reset().well_formed(),
{
}

/// The offchain limit replaces the page ceiling in offchain calls only:
/// there the effective ceiling is the limit itself, whatever the pages say,
/// and in onchain calls it is the page ceiling, whatever the limit says.
pub proof fn lemma_offchain_limit_governs_offchain_only(
    strategy: HeapAllocStrategy,
    declared_initial_pages: u32,
    limit: u32,
)
    requires
        strategy.spec_offchain_heap_max_allocation() == Some(limit),
    ensures
        strategy.spec_ceiling_bytes(declared_initial_pages, CallContext::Offchain) == limit,
        strategy.spec_ceiling_bytes(declared_initial_pages, CallContext::Onchain)
            == strategy.spec_ceiling_pages(declared_initial_pages) * 65536,
{
}

} // verus!
