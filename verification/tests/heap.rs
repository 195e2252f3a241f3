use substrate_host::executor::error::Error;
use substrate_host::executor::heap::{InstanceHeap, MAX_WASM_PAGES, WASM_PAGE_SIZE};
use substrate_host::executor::wasm_runtime::{
    default_heap_alloc_strategy, default_offchain_heap_alloc_strategy, strategy_or_default,
    CallContext, HeapAllocStrategy, DEFAULT_HEAP_ALLOC_PAGES,
    DEFAULT_OFFCHAIN_HEAP_MAX_ALLOCATION, DEFAULT_OFFCHAIN_HEAP_PAGES,
};

#[test]
fn page_constants() {
    assert_eq!(WASM_PAGE_SIZE, 65536);
    assert_eq!(MAX_WASM_PAGES, 65536);
    assert_eq!(WASM_PAGE_SIZE as u64 * MAX_WASM_PAGES as u64, 4 * 1024 * 1024 * 1024);
}

#[test]
fn defaults_are_reproduced_exactly() {
    assert_eq!(DEFAULT_HEAP_ALLOC_PAGES, 2048);
    assert_eq!(DEFAULT_OFFCHAIN_HEAP_PAGES, 61440);
    assert_eq!(DEFAULT_OFFCHAIN_HEAP_MAX_ALLOCATION, 3_221_225_472);
    assert_eq!(
        default_heap_alloc_strategy(),
        HeapAllocStrategy::Static { extra_pages: 2048, offchain_heap_max_allocation: None }
    );
    assert_eq!(
        default_offchain_heap_alloc_strategy(),
        HeapAllocStrategy::Static {
            extra_pages: 61440,
            offchain_heap_max_allocation: Some(3_221_225_472),
        }
    );
}

#[test]
fn static_default_with_sixteen_declared_pages() {
    let strategy =
        HeapAllocStrategy::Static { extra_pages: 2048, offchain_heap_max_allocation: None };
    assert_eq!(strategy.ceiling_pages(16), 2064);
    assert_eq!(strategy.initial_pages(16), 2064);
    assert_eq!(strategy.ceiling_bytes(16, CallContext::Onchain), 135_266_304);

    let mut heap = InstanceHeap::instantiate(strategy, 16).unwrap();
    assert_eq!(heap.ceiling_pages(), 2064);
    assert_eq!(heap.current_pages(), 2064);
    assert_eq!(heap.request_pages(2065, CallContext::Onchain), Err(Error::OutOfMemory));
    assert_eq!(heap.request_pages(2065, CallContext::Offchain), Err(Error::OutOfMemory));
    assert_eq!(heap.request_pages(2064, CallContext::Onchain), Ok(()));
    assert_eq!(heap.current_pages(), 2064);
}

#[test]
fn offchain_default_is_governed_by_the_byte_limit() {
    let strategy = default_offchain_heap_alloc_strategy();
    assert_eq!(strategy.offchain_heap_max_allocation(), Some(3_221_225_472));
    assert!(strategy.override_applies(CallContext::Offchain));
    assert!(!strategy.override_applies(CallContext::Onchain));
    // Offchain: the byte limit, whatever the module declares.
    assert_eq!(strategy.ceiling_bytes(16, CallContext::Offchain), 3_221_225_472);
    assert_eq!(strategy.ceiling_bytes(1000, CallContext::Offchain), 3_221_225_472);
    // Onchain: the page ceiling of 16 + 61440 pages.
    assert_eq!(strategy.ceiling_pages(16), 61456);
    assert_eq!(strategy.ceiling_bytes(16, CallContext::Onchain), 61456 * 65536);

    // The same limit with other extra pages gives the same offchain ceiling.
    let other = HeapAllocStrategy::Static {
        extra_pages: 7,
        offchain_heap_max_allocation: Some(3_221_225_472),
    };
    assert_eq!(other.ceiling_bytes(16, CallContext::Offchain), 3_221_225_472);

    // 3 GiB are 49152 pages.
    assert!(strategy.admits(16, CallContext::Offchain, 49152));
    assert!(!strategy.admits(16, CallContext::Offchain, 49153));
    assert!(strategy.admits(16, CallContext::Onchain, 61456));
    assert!(!strategy.admits(16, CallContext::Onchain, 61457));

    let mut heap = InstanceHeap::instantiate(strategy, 16).unwrap();
    assert_eq!(heap.ceiling_bytes(CallContext::Offchain), 3_221_225_472);
    assert_eq!(heap.request_pages(49153, CallContext::Offchain), Err(Error::OutOfMemory));
    assert_eq!(heap.request_pages(49152, CallContext::Offchain), Ok(()));
    assert_eq!(heap.request_pages(49153, CallContext::Onchain), Ok(()));
}

#[test]
fn static_ceiling_is_declared_plus_extra() {
    for (declared, extra) in [(0u32, 0u32), (1, 0), (0, 1), (16, 2048), (17, 64), (65535, 1)] {
        let strategy =
            HeapAllocStrategy::Static { extra_pages: extra, offchain_heap_max_allocation: None };
        let ceiling = declared + extra;
        assert_eq!(strategy.ceiling_pages(declared), ceiling as u64);
        let mut heap = InstanceHeap::instantiate(strategy, declared).unwrap();
        assert_eq!(heap.initial_pages(), ceiling);
        assert_eq!(heap.ceiling_pages(), ceiling);
        assert_eq!(heap.current_pages(), ceiling);
        for context in [CallContext::Onchain, CallContext::Offchain] {
            assert_eq!(heap.request_pages(ceiling, context), Ok(()));
            assert_eq!(heap.request_pages(ceiling + 1, context), Err(Error::OutOfMemory));
            assert_eq!(heap.request_pages(u32::MAX, context), Err(Error::OutOfMemory));
            assert_eq!(heap.current_pages(), ceiling);
        }
    }
}

#[test]
fn static_arithmetic_does_not_wrap() {
    let strategy =
        HeapAllocStrategy::Static { extra_pages: u32::MAX, offchain_heap_max_allocation: None };
    assert_eq!(strategy.initial_pages(u32::MAX), 2 * (u32::MAX as u64));
    assert_eq!(strategy.ceiling_pages(u32::MAX), 8_589_934_590);
    assert_eq!(strategy.ceiling_bytes(u32::MAX, CallContext::Onchain), 8_589_934_590 * 65536);
    assert!(!strategy.reservable(u32::MAX));
}

#[test]
fn dynamic_growth_is_capped_at_maximum_pages() {
    let strategy = HeapAllocStrategy::Dynamic {
        maximum_pages: Some(100),
        offchain_heap_max_allocation: None,
    };
    assert_eq!(strategy.initial_pages(16), 16);
    assert_eq!(strategy.ceiling_pages(16), 100);
    let mut heap = InstanceHeap::instantiate(strategy, 16).unwrap();
    assert_eq!(heap.initial_pages(), 16);
    assert_eq!(heap.current_pages(), 16);
    assert_eq!(heap.request_pages(10, CallContext::Onchain), Ok(()));
    assert_eq!(heap.current_pages(), 16);
    assert_eq!(heap.request_pages(40, CallContext::Onchain), Ok(()));
    assert_eq!(heap.current_pages(), 40);
    assert_eq!(heap.request_pages(101, CallContext::Onchain), Err(Error::OutOfMemory));
    assert_eq!(heap.current_pages(), 40);
    assert_eq!(heap.request_pages(100, CallContext::Onchain), Ok(()));
    assert_eq!(heap.current_pages(), 100);
    // Growth is monotonic within a call.
    assert_eq!(heap.request_pages(20, CallContext::Onchain), Ok(()));
    assert_eq!(heap.current_pages(), 100);
}

#[test]
fn dynamic_growth_without_maximum_is_capped_at_four_gib() {
    let strategy =
        HeapAllocStrategy::Dynamic { maximum_pages: None, offchain_heap_max_allocation: None };
    assert_eq!(strategy.ceiling_pages(16), 65536);
    assert_eq!(strategy.ceiling_bytes(16, CallContext::Onchain), 4_294_967_296);
    let mut heap = InstanceHeap::instantiate(strategy, 16).unwrap();
    assert_eq!(heap.request_pages(65537, CallContext::Onchain), Err(Error::OutOfMemory));
    assert_eq!(heap.request_pages(65536, CallContext::Onchain), Ok(()));
    assert_eq!(heap.current_pages(), 65536);
}

#[test]
fn reset_discards_growth() {
    let strategy = HeapAllocStrategy::Dynamic {
        maximum_pages: Some(500),
        offchain_heap_max_allocation: None,
    };
    let mut heap = InstanceHeap::instantiate(strategy, 3).unwrap();
    assert_eq!(heap.request_pages(400, CallContext::Onchain), Ok(()));
    assert_eq!(heap.current_pages(), 400);
    heap.reset();
    assert_eq!(heap.current_pages(), 3);
    assert_eq!(heap.initial_pages(), 3);
    assert_eq!(heap.ceiling_pages(), 500);
    assert_eq!(heap.strategy(), strategy);
    assert_eq!(heap.declared_initial_pages(), 3);
}

#[test]
fn unreservable_budget_fails_instantiation() {
    // The maximum is below what the module declares.
    let below = HeapAllocStrategy::Dynamic {
        maximum_pages: Some(10),
        offchain_heap_max_allocation: None,
    };
    assert!(!below.reservable(16));
    assert!(matches!(InstanceHeap::instantiate(below, 16), Err(Error::CompileOrInstantiate)));
    // The ceiling is above 4 GiB.
    let above =
        HeapAllocStrategy::Static { extra_pages: 65536, offchain_heap_max_allocation: None };
    assert!(!above.reservable(1));
    assert!(matches!(InstanceHeap::instantiate(above, 1), Err(Error::CompileOrInstantiate)));
    let far = HeapAllocStrategy::Dynamic {
        maximum_pages: Some(65537),
        offchain_heap_max_allocation: None,
    };
    assert!(matches!(InstanceHeap::instantiate(far, 1), Err(Error::CompileOrInstantiate)));
    // The ceiling is exactly 4 GiB.
    let exact =
        HeapAllocStrategy::Static { extra_pages: 65535, offchain_heap_max_allocation: None };
    assert!(exact.reservable(1));
    assert!(InstanceHeap::instantiate(exact, 1).is_ok());
}

#[test]
fn offchain_limit_leaves_onchain_untouched() {
    let with_limit = HeapAllocStrategy::Dynamic {
        maximum_pages: Some(100),
        offchain_heap_max_allocation: Some(200 * 65536),
    };
    let without = HeapAllocStrategy::Dynamic {
        maximum_pages: Some(100),
        offchain_heap_max_allocation: None,
    };
    assert_eq!(
        with_limit.ceiling_bytes(16, CallContext::Onchain),
        without.ceiling_bytes(16, CallContext::Onchain)
    );
    assert_eq!(with_limit.ceiling_bytes(16, CallContext::Onchain), 100 * 65536);
    assert_eq!(with_limit.ceiling_bytes(16, CallContext::Offchain), 200 * 65536);
    assert_eq!(without.ceiling_bytes(16, CallContext::Offchain), 100 * 65536);

    let mut heap = InstanceHeap::instantiate(with_limit, 16).unwrap();
    assert_eq!(heap.request_pages(150, CallContext::Onchain), Err(Error::OutOfMemory));
    assert_eq!(heap.request_pages(150, CallContext::Offchain), Ok(()));
    assert_eq!(heap.request_pages(201, CallContext::Offchain), Err(Error::OutOfMemory));
    assert_eq!(heap.current_pages(), 150);
}

#[test]
fn heaps_of_two_instances_are_separate() {
    let strategy = HeapAllocStrategy::Dynamic {
        maximum_pages: Some(64),
        offchain_heap_max_allocation: None,
    };
    let mut first = InstanceHeap::instantiate(strategy, 2).unwrap();
    let second = InstanceHeap::instantiate(strategy, 2).unwrap();
    assert_eq!(first.request_pages(60, CallContext::Onchain), Ok(()));
    assert_eq!(first.current_pages(), 60);
    assert_eq!(second.current_pages(), 2);
}

#[test]
fn absent_configuration_falls_back_on_the_defaults() {
    assert_eq!(strategy_or_default(None, CallContext::Onchain), default_heap_alloc_strategy());
    assert_eq!(
        strategy_or_default(None, CallContext::Offchain),
        default_offchain_heap_alloc_strategy()
    );
    let chosen = HeapAllocStrategy::Dynamic {
        maximum_pages: Some(9),
        offchain_heap_max_allocation: Some(1),
    };
    assert_eq!(strategy_or_default(Some(chosen), CallContext::Onchain), chosen);
    assert_eq!(strategy_or_default(Some(chosen), CallContext::Offchain), chosen);
}
