use substrate_host::executor::error::Error;
use substrate_host::executor::instance::InstanceControl;
use substrate_host::executor::lifecycle::{FaultPolicy, InstanceState};
use substrate_host::executor::wasm_runtime::{
    AllocationStats, CallContext, HeapAllocStrategy, WasmInstance, WasmModule,
};

/// A guest with three exports, run by an engine that keeps its books with
/// the library: `echo` returns its input, `grow` asks for as many pages as
/// its input says (little endian), `write_out_of_bounds` traps.
struct ScriptedModule {
    strategy: HeapAllocStrategy,
    declared_initial_pages: u32,
    track_stats: bool,
}

struct ScriptedInstance {
    control: InstanceControl,
    track_stats: bool,
}

impl ScriptedInstance {
    fn run(&mut self, method: &str, data: &[u8], context: CallContext) -> Result<Vec<u8>, Error> {
        match method {
            "echo" => Ok(data.to_vec()),
            "grow" => {
                let pages = u32::from_le_bytes([data[0], data[1], data[2], data[3]]);
                self.control.request_pages(pages, context)?;
                Ok(self.control.heap().current_pages().to_le_bytes().to_vec())
            },
            "write_out_of_bounds" => Err(Error::Trap),
            _ => Err(Error::MethodNotFound),
        }
    }
}

impl WasmInstance for ScriptedInstance {
    fn call_with_allocation_stats(
        &mut self,
        method: &str,
        data: &[u8],
        context: CallContext,
    ) -> (Result<Vec<u8>, Error>, Option<AllocationStats>) {
        assert!(self.control.begin_call(), "a call starts on a clean instance");
        let result = self.run(method, data, context);
        let stats = if self.track_stats && result != Err(Error::MethodNotFound) {
            let heap = self.control.heap();
            let bytes = (heap.current_pages() - heap.initial_pages()) * 65536;
            Some(AllocationStats {
                bytes_allocated: bytes,
                bytes_allocated_peak: bytes,
                bytes_allocated_sum: bytes as u128,
                address_space_used: bytes,
            })
        } else {
            None
        };
        assert!(self.control.end_call(&result));
        (result, stats)
    }
}

impl ScriptedModule {
    fn instance(&self) -> Result<ScriptedInstance, Error> {
        Ok(ScriptedInstance {
            control: InstanceControl::instantiate(
                self.strategy,
                self.declared_initial_pages,
                FaultPolicy::ResetInPlace,
            )?,
            track_stats: self.track_stats,
        })
    }
}

impl WasmModule for ScriptedModule {
    type Instance = Box<dyn WasmInstance>;

    fn new_instance(&self) -> Result<Box<dyn WasmInstance>, Error> {
        Ok(Box::new(self.instance()?))
    }
}

fn module() -> ScriptedModule {
    ScriptedModule {
        strategy: HeapAllocStrategy::Dynamic {
            maximum_pages: Some(32),
            offchain_heap_max_allocation: None,
        },
        declared_initial_pages: 4,
        track_stats: true,
    }
}

#[test]
fn absent_method_is_not_found() {
    let mut instance = module().new_instance().unwrap();
    assert_eq!(instance.call("missing", &[1], CallContext::Onchain), Err(Error::MethodNotFound));
    assert_eq!(
        instance.call_export("missing", &[1], CallContext::Offchain),
        Err(Error::MethodNotFound)
    );
    let (result, stats) =
        instance.call_with_allocation_stats("missing", &[1], CallContext::Onchain);
    assert_eq!(result, Err(Error::MethodNotFound));
    assert_eq!(stats, None);
    // The instance is usable right away.
    assert_eq!(instance.call("echo", &[7, 8], CallContext::Onchain), Ok(vec![7, 8]));
}

#[test]
fn trap_is_contained_and_reset_restores_the_instance() {
    let mut instance = module().instance().unwrap();
    assert_eq!(
        instance.call("write_out_of_bounds", &[], CallContext::Onchain),
        Err(Error::Trap)
    );
    assert_eq!(instance.control.state(), InstanceState::Faulted);
    assert!(instance.control.reset());
    assert_eq!(instance.control.state(), InstanceState::Reset);
    assert_eq!(instance.call("echo", &[1, 2, 3], CallContext::Onchain), Ok(vec![1, 2, 3]));
    assert_eq!(instance.control.state(), InstanceState::Reset);
}

#[test]
fn call_is_call_with_allocation_stats_without_the_stats() {
    let mut instance = module().new_instance().unwrap();
    for (method, data) in [
        ("echo", vec![9u8, 9]),
        ("grow", 20u32.to_le_bytes().to_vec()),
        ("grow", 33u32.to_le_bytes().to_vec()),
        ("nothing", vec![]),
    ] {
        let with_stats = instance.call_with_allocation_stats(method, &data, CallContext::Onchain);
        let plain = instance.call(method, &data, CallContext::Onchain);
        let export = instance.call_export(method, &data, CallContext::Onchain);
        assert_eq!(plain, with_stats.0);
        assert_eq!(export, with_stats.0);
    }
}

#[test]
fn identical_onchain_calls_have_identical_outcomes() {
    let mut instance = module().new_instance().unwrap();
    let data = 20u32.to_le_bytes();
    let first = instance.call_with_allocation_stats("grow", &data, CallContext::Onchain);
    let second = instance.call_with_allocation_stats("grow", &data, CallContext::Onchain);
    assert_eq!(first, second);
    assert_eq!(first.0, Ok(20u32.to_le_bytes().to_vec()));
    assert_eq!(
        first.1,
        Some(AllocationStats {
            bytes_allocated: 16 * 65536,
            bytes_allocated_peak: 16 * 65536,
            bytes_allocated_sum: 16 * 65536,
            address_space_used: 16 * 65536,
        })
    );
}

#[test]
fn a_call_does_not_see_the_growth_of_the_call_before() {
    let mut instance = module().new_instance().unwrap();
    assert_eq!(
        instance.call("grow", &30u32.to_le_bytes(), CallContext::Onchain),
        Ok(30u32.to_le_bytes().to_vec())
    );
    // Had the growth to 30 pages survived, this would answer 30.
    assert_eq!(
        instance.call("grow", &5u32.to_le_bytes(), CallContext::Onchain),
        Ok(5u32.to_le_bytes().to_vec())
    );
}

#[test]
fn instances_of_one_module_are_isolated() {
    let module = module();
    let mut first = module.instance().unwrap();
    let mut second = module.instance().unwrap();
    assert_eq!(
        first.call("grow", &32u32.to_le_bytes(), CallContext::Onchain),
        Ok(32u32.to_le_bytes().to_vec())
    );
    assert_eq!(first.control.heap().current_pages(), 32);
    assert_eq!(second.control.heap().current_pages(), 4);
    assert_eq!(first.call("write_out_of_bounds", &[], CallContext::Onchain), Err(Error::Trap));
    assert_eq!(first.control.state(), InstanceState::Faulted);
    assert_eq!(second.control.state(), InstanceState::Instantiated);
    assert_eq!(second.call("echo", &[5], CallContext::Onchain), Ok(vec![5]));
}

#[test]
fn exceeding_the_ceiling_is_out_of_memory_not_a_trap() {
    let mut instance = module().new_instance().unwrap();
    let (result, _) = instance.call_with_allocation_stats(
        "grow",
        &33u32.to_le_bytes(),
        CallContext::Onchain,
    );
    assert_eq!(result, Err(Error::OutOfMemory));
    assert_ne!(result, Err(Error::Trap));
    // Out of memory is no fault: the next call is taken.
    assert_eq!(instance.call("echo", &[], CallContext::Onchain), Ok(vec![]));
}

#[test]
fn an_engine_that_does_not_track_gives_no_stats() {
    let module = ScriptedModule { track_stats: false, ..module() };
    let mut instance = module.new_instance().unwrap();
    let (result, stats) =
        instance.call_with_allocation_stats("echo", &[1], CallContext::Offchain);
    assert_eq!(result, Ok(vec![1]));
    assert_eq!(stats, None);
}

#[test]
fn an_unreservable_budget_fails_new_instance() {
    let module = ScriptedModule {
        strategy: HeapAllocStrategy::Dynamic {
            maximum_pages: Some(2),
            offchain_heap_max_allocation: None,
        },
        declared_initial_pages: 4,
        track_stats: false,
    };
    assert!(matches!(module.new_instance(), Err(Error::CompileOrInstantiate)));
}

#[test]
fn a_module_is_shared_between_threads_of_instances() {
    fn assert_shareable<M: WasmModule + Sync + Send>(_: &M) {}
    fn assert_sendable<I: WasmInstance + Send>(_: &I) {}
    let module = module();
    assert_shareable(&module);
    assert_sendable(&module.instance().unwrap());
}
