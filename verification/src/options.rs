//! The common command-line option groups of the front end, and the pure
//! decisions the front end takes on them.
//!
//! Each group collects raw parsed directives (the payload of one
//! `key[=val]` occurrence each) and merges them into its fields: a scalar
//! directive overwrites the field, later occurrences winning; a list
//! directive appends. The I/O that surrounds these decisions — argument
//! parsing, logger installation, engine configuration — lives outside this
//! crate and consumes the merged values.

use vstd::prelude::*;

verus! {

/// Optimization level of generated code.
#[derive(Clone, Copy, Debug, PartialEq, Eq, Structural)]
pub enum OptLevel {
    Off,
    Speed,
    SpeedAndSize,
}

/// Which compilation strategy the engine should use.
#[derive(Clone, Copy, Debug, PartialEq, Eq, Structural)]
pub enum Strategy {
    Auto,
    Cranelift,
    Winch,
}

/// A machine-learning graph to preload for the WASI neural-network API:
/// a model encoding and the host directory holding the model.
#[derive(Clone, Debug, PartialEq, Eq)]
pub struct WasiNnGraph {
    pub format: String,
    pub dir: String,
}

/// One parsed `key[=val]` occurrence of the optimize option group.
#[derive(Clone, Debug, PartialEq)]
pub enum OptimizeDirective {
    OptLevel(OptLevel),
    DynamicMemoryGuardSize(u64),
    StaticMemoryForced(bool),
    StaticMemoryMaximumSize(u64),
    StaticMemoryGuardSize(u64),
    DynamicMemoryReservedForGrowth(u64),
    PoolingAllocator(bool),
    MemoryInitCow(bool),
}

/// Optimization and tuning options for wasm performance.
#[derive(Debug, PartialEq)]
pub struct OptimizeOptions {
    pub opt_level: Option<OptLevel>,
    pub dynamic_memory_guard_size: Option<u64>,
    pub static_memory_forced: Option<bool>,
    pub static_memory_maximum_size: Option<u64>,
    pub static_memory_guard_size: Option<u64>,
    pub dynamic_memory_reserved_for_growth: Option<u64>,
    pub pooling_allocator: Option<bool>,
    pub memory_init_cow: Option<bool>,
}

/// The group before any directive is applied: nothing set, every
/// list empty.
pub open spec fn optimize_defaults() -> OptimizeOptions {
    OptimizeOptions {
        opt_level: None,
        dynamic_memory_guard_size: None,
        static_memory_forced: None,
        static_memory_maximum_size: None,
        static_memory_guard_size: None,
        dynamic_memory_reserved_for_growth: None,
        pooling_allocator: None,
        memory_init_cow: None,
    }
}

/// One directive applied to the group: a scalar directive overwrites
/// its field, a list directive appends to its list.
pub open spec fn apply_optimize(g: OptimizeOptions, d: OptimizeDirective) -> OptimizeOptions {
    match d {
        OptimizeDirective::OptLevel(v) => OptimizeOptions { opt_level: Some(v), ..g },
        OptimizeDirective::DynamicMemoryGuardSize(v) => OptimizeOptions { dynamic_memory_guard_size: Some(v), ..g },
        OptimizeDirective::StaticMemoryForced(v) => OptimizeOptions { static_memory_forced: Some(v), ..g },
        OptimizeDirective::StaticMemoryMaximumSize(v) => OptimizeOptions { static_memory_maximum_size: Some(v), ..g },
        OptimizeDirective::StaticMemoryGuardSize(v) => OptimizeOptions { static_memory_guard_size: Some(v), ..g },
        OptimizeDirective::DynamicMemoryReservedForGrowth(v) => OptimizeOptions { dynamic_memory_reserved_for_growth: Some(v), ..g },
        OptimizeDirective::PoolingAllocator(v) => OptimizeOptions { pooling_allocator: Some(v), ..g },
        OptimizeDirective::MemoryInitCow(v) => OptimizeOptions { memory_init_cow: Some(v), ..g },
    }
}

/// A directive sequence applied to the group in order.
pub open spec fn merged_optimize(g: OptimizeOptions, ds: Seq<OptimizeDirective>) -> OptimizeOptions
    decreases ds.len(),
{
    if ds.len() == 0 {
        g
    } else {
        apply_optimize(merged_optimize(g, ds.drop_last()), ds.last())
    }
}

impl OptimizeOptions {
    /// Apply the raw directives to this group, in order.
    pub fn configure_with(&mut self, raw: &Vec<OptimizeDirective>)
        ensures
            *final(self) == merged_optimize(*old(self), raw@),
    {
        let mut i: usize = 0;
        while i < raw.len()
            invariant
                i <= raw.len(),
                *self == merged_optimize(*old(self), raw@.take(i as int)),
            decreases raw.len() - i,
        {
            proof {
                assert(raw@.take(i + 1).drop_last() =~= raw@.take(i as int));
                assert(raw@.take(i + 1).last() == raw@[i as int]);
            }
            self.apply(&raw[i]);
            i = i + 1;
        }
        proof {
            assert(raw@.take(raw@.len() as int) =~= raw@);
        }
    }

    /// Apply one directive to this group.
    fn apply(&mut self, d: &OptimizeDirective)
        ensures
            *final(self) == apply_optimize(*old(self), *d),
    {
        match d {
            OptimizeDirective::OptLevel(v) => {
                self.opt_level = Some(*v);
            },
            OptimizeDirective::DynamicMemoryGuardSize(v) => {
                self.dynamic_memory_guard_size = Some(*v);
            },
            OptimizeDirective::StaticMemoryForced(v) => {
                self.static_memory_forced = Some(*v);
            },
            OptimizeDirective::StaticMemoryMaximumSize(v) => {
                self.static_memory_maximum_size = Some(*v);
            },
            OptimizeDirective::StaticMemoryGuardSize(v) => {
                self.static_memory_guard_size = Some(*v);
            },
            OptimizeDirective::DynamicMemoryReservedForGrowth(v) => {
                self.dynamic_memory_reserved_for_growth = Some(*v);
            },
            OptimizeDirective::PoolingAllocator(v) => {
                self.pooling_allocator = Some(*v);
            },
            OptimizeDirective::MemoryInitCow(v) => {
                self.memory_init_cow = Some(*v);
            },
        }
    }
}

impl Default for OptimizeOptions {
    /// The group with nothing set and every list empty.
    fn default() -> (r: Self)
        ensures
            r == optimize_defaults(),
    {
        OptimizeOptions {
            opt_level: None,
            dynamic_memory_guard_size: None,
            static_memory_forced: None,
            static_memory_maximum_size: None,
            static_memory_guard_size: None,
            dynamic_memory_reserved_for_growth: None,
            pooling_allocator: None,
            memory_init_cow: None,
        }
    }
}

/// One parsed `key[=val]` occurrence of the codegen option group.
#[derive(Clone, Debug, PartialEq)]
pub enum CodegenDirective {
    Compiler(Strategy),
    CraneliftDebugVerifier(bool),
    Cache(bool),
    CacheConfig(String),
    ParallelCompilation(bool),
    Pcc(bool),
    CraneliftFlag(String, Option<String>),
}

/// Code-generation configuration options.
#[derive(Debug, PartialEq)]
pub struct CodegenOptions {
    pub compiler: Option<Strategy>,
    pub cranelift_debug_verifier: Option<bool>,
    pub cache: Option<bool>,
    pub cache_config: Option<String>,
    pub parallel_compilation: Option<bool>,
    pub pcc: Option<bool>,
    pub cranelift: Vec<(String, Option<String>)>,
}

/// The mathematical value of an `CodegenOptions`: its fields, with each
/// list as the sequence it holds.
pub struct CodegenState {
    pub compiler: Option<Strategy>,
    pub cranelift_debug_verifier: Option<bool>,
    pub cache: Option<bool>,
    pub cache_config: Option<String>,
    pub parallel_compilation: Option<bool>,
    pub pcc: Option<bool>,
    pub cranelift: Seq<(String, Option<String>)>,
}

/// The value an `CodegenOptions` holds.
pub open spec fn codegen_state(g: CodegenOptions) -> CodegenState {
    CodegenState {
        compiler: g.compiler,
        cranelift_debug_verifier: g.cranelift_debug_verifier,
        cache: g.cache,
        cache_config: g.cache_config,
        parallel_compilation: g.parallel_compilation,
        pcc: g.pcc,
        cranelift: g.cranelift@,
    }
}

/// The group before any directive is applied: nothing set, every
/// list empty.
pub open spec fn codegen_defaults() -> CodegenState {
    CodegenState {
        compiler: None,
        cranelift_debug_verifier: None,
        cache: None,
        cache_config: None,
        parallel_compilation: None,
        pcc: None,
        cranelift: Seq::<(String, Option<String>)>::empty(),
    }
}

/// One directive applied to the group: a scalar directive overwrites
/// its field, a list directive appends to its list.
pub open spec fn apply_codegen(g: CodegenState, d: CodegenDirective) -> CodegenState {
    match d {
        CodegenDirective::Compiler(v) => CodegenState { compiler: Some(v), ..g },
        CodegenDirective::CraneliftDebugVerifier(v) => CodegenState { cranelift_debug_verifier: Some(v), ..g },
        CodegenDirective::Cache(v) => CodegenState { cache: Some(v), ..g },
        CodegenDirective::CacheConfig(v) => CodegenState { cache_config: Some(v), ..g },
        CodegenDirective::ParallelCompilation(v) => CodegenState { parallel_compilation: Some(v), ..g },
        CodegenDirective::Pcc(v) => CodegenState { pcc: Some(v), ..g },
        CodegenDirective::CraneliftFlag(a, b) => CodegenState { cranelift: g.cranelift.push((a, b)), ..g },
    }
}

/// A directive sequence applied to the group in order.
pub open spec fn merged_codegen(g: CodegenState, ds: Seq<CodegenDirective>) -> CodegenState
    decreases ds.len(),
{
    if ds.len() == 0 {
        g
    } else {
        apply_codegen(merged_codegen(g, ds.drop_last()), ds.last())
    }
}

impl CodegenOptions {
    /// Apply the raw directives to this group, in order.
    pub fn configure_with(&mut self, raw: &Vec<CodegenDirective>)
        ensures
            codegen_state(*final(self)) == merged_codegen(codegen_state(*old(self)), raw@),
    {
        let mut i: usize = 0;
        while i < raw.len()
            invariant
                i <= raw.len(),
                codegen_state(*self) == merged_codegen(codegen_state(*old(self)), raw@.take(i as int)),
            decreases raw.len() - i,
        {
            proof {
                assert(raw@.take(i + 1).drop_last() =~= raw@.take(i as int));
                assert(raw@.take(i + 1).last() == raw@[i as int]);
            }
            self.apply(&raw[i]);
            i = i + 1;
        }
        proof {
            assert(raw@.take(raw@.len() as int) =~= raw@);
        }
    }

    /// Apply one directive to this group.
    fn apply(&mut self, d: &CodegenDirective)
        ensures
            codegen_state(*final(self)) == apply_codegen(codegen_state(*old(self)), *d),
    {
        match d {
            CodegenDirective::Compiler(v) => {
                self.compiler = Some(*v);
            },
            CodegenDirective::CraneliftDebugVerifier(v) => {
                self.cranelift_debug_verifier = Some(*v);
            },
            CodegenDirective::Cache(v) => {
                self.cache = Some(*v);
            },
            CodegenDirective::CacheConfig(v) => {
                self.cache_config = Some(v.clone());
            },
            CodegenDirective::ParallelCompilation(v) => {
                self.parallel_compilation = Some(*v);
            },
            CodegenDirective::Pcc(v) => {
                self.pcc = Some(*v);
            },
            CodegenDirective::CraneliftFlag(a, b) => {
                self.cranelift.push((a.clone(), clone_opt_string(b)));
            },
        }
    }
}

impl Default for CodegenOptions {
    /// The group with nothing set and every list empty.
    fn default() -> (r: Self)
        ensures
            codegen_state(r) == codegen_defaults(),
    {
        CodegenOptions {
            compiler: None,
            cranelift_debug_verifier: None,
            cache: None,
            cache_config: None,
            parallel_compilation: None,
            pcc: None,
            cranelift: Vec::new(),
        }
    }
}

/// One parsed `key[=val]` occurrence of the debug option group.
#[derive(Clone, Debug, PartialEq)]
pub enum DebugDirective {
    DebugInfo(bool),
    AddressMap(bool),
    Logging(bool),
    LogToFiles(bool),
    Coredump(String),
}

/// Debug-related configuration options.
#[derive(Debug, PartialEq)]
pub struct DebugOptions {
    pub debug_info: Option<bool>,
    pub address_map: Option<bool>,
    pub logging: Option<bool>,
    pub log_to_files: Option<bool>,
    pub coredump: Option<String>,
}

/// The group before any directive is applied: nothing set, every
/// list empty.
pub open spec fn debug_defaults() -> DebugOptions {
    DebugOptions {
        debug_info: None,
        address_map: None,
        logging: None,
        log_to_files: None,
        coredump: None,
    }
}

/// One directive applied to the group: a scalar directive overwrites
/// its field, a list directive appends to its list.
pub open spec fn apply_debug(g: DebugOptions, d: DebugDirective) -> DebugOptions {
    match d {
        DebugDirective::DebugInfo(v) => DebugOptions { debug_info: Some(v), ..g },
        DebugDirective::AddressMap(v) => DebugOptions { address_map: Some(v), ..g },
        DebugDirective::Logging(v) => DebugOptions { logging: Some(v), ..g },
        DebugDirective::LogToFiles(v) => DebugOptions { log_to_files: Some(v), ..g },
        DebugDirective::Coredump(v) => DebugOptions { coredump: Some(v), ..g },
    }
}

/// A directive sequence applied to the group in order.
pub open spec fn merged_debug(g: DebugOptions, ds: Seq<DebugDirective>) -> DebugOptions
    decreases ds.len(),
{
    if ds.len() == 0 {
        g
    } else {
        apply_debug(merged_debug(g, ds.drop_last()), ds.last())
    }
}

impl DebugOptions {
    /// Apply the raw directives to this group, in order.
    pub fn configure_with(&mut self, raw: &Vec<DebugDirective>)
        ensures
            *final(self) == merged_debug(*old(self), raw@),
    {
        let mut i: usize = 0;
        while i < raw.len()
            invariant
                i <= raw.len(),
                *self == merged_debug(*old(self), raw@.take(i as int)),
            decreases raw.len() - i,
        {
            proof {
                assert(raw@.take(i + 1).drop_last() =~= raw@.take(i as int));
                assert(raw@.take(i + 1).last() == raw@[i as int]);
            }
            self.apply(&raw[i]);
            i = i + 1;
        }
        proof {
            assert(raw@.take(raw@.len() as int) =~= raw@);
        }
    }

    /// Apply one directive to this group.
    fn apply(&mut self, d: &DebugDirective)
        ensures
            *final(self) == apply_debug(*old(self), *d),
    {
        match d {
            DebugDirective::DebugInfo(v) => {
                self.debug_info = Some(*v);
            },
            DebugDirective::AddressMap(v) => {
                self.address_map = Some(*v);
            },
            DebugDirective::Logging(v) => {
                self.logging = Some(*v);
            },
            DebugDirective::LogToFiles(v) => {
                self.log_to_files = Some(*v);
            },
            DebugDirective::Coredump(v) => {
                self.coredump = Some(v.clone());
            },
        }
    }
}

impl Default for DebugOptions {
    /// The group with nothing set and every list empty.
    fn default() -> (r: Self)
        ensures
            r == debug_defaults(),
    {
        DebugOptions {
            debug_info: None,
            address_map: None,
            logging: None,
            log_to_files: None,
            coredump: None,
        }
    }
}

/// One parsed `key[=val]` occurrence of the wasm option group.
#[derive(Clone, Debug, PartialEq)]
pub enum WasmDirective {
    NanCanonicalization(bool),
    Fuel(u64),
    EpochInterruption(bool),
    MaxWasmStack(usize),
    UnknownExportsAllow(bool),
    UnknownImportsTrap(bool),
    UnknownImportsDefault(bool),
    Wmemcheck(bool),
    MaxMemorySize(usize),
    MaxTableElements(u32),
    MaxInstances(usize),
    MaxTables(usize),
    MaxMemories(usize),
    TrapOnGrowFailure(bool),
    TimeoutMillis(u64),
    AllProposals(bool),
    BulkMemory(bool),
    MultiMemory(bool),
    MultiValue(bool),
    ReferenceTypes(bool),
    Simd(bool),
    RelaxedSimd(bool),
    RelaxedSimdDeterministic(bool),
    TailCall(bool),
    Threads(bool),
    Memory64(bool),
    ComponentModel(bool),
    FunctionReferences(bool),
}

/// Options for the semantic execution of WebAssembly.
#[derive(Debug, PartialEq)]
pub struct WasmOptions {
    pub nan_canonicalization: Option<bool>,
    pub fuel: Option<u64>,
    pub epoch_interruption: Option<bool>,
    pub max_wasm_stack: Option<usize>,
    pub unknown_exports_allow: Option<bool>,
    pub unknown_imports_trap: Option<bool>,
    pub unknown_imports_default: Option<bool>,
    pub wmemcheck: Option<bool>,
    pub max_memory_size: Option<usize>,
    pub max_table_elements: Option<u32>,
    pub max_instances: Option<usize>,
    pub max_tables: Option<usize>,
    pub max_memories: Option<usize>,
    pub trap_on_grow_failure: Option<bool>,
    pub timeout_millis: Option<u64>,
    pub all_proposals: Option<bool>,
    pub bulk_memory: Option<bool>,
    pub multi_memory: Option<bool>,
    pub multi_value: Option<bool>,
    pub reference_types: Option<bool>,
    pub simd: Option<bool>,
    pub relaxed_simd: Option<bool>,
    pub relaxed_simd_deterministic: Option<bool>,
    pub tail_call: Option<bool>,
    pub threads: Option<bool>,
    pub memory64: Option<bool>,
    pub component_model: Option<bool>,
    pub function_references: Option<bool>,
}

/// The group before any directive is applied: nothing set, every
/// list empty.
pub open spec fn wasm_defaults() -> WasmOptions {
    WasmOptions {
        nan_canonicalization: None,
        fuel: None,
        epoch_interruption: None,
        max_wasm_stack: None,
        unknown_exports_allow: None,
        unknown_imports_trap: None,
        unknown_imports_default: None,
        wmemcheck: None,
        max_memory_size: None,
        max_table_elements: None,
        max_instances: None,
        max_tables: None,
        max_memories: None,
        trap_on_grow_failure: None,
        timeout_millis: None,
        all_proposals: None,
        bulk_memory: None,
        multi_memory: None,
        multi_value: None,
        reference_types: None,
        simd: None,
        relaxed_simd: None,
        relaxed_simd_deterministic: None,
        tail_call: None,
        threads: None,
        memory64: None,
        component_model: None,
        function_references: None,
    }
}

/// One directive applied to the group: a scalar directive overwrites
/// its field, a list directive appends to its list.
pub open spec fn apply_wasm(g: WasmOptions, d: WasmDirective) -> WasmOptions {
    match d {
        WasmDirective::NanCanonicalization(v) => WasmOptions { nan_canonicalization: Some(v), ..g },
        WasmDirective::Fuel(v) => WasmOptions { fuel: Some(v), ..g },
        WasmDirective::EpochInterruption(v) => WasmOptions { epoch_interruption: Some(v), ..g },
        WasmDirective::MaxWasmStack(v) => WasmOptions { max_wasm_stack: Some(v), ..g },
        WasmDirective::UnknownExportsAllow(v) => WasmOptions { unknown_exports_allow: Some(v), ..g },
        WasmDirective::UnknownImportsTrap(v) => WasmOptions { unknown_imports_trap: Some(v), ..g },
        WasmDirective::UnknownImportsDefault(v) => WasmOptions { unknown_imports_default: Some(v), ..g },
        WasmDirective::Wmemcheck(v) => WasmOptions { wmemcheck: Some(v), ..g },
        WasmDirective::MaxMemorySize(v) => WasmOptions { max_memory_size: Some(v), ..g },
        WasmDirective::MaxTableElements(v) => WasmOptions { max_table_elements: Some(v), ..g },
        WasmDirective::MaxInstances(v) => WasmOptions { max_instances: Some(v), ..g },
        WasmDirective::MaxTables(v) => WasmOptions { max_tables: Some(v), ..g },
        WasmDirective::MaxMemories(v) => WasmOptions { max_memories: Some(v), ..g },
        WasmDirective::TrapOnGrowFailure(v) => WasmOptions { trap_on_grow_failure: Some(v), ..g },
        WasmDirective::TimeoutMillis(v) => WasmOptions { timeout_millis: Some(v), ..g },
        WasmDirective::AllProposals(v) => WasmOptions { all_proposals: Some(v), ..g },
        WasmDirective::BulkMemory(v) => WasmOptions { bulk_memory: Some(v), ..g },
        WasmDirective::MultiMemory(v) => WasmOptions { multi_memory: Some(v), ..g },
        WasmDirective::MultiValue(v) => WasmOptions { multi_value: Some(v), ..g },
        WasmDirective::ReferenceTypes(v) => WasmOptions { reference_types: Some(v), ..g },
        WasmDirective::Simd(v) => WasmOptions { simd: Some(v), ..g },
        WasmDirective::RelaxedSimd(v) => WasmOptions { relaxed_simd: Some(v), ..g },
        WasmDirective::RelaxedSimdDeterministic(v) => WasmOptions { relaxed_simd_deterministic: Some(v), ..g },
        WasmDirective::TailCall(v) => WasmOptions { tail_call: Some(v), ..g },
        WasmDirective::Threads(v) => WasmOptions { threads: Some(v), ..g },
        WasmDirective::Memory64(v) => WasmOptions { memory64: Some(v), ..g },
        WasmDirective::ComponentModel(v) => WasmOptions { component_model: Some(v), ..g },
        WasmDirective::FunctionReferences(v) => WasmOptions { function_references: Some(v), ..g },
    }
}

/// A directive sequence applied to the group in order.
pub open spec fn merged_wasm(g: WasmOptions, ds: Seq<WasmDirective>) -> WasmOptions
    decreases ds.len(),
{
    if ds.len() == 0 {
        g
    } else {
        apply_wasm(merged_wasm(g, ds.drop_last()), ds.last())
    }
}

impl WasmOptions {
    /// Apply the raw directives to this group, in order.
    pub fn configure_with(&mut self, raw: &Vec<WasmDirective>)
        ensures
            *final(self) == merged_wasm(*old(self), raw@),
    {
        let mut i: usize = 0;
        while i < raw.len()
            invariant
                i <= raw.len(),
                *self == merged_wasm(*old(self), raw@.take(i as int)),
            decreases raw.len() - i,
        {
            proof {
                assert(raw@.take(i + 1).drop_last() =~= raw@.take(i as int));
                assert(raw@.take(i + 1).last() == raw@[i as int]);
            }
            self.apply(&raw[i]);
            i = i + 1;
        }
        proof {
            assert(raw@.take(raw@.len() as int) =~= raw@);
        }
    }

    /// Apply one directive to this group.
    fn apply(&mut self, d: &WasmDirective)
        ensures
            *final(self) == apply_wasm(*old(self), *d),
    {
        match d {
            WasmDirective::NanCanonicalization(v) => {
                self.nan_canonicalization = Some(*v);
            },
            WasmDirective::Fuel(v) => {
                self.fuel = Some(*v);
            },
            WasmDirective::EpochInterruption(v) => {
                self.epoch_interruption = Some(*v);
            },
            WasmDirective::MaxWasmStack(v) => {
                self.max_wasm_stack = Some(*v);
            },
            WasmDirective::UnknownExportsAllow(v) => {
                self.unknown_exports_allow = Some(*v);
            },
            WasmDirective::UnknownImportsTrap(v) => {
                self.unknown_imports_trap = Some(*v);
            },
            WasmDirective::UnknownImportsDefault(v) => {
                self.unknown_imports_default = Some(*v);
            },
            WasmDirective::Wmemcheck(v) => {
                self.wmemcheck = Some(*v);
            },
            WasmDirective::MaxMemorySize(v) => {
                self.max_memory_size = Some(*v);
            },
            WasmDirective::MaxTableElements(v) => {
                self.max_table_elements = Some(*v);
            },
            WasmDirective::MaxInstances(v) => {
                self.max_instances = Some(*v);
            },
            WasmDirective::MaxTables(v) => {
                self.max_tables = Some(*v);
            },
            WasmDirective::MaxMemories(v) => {
                self.max_memories = Some(*v);
            },
            WasmDirective::TrapOnGrowFailure(v) => {
                self.trap_on_grow_failure = Some(*v);
            },
            WasmDirective::TimeoutMillis(v) => {
                self.timeout_millis = Some(*v);
            },
            WasmDirective::AllProposals(v) => {
                self.all_proposals = Some(*v);
            },
            WasmDirective::BulkMemory(v) => {
                self.bulk_memory = Some(*v);
            },
            WasmDirective::MultiMemory(v) => {
                self.multi_memory = Some(*v);
            },
            WasmDirective::MultiValue(v) => {
                self.multi_value = Some(*v);
            },
            WasmDirective::ReferenceTypes(v) => {
                self.reference_types = Some(*v);
            },
            WasmDirective::Simd(v) => {
                self.simd = Some(*v);
            },
            WasmDirective::RelaxedSimd(v) => {
                self.relaxed_simd = Some(*v);
            },
            WasmDirective::RelaxedSimdDeterministic(v) => {
                self.relaxed_simd_deterministic = Some(*v);
            },
            WasmDirective::TailCall(v) => {
                self.tail_call = Some(*v);
            },
            WasmDirective::Threads(v) => {
                self.threads = Some(*v);
            },
            WasmDirective::Memory64(v) => {
                self.memory64 = Some(*v);
            },
            WasmDirective::ComponentModel(v) => {
                self.component_model = Some(*v);
            },
            WasmDirective::FunctionReferences(v) => {
                self.function_references = Some(*v);
            },
        }
    }
}

impl Default for WasmOptions {
    /// The group with nothing set and every list empty.
    fn default() -> (r: Self)
        ensures
            r == wasm_defaults(),
    {
        WasmOptions {
            nan_canonicalization: None,
            fuel: None,
            epoch_interruption: None,
            max_wasm_stack: None,
            unknown_exports_allow: None,
            unknown_imports_trap: None,
            unknown_imports_default: None,
            wmemcheck: None,
            max_memory_size: None,
            max_table_elements: None,
            max_instances: None,
            max_tables: None,
            max_memories: None,
            trap_on_grow_failure: None,
            timeout_millis: None,
            all_proposals: None,
            bulk_memory: None,
            multi_memory: None,
            multi_value: None,
            reference_types: None,
            simd: None,
            relaxed_simd: None,
            relaxed_simd_deterministic: None,
            tail_call: None,
            threads: None,
            memory64: None,
            component_model: None,
            function_references: None,
        }
    }
}

/// One parsed `key[=val]` occurrence of the wasi option group.
#[derive(Clone, Debug, PartialEq)]
pub enum WasiDirective {
    Common(bool),
    Nn(bool),
    Threads(bool),
    Http(bool),
    Listenfd(bool),
    TcpListen(String),
    Preview2(bool),
    NnGraph(WasiNnGraph),
    InheritNetwork(bool),
    AllowIpNameLookup(bool),
}

/// Options for WASI and its proposals.
#[derive(Debug, PartialEq)]
pub struct WasiOptions {
    pub common: Option<bool>,
    pub nn: Option<bool>,
    pub threads: Option<bool>,
    pub http: Option<bool>,
    pub listenfd: Option<bool>,
    pub tcplisten: Vec<String>,
    pub preview2: Option<bool>,
    pub nn_graph: Vec<WasiNnGraph>,
    pub inherit_network: Option<bool>,
    pub allow_ip_name_lookup: Option<bool>,
}

/// The mathematical value of an `WasiOptions`: its fields, with each
/// list as the sequence it holds.
pub struct WasiState {
    pub common: Option<bool>,
    pub nn: Option<bool>,
    pub threads: Option<bool>,
    pub http: Option<bool>,
    pub listenfd: Option<bool>,
    pub tcplisten: Seq<String>,
    pub preview2: Option<bool>,
    pub nn_graph: Seq<WasiNnGraph>,
    pub inherit_network: Option<bool>,
    pub allow_ip_name_lookup: Option<bool>,
}

/// The value an `WasiOptions` holds.
pub open spec fn wasi_state(g: WasiOptions) -> WasiState {
    WasiState {
        common: g.common,
        nn: g.nn,
        threads: g.threads,
        http: g.http,
        listenfd: g.listenfd,
        tcplisten: g.tcplisten@,
        preview2: g.preview2,
        nn_graph: g.nn_graph@,
        inherit_network: g.inherit_network,
        allow_ip_name_lookup: g.allow_ip_name_lookup,
    }
}

/// The group before any directive is applied: nothing set, every
/// list empty.
pub open spec fn wasi_defaults() -> WasiState {
    WasiState {
        common: None,
        nn: None,
        threads: None,
        http: None,
        listenfd: None,
        tcplisten: Seq::<String>::empty(),
        preview2: None,
        nn_graph: Seq::<WasiNnGraph>::empty(),
        inherit_network: None,
        allow_ip_name_lookup: None,
    }
}

/// One directive applied to the group: a scalar directive overwrites
/// its field, a list directive appends to its list.
pub open spec fn apply_wasi(g: WasiState, d: WasiDirective) -> WasiState {
    match d {
        WasiDirective::Common(v) => WasiState { common: Some(v), ..g },
        WasiDirective::Nn(v) => WasiState { nn: Some(v), ..g },
        WasiDirective::Threads(v) => WasiState { threads: Some(v), ..g },
        WasiDirective::Http(v) => WasiState { http: Some(v), ..g },
        WasiDirective::Listenfd(v) => WasiState { listenfd: Some(v), ..g },
        WasiDirective::TcpListen(v) => WasiState { tcplisten: g.tcplisten.push(v), ..g },
        WasiDirective::Preview2(v) => WasiState { preview2: Some(v), ..g },
        WasiDirective::NnGraph(v) => WasiState { nn_graph: g.nn_graph.push(v), ..g },
        WasiDirective::InheritNetwork(v) => WasiState { inherit_network: Some(v), ..g },
        WasiDirective::AllowIpNameLookup(v) => WasiState { allow_ip_name_lookup: Some(v), ..g },
    }
}

/// A directive sequence applied to the group in order.
pub open spec fn merged_wasi(g: WasiState, ds: Seq<WasiDirective>) -> WasiState
    decreases ds.len(),
{
    if ds.len() == 0 {
        g
    } else {
        apply_wasi(merged_wasi(g, ds.drop_last()), ds.last())
    }
}

impl WasiOptions {
    /// Apply the raw directives to this group, in order.
    pub fn configure_with(&mut self, raw: &Vec<WasiDirective>)
        ensures
            wasi_state(*final(self)) == merged_wasi(wasi_state(*old(self)), raw@),
    {
        let mut i: usize = 0;
        while i < raw.len()
            invariant
                i <= raw.len(),
                wasi_state(*self) == merged_wasi(wasi_state(*old(self)), raw@.take(i as int)),
            decreases raw.len() - i,
        {
            proof {
                assert(raw@.take(i + 1).drop_last() =~= raw@.take(i as int));
                assert(raw@.take(i + 1).last() == raw@[i as int]);
            }
            self.apply(&raw[i]);
            i = i + 1;
        }
        proof {
            assert(raw@.take(raw@.len() as int) =~= raw@);
        }
    }

    /// Apply one directive to this group.
    fn apply(&mut self, d: &WasiDirective)
        ensures
            wasi_state(*final(self)) == apply_wasi(wasi_state(*old(self)), *d),
    {
        match d {
            WasiDirective::Common(v) => {
                self.common = Some(*v);
            },
            WasiDirective::Nn(v) => {
                self.nn = Some(*v);
            },
            WasiDirective::Threads(v) => {
                self.threads = Some(*v);
            },
            WasiDirective::Http(v) => {
                self.http = Some(*v);
            },
            WasiDirective::Listenfd(v) => {
                self.listenfd = Some(*v);
            },
            WasiDirective::TcpListen(v) => {
                self.tcplisten.push(v.clone());
            },
            WasiDirective::Preview2(v) => {
                self.preview2 = Some(*v);
            },
            WasiDirective::NnGraph(v) => {
                self.nn_graph.push(WasiNnGraph { format: v.format.clone(), dir: v.dir.clone() });
            },
            WasiDirective::InheritNetwork(v) => {
                self.inherit_network = Some(*v);
            },
            WasiDirective::AllowIpNameLookup(v) => {
                self.allow_ip_name_lookup = Some(*v);
            },
        }
    }
}

impl Default for WasiOptions {
    /// The group with nothing set and every list empty.
    fn default() -> (r: Self)
        ensures
            wasi_state(r) == wasi_defaults(),
    {
        WasiOptions {
            common: None,
            nn: None,
            threads: None,
            http: None,
            listenfd: None,
            tcplisten: Vec::new(),
            preview2: None,
            nn_graph: Vec::new(),
            inherit_network: None,
            allow_ip_name_lookup: None,
        }
    }
}

/// An owned copy of an optional setting value.
fn clone_opt_string(o: &Option<String>) -> (r: Option<String>)
    ensures
        r == *o,
{
    match o {
        Some(s) => Some(s.clone()),
        None => None,
    }
}
/// Which destination, if any, log output should go to.
#[derive(Clone, Copy, Debug, PartialEq, Eq, Structural)]
pub enum LogDestination {
    /// Logging was explicitly switched off.
    Disabled,
    /// One log file per thread.
    FilePerThread,
    /// The standard error stream.
    Stderr,
}

/// Where log output should go, given the `logging` and `log_to_files`
/// debug options: explicitly disabled logging wins, then the file-per-
/// thread choice, and the standard error stream is the default.
pub open spec fn log_destination_spec(
    logging: Option<bool>,
    log_to_files: Option<bool>,
) -> LogDestination {
    if logging == Some(false) {
        LogDestination::Disabled
    } else if log_to_files == Some(true) {
        LogDestination::FilePerThread
    } else {
        LogDestination::Stderr
    }
}

/// An optional setting with a fallback: the setting itself when present,
/// else the fallback.
pub open spec fn opt_or(a: Option<bool>, b: Option<bool>) -> Option<bool> {
    match a {
        Some(v) => Some(v),
        None => b,
    }
}

/// The effective enablement of each WebAssembly proposal: the proposal's
/// own option when given, else the `all_proposals` option.
#[derive(Clone, Copy, Debug, PartialEq, Eq, Structural)]
pub struct WasmFeatureSettings {
    pub simd: Option<bool>,
    pub relaxed_simd: Option<bool>,
    pub bulk_memory: Option<bool>,
    pub reference_types: Option<bool>,
    pub function_references: Option<bool>,
    pub multi_value: Option<bool>,
    pub tail_call: Option<bool>,
    pub threads: Option<bool>,
    pub multi_memory: Option<bool>,
    pub memory64: Option<bool>,
    pub component_model: Option<bool>,
}

/// The executable form of `opt_or`.
fn or_opt(a: &Option<bool>, b: &Option<bool>) -> (r: Option<bool>)
    ensures
        r == opt_or(*a, *b),
{
    match a {
        Some(v) => Some(*v),
        None => match b {
            Some(v) => Some(*v),
            None => None,
        },
    }
}

/// Common options for commands that translate WebAssembly modules: the
/// raw parsed directives of each option group, and the groups they merge
/// into once `configure` has run.
#[derive(Debug)]
pub struct CommonOptions {
    opts_raw: Vec<OptimizeDirective>,
    codegen_raw: Vec<CodegenDirective>,
    debug_raw: Vec<DebugDirective>,
    wasm_raw: Vec<WasmDirective>,
    wasi_raw: Vec<WasiDirective>,
    configured: bool,
    pub opts: OptimizeOptions,
    pub codegen: CodegenOptions,
    pub debug: DebugOptions,
    pub wasm: WasmOptions,
    pub wasi: WasiOptions,
}

impl CommonOptions {
    /// Whether `configure` has merged the raw directives already.
    pub closed spec fn spec_configured(self) -> bool {
        self.configured
    }

    /// The raw optimization directives, as parsed.
    pub closed spec fn spec_opts_raw(self) -> Seq<OptimizeDirective> {
        self.opts_raw@
    }

    /// The raw code-generation directives, as parsed.
    pub closed spec fn spec_codegen_raw(self) -> Seq<CodegenDirective> {
        self.codegen_raw@
    }

    /// The raw debug directives, as parsed.
    pub closed spec fn spec_debug_raw(self) -> Seq<DebugDirective> {
        self.debug_raw@
    }

    /// The raw wasm directives, as parsed.
    pub closed spec fn spec_wasm_raw(self) -> Seq<WasmDirective> {
        self.wasm_raw@
    }

    /// The raw WASI directives, as parsed.
    pub closed spec fn spec_wasi_raw(self) -> Seq<WasiDirective> {
        self.wasi_raw@
    }

    /// The merged optimization options.
    pub closed spec fn spec_opts(self) -> OptimizeOptions {
        self.opts
    }

    /// The merged code-generation options.
    pub closed spec fn spec_codegen(self) -> CodegenOptions {
        self.codegen
    }

    /// The merged debug options.
    pub closed spec fn spec_debug(self) -> DebugOptions {
        self.debug
    }

    /// The merged wasm options.
    pub closed spec fn spec_wasm(self) -> WasmOptions {
        self.wasm
    }

    /// The merged WASI options.
    pub closed spec fn spec_wasi(self) -> WasiOptions {
        self.wasi
    }
}

impl CommonOptions {
    /// Fresh options from the raw directives of the five groups, not yet
    /// configured.
    pub fn new(
        opts_raw: Vec<OptimizeDirective>,
        codegen_raw: Vec<CodegenDirective>,
        debug_raw: Vec<DebugDirective>,
        wasm_raw: Vec<WasmDirective>,
        wasi_raw: Vec<WasiDirective>,
    ) -> (r: CommonOptions)
        ensures
            !r.spec_configured(),
            r.spec_opts_raw() == opts_raw@,
            r.spec_codegen_raw() == codegen_raw@,
            r.spec_debug_raw() == debug_raw@,
            r.spec_wasm_raw() == wasm_raw@,
            r.spec_wasi_raw() == wasi_raw@,
            r.spec_opts() == optimize_defaults(),
            codegen_state(r.spec_codegen()) == codegen_defaults(),
            r.spec_debug() == debug_defaults(),
            r.spec_wasm() == wasm_defaults(),
            wasi_state(r.spec_wasi()) == wasi_defaults(),
    {
        CommonOptions {
            opts_raw,
            codegen_raw,
            debug_raw,
            wasm_raw,
            wasi_raw,
            configured: false,
            opts: Default::default(),
            codegen: Default::default(),
            debug: Default::default(),
            wasm: Default::default(),
            wasi: Default::default(),
        }
    }

    /// Whether `configure` has already merged the raw directives.
    pub fn is_configured(&self) -> (b: bool)
        ensures
            b == self.spec_configured(),
    {
        self.configured
    }

    /// Merge the raw directives of every group into the group fields.
    /// Runs at most once: a second call changes nothing.
    pub fn configure(&mut self)
        ensures
            final(self).spec_configured(),
            old(self).spec_configured() ==> *final(self) == *old(self),
            !old(self).spec_configured() ==> {
                &&& final(self).spec_opts() == merged_optimize(old(self).spec_opts(), old(self).spec_opts_raw())
                &&& codegen_state(final(self).spec_codegen()) == merged_codegen(
                    codegen_state(old(self).spec_codegen()),
                    old(self).spec_codegen_raw(),
                )
                &&& final(self).spec_debug() == merged_debug(old(self).spec_debug(), old(self).spec_debug_raw())
                &&& final(self).spec_wasm() == merged_wasm(old(self).spec_wasm(), old(self).spec_wasm_raw())
                &&& wasi_state(final(self).spec_wasi()) == merged_wasi(
                    wasi_state(old(self).spec_wasi()),
                    old(self).spec_wasi_raw(),
                )
                &&& final(self).spec_opts_raw() == old(self).spec_opts_raw()
                &&& final(self).spec_codegen_raw() == old(self).spec_codegen_raw()
                &&& final(self).spec_debug_raw() == old(self).spec_debug_raw()
                &&& final(self).spec_wasm_raw() == old(self).spec_wasm_raw()
                &&& final(self).spec_wasi_raw() == old(self).spec_wasi_raw()
            },
    {
        if self.configured {
            return ;
        }
        self.configured = true;
        self.opts.configure_with(&self.opts_raw);
        self.codegen.configure_with(&self.codegen_raw);
        self.debug.configure_with(&self.debug_raw);
        self.wasm.configure_with(&self.wasm_raw);
        self.wasi.configure_with(&self.wasi_raw);
    }

    /// Where log output should go according to the merged debug options.
    /// The decision only; installing the logger is the caller's I/O.
    pub fn log_destination(&self) -> (r: LogDestination)
        ensures
            r == log_destination_spec(self.spec_debug().logging, self.spec_debug().log_to_files),
    {
        let disabled: bool = match self.debug.logging {
            Some(v) => !v,
            None => false,
        };
        if disabled {
            LogDestination::Disabled
        } else {
            let to_files: bool = match self.debug.log_to_files {
                Some(v) => v,
                None => false,
            };
            if to_files {
                LogDestination::FilePerThread
            } else {
                LogDestination::Stderr
            }
        }
    }

    /// The effective enablement of each WebAssembly proposal from the
    /// merged wasm options: a proposal's own option when given, else the
    /// `all_proposals` option. Applying the result to an engine
    /// configuration is the caller's work.
    pub fn enable_wasm_features(&self) -> (r: WasmFeatureSettings)
        ensures
            r.simd == opt_or(self.spec_wasm().simd, self.spec_wasm().all_proposals),
            r.relaxed_simd == opt_or(self.spec_wasm().relaxed_simd, self.spec_wasm().all_proposals),
            r.bulk_memory == opt_or(self.spec_wasm().bulk_memory, self.spec_wasm().all_proposals),
            r.reference_types == opt_or(self.spec_wasm().reference_types, self.spec_wasm().all_proposals),
            r.function_references == opt_or(
                self.spec_wasm().function_references,
                self.spec_wasm().all_proposals,
            ),
            r.multi_value == opt_or(self.spec_wasm().multi_value, self.spec_wasm().all_proposals),
            r.tail_call == opt_or(self.spec_wasm().tail_call, self.spec_wasm().all_proposals),
            r.threads == opt_or(self.spec_wasm().threads, self.spec_wasm().all_proposals),
            r.multi_memory == opt_or(self.spec_wasm().multi_memory, self.spec_wasm().all_proposals),
            r.memory64 == opt_or(self.spec_wasm().memory64, self.spec_wasm().all_proposals),
            r.component_model == opt_or(self.spec_wasm().component_model, self.spec_wasm().all_proposals),
    {
        let all = &self.wasm.all_proposals;
        WasmFeatureSettings {
            simd: or_opt(&self.wasm.simd, all),
            relaxed_simd: or_opt(&self.wasm.relaxed_simd, all),
            bulk_memory: or_opt(&self.wasm.bulk_memory, all),
            reference_types: or_opt(&self.wasm.reference_types, all),
            function_references: or_opt(&self.wasm.function_references, all),
            multi_value: or_opt(&self.wasm.multi_value, all),
            tail_call: or_opt(&self.wasm.tail_call, all),
            threads: or_opt(&self.wasm.threads, all),
            multi_memory: or_opt(&self.wasm.multi_memory, all),
            memory64: or_opt(&self.wasm.memory64, all),
            component_model: or_opt(&self.wasm.component_model, all),
        }
    }
}

} // verus!
