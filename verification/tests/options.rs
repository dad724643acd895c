use host_isa::options::{
    CodegenDirective, CommonOptions, DebugDirective, LogDestination, OptLevel, OptimizeDirective,
    Strategy, WasiDirective, WasiNnGraph, WasmDirective,
};

fn configured(
    opts_raw: Vec<OptimizeDirective>,
    codegen_raw: Vec<CodegenDirective>,
    debug_raw: Vec<DebugDirective>,
    wasm_raw: Vec<WasmDirective>,
    wasi_raw: Vec<WasiDirective>,
) -> CommonOptions {
    let mut o = CommonOptions::new(opts_raw, codegen_raw, debug_raw, wasm_raw, wasi_raw);
    o.configure();
    o
}

#[test]
fn later_directives_win() {
    let o = configured(
        vec![
            OptimizeDirective::OptLevel(OptLevel::Speed),
            OptimizeDirective::DynamicMemoryGuardSize(65536),
            OptimizeDirective::OptLevel(OptLevel::SpeedAndSize),
        ],
        vec![],
        vec![],
        vec![],
        vec![],
    );
    assert_eq!(o.opts.opt_level, Some(OptLevel::SpeedAndSize));
    assert_eq!(o.opts.dynamic_memory_guard_size, Some(65536));
    assert_eq!(o.opts.static_memory_forced, None);
    assert_eq!(o.opts.pooling_allocator, None);
}

#[test]
fn list_directives_append_in_order() {
    let o = configured(
        vec![],
        vec![
            CodegenDirective::Compiler(Strategy::Cranelift),
            CodegenDirective::CraneliftFlag("opt-level".to_string(), Some("speed".to_string())),
            CodegenDirective::CraneliftFlag("enable-verifier".to_string(), None),
        ],
        vec![],
        vec![],
        vec![
            WasiDirective::TcpListen("127.0.0.1:8080".to_string()),
            WasiDirective::TcpListen("127.0.0.1:9090".to_string()),
            WasiDirective::NnGraph(WasiNnGraph {
                format: "openvino".to_string(),
                dir: "/models/foo".to_string(),
            }),
        ],
    );
    assert_eq!(o.codegen.compiler, Some(Strategy::Cranelift));
    assert_eq!(
        o.codegen.cranelift,
        vec![
            ("opt-level".to_string(), Some("speed".to_string())),
            ("enable-verifier".to_string(), None),
        ]
    );
    assert_eq!(
        o.wasi.tcplisten,
        vec!["127.0.0.1:8080".to_string(), "127.0.0.1:9090".to_string()]
    );
    assert_eq!(o.wasi.nn_graph.len(), 1);
    assert_eq!(o.wasi.nn_graph[0].format, "openvino");
    assert_eq!(o.wasi.nn_graph[0].dir, "/models/foo");
}

#[test]
fn configure_runs_at_most_once() {
    let mut o = CommonOptions::new(
        vec![OptimizeDirective::StaticMemoryForced(true)],
        vec![],
        vec![],
        vec![WasmDirective::Fuel(99)],
        vec![],
    );
    assert!(!o.is_configured());
    o.configure();
    assert!(o.is_configured());
    assert_eq!(o.opts.static_memory_forced, Some(true));
    assert_eq!(o.wasm.fuel, Some(99));
    o.configure();
    assert_eq!(o.opts.static_memory_forced, Some(true));
    assert_eq!(o.wasm.fuel, Some(99));
}

#[test]
fn wasm_scalar_directives() {
    let o = configured(
        vec![],
        vec![],
        vec![],
        vec![
            WasmDirective::MaxWasmStack(1 << 20),
            WasmDirective::TimeoutMillis(2500),
            WasmDirective::MaxTableElements(4096),
            WasmDirective::NanCanonicalization(true),
        ],
        vec![],
    );
    assert_eq!(o.wasm.max_wasm_stack, Some(1 << 20));
    assert_eq!(o.wasm.timeout_millis, Some(2500));
    assert_eq!(o.wasm.max_table_elements, Some(4096));
    assert_eq!(o.wasm.nan_canonicalization, Some(true));
    assert_eq!(o.wasm.fuel, None);
}

#[test]
fn log_destination_decision() {
    let o = configured(vec![], vec![], vec![DebugDirective::Logging(false)], vec![], vec![]);
    assert_eq!(o.log_destination(), LogDestination::Disabled);

    let o = configured(
        vec![],
        vec![],
        vec![DebugDirective::LogToFiles(true)],
        vec![],
        vec![],
    );
    assert_eq!(o.log_destination(), LogDestination::FilePerThread);

    let o = configured(vec![], vec![], vec![], vec![], vec![]);
    assert_eq!(o.log_destination(), LogDestination::Stderr);

    // Disabled logging wins over the file choice.
    let o = configured(
        vec![],
        vec![],
        vec![DebugDirective::Logging(false), DebugDirective::LogToFiles(true)],
        vec![],
        vec![],
    );
    assert_eq!(o.log_destination(), LogDestination::Disabled);
}

#[test]
fn wasm_features_fall_back_to_all_proposals() {
    let o = configured(
        vec![],
        vec![],
        vec![],
        vec![WasmDirective::AllProposals(true), WasmDirective::Simd(false)],
        vec![],
    );
    let f = o.enable_wasm_features();
    assert_eq!(f.simd, Some(false));
    assert_eq!(f.relaxed_simd, Some(true));
    assert_eq!(f.bulk_memory, Some(true));
    assert_eq!(f.reference_types, Some(true));
    assert_eq!(f.function_references, Some(true));
    assert_eq!(f.multi_value, Some(true));
    assert_eq!(f.tail_call, Some(true));
    assert_eq!(f.threads, Some(true));
    assert_eq!(f.multi_memory, Some(true));
    assert_eq!(f.memory64, Some(true));
    assert_eq!(f.component_model, Some(true));

    let o = configured(vec![], vec![], vec![], vec![WasmDirective::Memory64(true)], vec![]);
    let f = o.enable_wasm_features();
    assert_eq!(f.memory64, Some(true));
    assert_eq!(f.simd, None);
    assert_eq!(f.component_model, None);
}

#[test]
fn debug_string_directives() {
    let o = configured(
        vec![],
        vec![CodegenDirective::CacheConfig("/etc/wasmtime-cache.toml".to_string())],
        vec![DebugDirective::Coredump("core.%p".to_string())],
        vec![],
        vec![],
    );
    assert_eq!(o.codegen.cache_config, Some("/etc/wasmtime-cache.toml".to_string()));
    assert_eq!(o.debug.coredump, Some("core.%p".to_string()));
}
