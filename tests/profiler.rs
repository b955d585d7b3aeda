use aggregator_v2::profiler::{
    CpuProfiler, CpuProfilerConfig, MemProfiler, MemProfilerConfig, ProfilerConfig,
    ProfilerHandler,
};

#[test]
fn default_settings() {
    let config = ProfilerConfig::new_with_defaults();
    let cpu = config.cpu_profiler_config.clone().unwrap();
    assert_eq!(cpu.frequency, 100);
    assert_eq!(cpu.duration_secs, 100);
    assert_eq!(cpu.svg_result_path, "./profiling_results/cpu_flamegraph.svg");
    let mem = config.mem_profiler_config.clone().unwrap();
    assert_eq!(mem.duration_secs, 100);
    assert_eq!(mem.txt_result_path, "./profiling_results/heap.txt");
    assert_eq!(mem.svg_result_path, "./profiling_results/heap.svg");
}

#[test]
fn handler_builds_profilers_from_settings() {
    let config = ProfilerConfig {
        cpu_profiler_config: Some(CpuProfilerConfig {
            duration_secs: 7,
            frequency: 99,
            svg_result_path: "cpu.svg".to_string(),
        }),
        mem_profiler_config: Some(MemProfilerConfig {
            duration_secs: 3,
            txt_result_path: "heap.txt".to_string(),
            svg_result_path: "heap.svg".to_string(),
        }),
    };
    let handler = ProfilerHandler::new(config);
    assert!(handler.has_cpu_profiler());
    assert!(handler.has_mem_profiler());
    let cpu: CpuProfiler = handler.get_cpu_profiler();
    assert_eq!(cpu.duration_secs, 7);
    assert_eq!(cpu.frequency, 99);
    assert_eq!(cpu.svg_result_path, "cpu.svg");
    let mem: MemProfiler = handler.get_mem_profiler();
    assert_eq!(mem.duration, 3);
    assert_eq!(mem.memory_profiling_result_txt, "heap.txt");
    assert_eq!(mem.memory_profiling_result_svg, "heap.svg");
}

#[test]
fn handler_reports_missing_settings() {
    let handler = ProfilerHandler::new(ProfilerConfig {
        cpu_profiler_config: None,
        mem_profiler_config: MemProfilerConfig::new_with_defaults(),
    });
    assert!(!handler.has_cpu_profiler());
    assert!(handler.has_mem_profiler());
    assert_eq!(
        CpuProfilerConfig::new_with_defaults().unwrap().svg_result_path,
        "./profiling_results/cpu_flamegraph.svg"
    );
}
