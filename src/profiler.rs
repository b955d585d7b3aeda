//! Settings of the CPU and memory profilers, and the handler that builds a
//! profiler from them. Running a profiler is left to the caller.

use vstd::prelude::*;

verus! {

/// Sampling frequency of the CPU profiler, in samples per second, by default.
pub const DEFAULT_FREQUENCY: i32 = 100;

/// How long a profiler runs, in seconds, by default.
pub const DEFAULT_DURATION_SECS: u64 = 100;

/// Settings of the CPU profiler.
#[derive(Clone, Debug)]
pub struct CpuProfilerConfig {
    pub duration_secs: u64,
    pub frequency: i32,
    pub svg_result_path: String,
}

impl CpuProfilerConfig {
    /// The default settings: a flame graph under `./profiling_results`.
    pub fn new_with_defaults() -> (r: Option<Self>)
        ensures
            r matches Some(c) && c.duration_secs == DEFAULT_DURATION_SECS && c.frequency
                == DEFAULT_FREQUENCY && c.svg_result_path@
                == "./profiling_results/cpu_flamegraph.svg"@,
    {
        Some(
            CpuProfilerConfig {
                duration_secs: DEFAULT_DURATION_SECS,
                frequency: DEFAULT_FREQUENCY,
                svg_result_path: "./profiling_results/cpu_flamegraph.svg".to_owned(),
            },
        )
    }
}

/// Settings of the memory profiler.
#[derive(Clone, Debug)]
pub struct MemProfilerConfig {
    pub duration_secs: u64,
    pub txt_result_path: String,
    pub svg_result_path: String,
}

impl MemProfilerConfig {
    /// The default settings: a text and an SVG heap profile under
    /// `./profiling_results`.
    pub fn new_with_defaults() -> (r: Option<Self>)
        ensures
            r matches Some(c) && c.duration_secs == DEFAULT_DURATION_SECS && c.txt_result_path@
                == "./profiling_results/heap.txt"@ && c.svg_result_path@
                == "./profiling_results/heap.svg"@,
    {
        Some(
            MemProfilerConfig {
                duration_secs: DEFAULT_DURATION_SECS,
                txt_result_path: "./profiling_results/heap.txt".to_owned(),
                svg_result_path: "./profiling_results/heap.svg".to_owned(),
            },
        )
    }
}

/// Settings of both profilers; either may be absent.
#[derive(Clone, Debug)]
pub struct ProfilerConfig {
    pub cpu_profiler_config: Option<CpuProfilerConfig>,
    pub mem_profiler_config: Option<MemProfilerConfig>,
}

impl ProfilerConfig {
    /// Both profilers with their default settings.
    pub fn new_with_defaults() -> (r: Self)
        ensures
            r.cpu_profiler_config matches Some(c) && c.duration_secs == DEFAULT_DURATION_SECS
                && c.frequency == DEFAULT_FREQUENCY && c.svg_result_path@
                == "./profiling_results/cpu_flamegraph.svg"@,
            r.mem_profiler_config matches Some(m) && m.duration_secs == DEFAULT_DURATION_SECS
                && m.txt_result_path@ == "./profiling_results/heap.txt"@ && m.svg_result_path@
                == "./profiling_results/heap.svg"@,
    {
        ProfilerConfig {
            cpu_profiler_config: CpuProfilerConfig::new_with_defaults(),
            mem_profiler_config: MemProfilerConfig::new_with_defaults(),
        }
    }
}

/// A CPU profiler: samples for `duration_secs` at `frequency` and writes a
/// flame graph to `svg_result_path`.
#[derive(Clone, Debug)]
pub struct CpuProfiler {
    pub duration_secs: u64,
    pub frequency: i32,
    pub svg_result_path: String,
}

impl CpuProfiler {
    /// A CPU profiler with the given settings.
    pub fn new(config: &CpuProfilerConfig) -> (r: Self)
        ensures
            r.duration_secs == config.duration_secs,
            r.frequency == config.frequency,
            r.svg_result_path@ == config.svg_result_path@,
    {
        CpuProfiler {
            duration_secs: config.duration_secs,
            frequency: config.frequency,
            svg_result_path: config.svg_result_path.clone(),
        }
    }
}

/// A heap profiler: records for `duration` seconds and writes a text and an
/// SVG profile.
#[derive(Clone, Debug)]
pub struct MemProfiler {
    pub duration: u64,
    pub memory_profiling_result_txt: String,
    pub memory_profiling_result_svg: String,
}

impl MemProfiler {
    /// A heap profiler with the given settings.
    pub fn new(config: &MemProfilerConfig) -> (r: Self)
        ensures
            r.duration == config.duration_secs,
            r.memory_profiling_result_txt@ == config.txt_result_path@,
            r.memory_profiling_result_svg@ == config.svg_result_path@,
    {
        MemProfiler {
            duration: config.duration_secs,
            memory_profiling_result_txt: config.txt_result_path.clone(),
            memory_profiling_result_svg: config.svg_result_path.clone(),
        }
    }
}

/// Builds profilers from a set of settings.
pub struct ProfilerHandler {
    config: ProfilerConfig,
}

impl ProfilerHandler {
    /// The settings that the handler builds from.
    pub closed spec fn spec_config(self) -> ProfilerConfig {
        self.config
    }

    /// A handler for the given settings.
    pub fn new(config: ProfilerConfig) -> (r: Self)
        ensures
            r.spec_config() == config,
    {
        ProfilerHandler { config }
    }

    /// Whether CPU profiler settings are present.
    pub fn has_cpu_profiler(&self) -> (r: bool)
        ensures
            r == self.spec_config().cpu_profiler_config is Some,
    {
        self.config.cpu_profiler_config.is_some()
    }

    /// Whether memory profiler settings are present.
    pub fn has_mem_profiler(&self) -> (r: bool)
        ensures
            r == self.spec_config().mem_profiler_config is Some,
    {
        self.config.mem_profiler_config.is_some()
    }

    /// A CPU profiler built from the CPU settings, which must be present.
    pub fn get_cpu_profiler(&self) -> (r: CpuProfiler)
        requires
            self.spec_config().cpu_profiler_config is Some,
        ensures
            self.spec_config().cpu_profiler_config matches Some(c) && r.duration_secs
                == c.duration_secs && r.frequency == c.frequency && r.svg_result_path@
                == c.svg_result_path@,
    {
        match &self.config.cpu_profiler_config {
            Some(c) => CpuProfiler::new(c),
            None => CpuProfiler { duration_secs: 0, frequency: 0, svg_result_path: String::new() },
        }
    }

    /// A heap profiler built from the memory settings, which must be present.
    pub fn get_mem_profiler(&self) -> (r: MemProfiler)
        requires
            self.spec_config().mem_profiler_config is Some,
        ensures
            self.spec_config().mem_profiler_config matches Some(m) && r.duration
                == m.duration_secs && r.memory_profiling_result_txt@ == m.txt_result_path@
                && r.memory_profiling_result_svg@ == m.svg_result_path@,
    {
        match &self.config.mem_profiler_config {
            Some(m) => MemProfiler::new(m),
            None => MemProfiler {
                duration: 0,
                memory_profiling_result_txt: String::new(),
                memory_profiling_result_svg: String::new(),
            },
        }
    }
}

} // verus!
