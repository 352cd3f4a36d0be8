use aien_benchmarks::system::{
    command_text_or, detect_environment, detect_hardware, get_page_size_kb, gpu_telemetry_fields,
    MeasurementConfig,
};

#[test]
fn default_measurement_config() {
    let c = MeasurementConfig::default();
    assert_eq!(c.concurrency, 10);
    assert_eq!(c.requests, 500);
    assert_eq!(c.warmup, 20);
    assert!(!c.skip_standalone);
    assert!(!c.skip_live);
    assert_eq!(c.python_script_path, "harness/python_baseline.py");
}

#[test]
fn hardware_from_proc_files() {
    let cpuinfo = "processor\t: 0\nBogoMIPS\t: 2000.00\nmodel name\t: Neoverse-V2\n";
    let meminfo = "MemTotal:       127535544 kB\nMemFree:         1000 kB\n";
    let h = detect_hardware(Some(cpuinfo), None, Some("spark-b87b\n"), Some(meminfo), "aarch64", "linux", "unix");
    assert_eq!(h.processor, "Neoverse-V2");
    assert_eq!(h.system, "NVIDIA DGX Spark");
    assert_eq!(h.architecture, "aarch64");
    assert_eq!(h.memory_unified_gb, 121);
    assert_eq!(h.os, "linux unix");
}

#[test]
fn hardware_defaults_and_refinement() {
    let h = detect_hardware(None, None, None, None, "x86_64", "linux", "unix");
    assert_eq!(h.system, "POSIX Compliant Workstation");
    assert_eq!(h.processor, "x86_64");
    assert_eq!(h.memory_unified_gb, 16);
    let h = detect_hardware(None, Some("NVIDIA DGX Spark GB10\0\0"), Some("box"), None, "aarch64", "linux", "unix");
    assert_eq!(h.system, "NVIDIA DGX Spark GB10");
    assert_eq!(h.processor, "NVIDIA Grace Blackwell (GB10, aarch64)");
    let h = detect_hardware(None, Some("\0 \0"), None, Some("MemTotal: lots kB\n"), "aarch64", "linux", "unix");
    assert_eq!(h.system, "POSIX Compliant Workstation");
    assert_eq!(h.processor, "aarch64");
    assert_eq!(h.memory_unified_gb, 16);
    let h = detect_hardware(Some("Hardware : BCM2835 : rev\nmodel name: other\n"), None, Some("  pi  "), None, "aarch64", "linux", "unix");
    assert_eq!(h.processor, "BCM2835");
    assert_eq!(h.system, "pi");
    let h = detect_hardware(Some("model name without colon\nProcessor: ARMv8\n"), None, None, None, "aarch64", "linux", "unix");
    assert_eq!(h.processor, "ARMv8");
}

#[test]
fn environment_from_command_output() {
    let e = detect_environment(Some("rustc 1.90.0\n"), None, Some(" 6.8.0\n"), Some("65536\n"), 10, 500, 20);
    assert_eq!(e.rustc_version, "rustc 1.90.0");
    assert_eq!(e.python_version, "python3 unknown");
    assert_eq!(e.kernel_version, "6.8.0");
    assert_eq!(e.page_size_kb, 64);
    assert_eq!(e.concurrency_tested, 10);
    assert_eq!(e.requests_per_endpoint, 500);
    assert_eq!(e.warmup_requests, 20);
}

#[test]
fn page_size_fallbacks() {
    assert_eq!(get_page_size_kb(Some("4096\n")), 4);
    assert_eq!(get_page_size_kb(Some("0\n")), 4);
    assert_eq!(get_page_size_kb(Some("1000")), 0);
    assert_eq!(get_page_size_kb(Some("undefined")), 4);
    assert_eq!(get_page_size_kb(None), 4);
    assert_eq!(command_text_or(Some("  x y \n"), "z"), "x y");
    assert_eq!(command_text_or(None, "z"), "z");
}

#[test]
fn gpu_telemetry_first_line() {
    assert_eq!(gpu_telemetry_fields(" 42.5 , 87\n10.0, 3\n"), Some(("42.5".to_string(), 87)));
    assert_eq!(gpu_telemetry_fields("[N/A], [N/A]\r\n"), Some(("[N/A]".to_string(), 0)));
    assert_eq!(gpu_telemetry_fields("12.0,7,extra"), Some(("12.0".to_string(), 7)));
    assert_eq!(gpu_telemetry_fields("no comma here\n1,2\n"), None);
    assert_eq!(gpu_telemetry_fields(""), None);
}
