use aien_benchmarks::memory::{find_pid_by_pattern, pid_from_pgrep_output, rss_kb_candidates, ProcEntry};

#[test]
fn rss_candidates_from_status() {
    let status = "Name:\tcortex-rs\nVmPeak:\t  20000 kB\nVmRSS:\t   10548 kB\nThreads:\t4\n";
    assert_eq!(rss_kb_candidates(status), vec!["10548".to_string()]);
    assert_eq!(rss_kb_candidates("VmRSS:\nVmRSS: abc kB\n"), vec!["abc".to_string()]);
    assert_eq!(rss_kb_candidates("VmRSS:12 kB"), vec!["kB".to_string()]);
    assert!(rss_kb_candidates("").is_empty());
}

#[test]
fn pgrep_output_skips_own_pid() {
    assert_eq!(pid_from_pgrep_output("42\n43\n", 42), Some(43));
    assert_eq!(pid_from_pgrep_output("  77  \n", 1), Some(77));
    assert_eq!(pid_from_pgrep_output("x\n\n5", 1), Some(5));
    assert_eq!(pid_from_pgrep_output("", 1), None);
    assert_eq!(pid_from_pgrep_output("9\n", 9), None);
}

#[test]
fn find_pid_falls_back_to_proc_listing() {
    let entries = vec![
        ProcEntry { name: "self".to_string(), cmdline: Some("openclaw-rs".to_string()) },
        ProcEntry { name: "10".to_string(), cmdline: Some("bash".to_string()) },
        ProcEntry { name: "11".to_string(), cmdline: None },
        ProcEntry { name: "12".to_string(), cmdline: Some("/usr/bin/openclaw-rs\0--serve".to_string()) },
        ProcEntry { name: "13".to_string(), cmdline: Some("openclaw-rs".to_string()) },
    ];
    assert_eq!(find_pid_by_pattern(None, &entries, "openclaw-rs", 99), Some(12));
    assert_eq!(find_pid_by_pattern(None, &entries, "openclaw-rs", 12), Some(13));
    assert_eq!(find_pid_by_pattern(Some("\n"), &entries, "openclaw-rs", 99), Some(12));
    assert_eq!(find_pid_by_pattern(Some("55\n"), &entries, "openclaw-rs", 99), Some(55));
    assert_eq!(find_pid_by_pattern(None, &entries, "cortex-rs", 99), None);
    assert_eq!(find_pid_by_pattern(None, &entries, "", 99), Some(10));
}
