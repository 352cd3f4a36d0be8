use aien_benchmarks::smaps::{
    parse_kb, parse_smaps_rollup, read_process_tree_smaps, tree_totals_fit, ProcessMemorySnapshot,
    ProcessTreeWalk,
};

const ROLLUP: &str = "55d0c8a2c000-7ffd2b1f5000 ---p 00000000 00:00 0                          [rollup]\n\
Rss:                4892 kB\n\
Pss:                1234 kB\n\
Pss_Dirty:           800 kB\n\
Pss_Anon:            700 kB\n\
Shared_Clean:       3000 kB\n\
Shared_Dirty:          0 kB\n\
Private_Clean:       200 kB\n\
Private_Dirty:       900 kB\n\
Referenced:         4892 kB\n";

#[test]
fn parse_kb_reads_first_token() {
    assert_eq!(parse_kb("   4892 kB"), 4892);
    assert_eq!(parse_kb("\t+17 kB"), 17);
    assert_eq!(parse_kb(""), 0);
    assert_eq!(parse_kb("   "), 0);
    assert_eq!(parse_kb(" kB 12"), 0);
    assert_eq!(parse_kb(" -5 kB"), 0);
    assert_eq!(parse_kb(" 18446744073709551615 kB"), u64::MAX);
    assert_eq!(parse_kb(" 18446744073709551616 kB"), 0);
    assert_eq!(parse_kb(" 12kB"), 0);
}

#[test]
fn parse_rollup_reads_five_counters() {
    let s = parse_smaps_rollup(ROLLUP);
    assert_eq!(
        s,
        ProcessMemorySnapshot {
            rss_kb: 4892,
            pss_kb: 1234,
            pss_dirty_kb: 800,
            private_dirty_kb: 900,
            shared_clean_kb: 3000,
        }
    );
}

#[test]
fn parse_rollup_last_line_wins_and_crlf() {
    let s = parse_smaps_rollup("Rss: 10 kB\r\nRss: 20 kB\r\nPss: x\r\n Rss: 99 kB");
    assert_eq!(s.rss_kb, 20);
    assert_eq!(s.pss_kb, 0);
    assert_eq!(parse_smaps_rollup(""), ProcessMemorySnapshot::default());
}

#[test]
fn tree_smaps_sums_readable_rollups() {
    let rollups = vec![
        Some("Rss: 10 kB\nPss: 5 kB\n".to_string()),
        None,
        Some("Rss: 32 kB\nPrivate_Dirty: 7 kB\n".to_string()),
    ];
    assert!(tree_totals_fit(&rollups));
    let t = read_process_tree_smaps(&rollups).unwrap();
    assert_eq!(t.rss_kb, 42);
    assert_eq!(t.pss_kb, 5);
    assert_eq!(t.private_dirty_kb, 7);
    assert_eq!(t.pss_dirty_kb, 0);
    assert_eq!(t.shared_clean_kb, 0);
}

#[test]
fn tree_smaps_none_when_nothing_readable() {
    let rollups: Vec<Option<String>> = vec![None, None];
    assert!(tree_totals_fit(&rollups));
    assert_eq!(read_process_tree_smaps(&rollups), None);
    assert_eq!(read_process_tree_smaps(&Vec::new()), None);
}

#[test]
fn tree_totals_detect_overflow() {
    let rollups = vec![
        Some("Rss: 18446744073709551615 kB\n".to_string()),
        Some("Rss: 1 kB\n".to_string()),
    ];
    assert!(!tree_totals_fit(&rollups));
}

#[test]
fn tree_walk_lists_each_pid_once() {
    let mut w = ProcessTreeWalk::new(100);
    assert_eq!(w.next_parent(), Some(100));
    w.add_children("200 300 200 100 x 400\n");
    assert_eq!(w.pids(), vec![100, 200, 300, 400]);
    assert_eq!(w.next_parent(), Some(400));
    w.add_children("");
    assert_eq!(w.next_parent(), Some(300));
    w.add_children("500 +600");
    assert_eq!(w.pids(), vec![100, 200, 300, 400, 500, 600]);
    assert_eq!(w.next_parent(), Some(600));
    assert_eq!(w.next_parent(), Some(500));
    assert_eq!(w.next_parent(), Some(200));
    assert_eq!(w.next_parent(), None);
}
