use paperexp::text::{
    compaction_trigger_bytes, cpus_from_lscpu, is_int, is_usize, parse_compact_stats,
    parse_usize, CompactInstrumentationStats,
};

#[test]
fn parses_decimal_usizes() {
    assert_eq!(parse_usize("42"), Some(42));
    assert_eq!(parse_usize("+7"), Some(7));
    assert_eq!(parse_usize("007"), Some(7));
    assert_eq!(parse_usize("18446744073709551615"), Some(usize::MAX));
}

#[test]
fn refuses_what_is_no_usize() {
    assert_eq!(parse_usize(""), None);
    assert_eq!(parse_usize("+"), None);
    assert_eq!(parse_usize("-1"), None);
    assert_eq!(parse_usize(" 1"), None);
    assert_eq!(parse_usize("1 "), None);
    assert_eq!(parse_usize("12a"), None);
    assert_eq!(parse_usize("18446744073709551616"), None);
}

#[test]
fn command_line_values_are_checked() {
    assert_eq!(is_int("16".to_string()), Ok(()));
    assert_eq!(is_int("sixteen".to_string()), Err("Not a valid usize".to_string()));
    assert_eq!(is_usize("1000".to_string()), Ok(()));
    assert_eq!(is_usize("-3".to_string()), Err("Not a valid usize".to_string()));
}

#[test]
fn reads_compaction_counters() {
    assert_eq!(
        parse_compact_stats("12 3\n"),
        Some(CompactInstrumentationStats { ops: 12, undos: 3 })
    );
    assert_eq!(
        parse_compact_stats("  5\t\t6 more words"),
        Some(CompactInstrumentationStats { ops: 5, undos: 6 })
    );
    assert_eq!(parse_compact_stats("7"), None);
    assert_eq!(parse_compact_stats(""), None);
    assert_eq!(parse_compact_stats("x 7"), None);
}

#[test]
fn compaction_request_is_decimal_and_nul_terminated() {
    assert_eq!(compaction_trigger_bytes(512), b"512\0".to_vec());
    assert_eq!(compaction_trigger_bytes(7), b"7\0".to_vec());
    assert_eq!(compaction_trigger_bytes(65535), b"65535\0".to_vec());
    assert_eq!(compaction_trigger_bytes(0), vec![0u8]);
}

#[test]
fn cpu_count_from_lscpu_report() {
    let report = "Architecture:        x86_64\nCPU op-mode(s):      32-bit, 64-bit\nCPU(s):              8\nOn-line CPU(s) list: 0-7\n";
    assert_eq!(cpus_from_lscpu(report), Some(8));
    assert_eq!(cpus_from_lscpu("Architecture: x86_64\n"), None);
    assert_eq!(cpus_from_lscpu("CPU(s): many\n"), None);
}
