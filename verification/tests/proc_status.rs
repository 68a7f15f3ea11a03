use ds_odrl_adapters::proc_status::{peak_rss_bytes, proc_status_kb, rss_bytes};

const STATUS: &str = "Name:\tperf\nUmask:\t0022\nState:\tR (running)\nVmPeak:\t   20000 kB\nVmHWM:\t   11396 kB\nVmRSS:\t    8448 kB\nThreads:\t1\n";

#[test]
fn rss_and_peak_are_read_in_kilobytes_and_reported_in_bytes() {
    assert_eq!(rss_bytes(STATUS), 8448 * 1024);
    assert_eq!(peak_rss_bytes(STATUS), 11396 * 1024);
}

#[test]
fn a_missing_field_reads_as_zero() {
    assert_eq!(rss_bytes("Name:\tperf\n"), 0);
    assert_eq!(proc_status_kb("", "VmRSS:"), None);
}

#[test]
fn the_first_line_carrying_the_field_decides() {
    assert_eq!(proc_status_kb("VmRSS:\tlots kB\nVmRSS:\t5 kB\n", "VmRSS:"), None);
    assert_eq!(proc_status_kb("VmRSS:\t3 kB\nVmRSS:\t5 kB\n", "VmRSS:"), Some(3));
    assert_eq!(proc_status_kb("VmRSS:\n", "VmRSS:"), None);
}

#[test]
fn a_field_must_start_its_line() {
    assert_eq!(proc_status_kb("XVmRSS:\t9 kB\n", "VmRSS:"), None);
}

#[test]
fn crlf_line_endings_and_a_missing_final_newline_are_accepted() {
    assert_eq!(proc_status_kb("Name:\tx\r\nVmRSS:\t7 kB\r\n", "VmRSS:"), Some(7));
    assert_eq!(proc_status_kb("VmRSS:\t7", "VmRSS:"), Some(7));
}

#[test]
fn the_number_parses_like_u64_from_str() {
    assert_eq!(proc_status_kb("VmRSS: +12 kB", "VmRSS:"), Some(12));
    assert_eq!(proc_status_kb("VmRSS: 18446744073709551615 kB", "VmRSS:"), Some(u64::MAX));
    assert_eq!(proc_status_kb("VmRSS: 18446744073709551616 kB", "VmRSS:"), None);
    assert_eq!(proc_status_kb("VmRSS: 12kB", "VmRSS:"), None);
    assert_eq!(proc_status_kb("VmRSS: -1 kB", "VmRSS:"), None);
}

#[test]
fn a_byte_count_past_u64_wraps_as_a_release_build_does() {
    let huge = "VmRSS: 18014398509481984 kB\n"; // 2^54 kB = 2^64 bytes
    assert_eq!(rss_bytes(huge), 0);
}
