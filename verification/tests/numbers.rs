use download_core::clock::{now_ms, timestamp_from};
use download_core::decimal::{parse_u64, push_decimal};
use download_core::limiter::{elapsed_since, speed_sample, throttle_delay};
use download_core::model::SpeedLimits;
use download_core::protocol::{
    accepts_ranges, check_response, range_header, total_bytes_from, user_agent, ResponseVerdict,
};

fn chars(s: &str) -> Vec<char> {
    s.chars().collect()
}

#[test]
fn decimal_notation_matches_the_standard_library() {
    for n in [0u64, 1, 9, 10, 11, 99, 100, 12345, 9999, u64::MAX] {
        let mut out = vec!['#'];
        push_decimal(&mut out, n);
        let text: String = out.into_iter().collect();
        assert_eq!(text, format!("#{}", n));
    }
}

#[test]
fn parse_u64_matches_the_standard_library() {
    let inputs = [
        "0", "1", "007", "+5", "+", "", "-1", "++1", "12a", " 1", "1 ", "18446744073709551615",
        "18446744073709551616", "99999999999999999999999", "١٢٣", "1024",
    ];
    for input in inputs {
        assert_eq!(parse_u64(&chars(input)), input.parse::<u64>().ok(), "input {:?}", input);
    }
}

#[test]
fn parse_reads_back_what_decimal_writes() {
    for n in [0u64, 7, 10, 4096, u64::MAX] {
        let mut out = Vec::new();
        push_decimal(&mut out, n);
        assert_eq!(parse_u64(&out), Some(n));
    }
}

#[test]
fn timestamp_is_clamped() {
    assert_eq!(timestamp_from(None), 0);
    assert_eq!(timestamp_from(Some(0)), 0);
    assert_eq!(timestamp_from(Some(1_700_000_000_000)), 1_700_000_000_000);
    assert_eq!(timestamp_from(Some(i64::MAX as u128)), i64::MAX);
    assert_eq!(timestamp_from(Some(i64::MAX as u128 + 1)), i64::MAX);
    assert_eq!(timestamp_from(Some(u128::MAX)), i64::MAX);
}

#[test]
fn now_is_a_recent_timestamp() {
    let now = now_ms();
    assert!(now > 1_600_000_000_000);
    assert!(now_ms() >= 0);
}

#[test]
fn limits_normalize_zero_to_none() {
    let n = SpeedLimits { download_bps: Some(0), upload_bps: Some(7) }.normalize();
    assert_eq!(n.download_bps, None);
    assert_eq!(n.upload_bps, Some(7));
    let m = SpeedLimits { download_bps: None, upload_bps: Some(0) }.normalize();
    assert_eq!(m.download_bps, None);
    assert_eq!(m.upload_bps, None);
}

#[test]
fn throttle_delay_exact_values() {
    // no limit: never wait
    assert_eq!(throttle_delay(0, 1_000_000, 1_000_000, 0), 0);
    // 50 000 bytes at 50 000 B/s take one second
    assert_eq!(throttle_delay(50_000, 0, 50_000, 0), 1_000_000_000);
    // 0.4 s of it have passed already
    assert_eq!(throttle_delay(50_000, 0, 50_000, 400_000_000), 600_000_000);
    // the window is ahead of the clock by more than the cap
    assert_eq!(throttle_delay(50_000, 100_000, 50_000, 0), 1_500_000_000);
    // the clock is ahead of the window
    assert_eq!(throttle_delay(50_000, 0, 25_000, 500_000_000), 0);
    assert_eq!(throttle_delay(50_000, 0, 25_000, 2_000_000_000), 0);
    // rounding down to whole nanoseconds
    assert_eq!(throttle_delay(3, 0, 1, 0), 333_333_333);
    // nothing overflows at the extremes
    assert_eq!(throttle_delay(1, u64::MAX, u64::MAX, u64::MAX), 1_500_000_000);
    assert_eq!(throttle_delay(u64::MAX, u64::MAX, u64::MAX, 0), 1_500_000_000);
}

#[test]
fn speed_sample_exact_values() {
    assert_eq!(speed_sample(50_000, 1_000_000_000), 50_000);
    assert_eq!(speed_sample(25_000, 500_000_000), 50_000);
    // spans under a tenth of a second count as a tenth
    assert_eq!(speed_sample(1_000, 1), 10_000);
    assert_eq!(speed_sample(1_000, 0), 10_000);
    assert_eq!(speed_sample(0, 700_000_000), 0);
    assert_eq!(speed_sample(u64::MAX, 100_000_000), u64::MAX);
    assert_eq!(speed_sample(7, 3_000_000_000), 2);
}

#[test]
fn elapsed_never_underflows() {
    assert_eq!(elapsed_since(5, 12), 7);
    assert_eq!(elapsed_since(12, 5), 0);
}

#[test]
fn response_verdicts() {
    assert_eq!(check_response(200, false), ResponseVerdict::Accepted);
    assert_eq!(check_response(206, true), ResponseVerdict::Accepted);
    assert_eq!(check_response(206, false), ResponseVerdict::Accepted);
    assert_eq!(check_response(299, false), ResponseVerdict::Accepted);
    assert_eq!(check_response(200, true), ResponseVerdict::ResumeRefused);
    assert_eq!(check_response(404, true), ResponseVerdict::ResumeRefused);
    assert_eq!(check_response(416, true), ResponseVerdict::RangeNotSatisfiable);
    assert_eq!(check_response(416, false), ResponseVerdict::RangeNotSatisfiable);
    assert_eq!(check_response(404, false), ResponseVerdict::Rejected);
    assert_eq!(check_response(199, false), ResponseVerdict::Rejected);
    assert_eq!(check_response(300, false), ResponseVerdict::Rejected);
}

#[test]
fn range_header_values() {
    assert_eq!(range_header(0), None);
    assert_eq!(range_header(42), Some("bytes=42-".to_string()));
    assert_eq!(range_header(u64::MAX), Some("bytes=18446744073709551615-".to_string()));
}

#[test]
fn total_bytes_adds_the_prefix() {
    assert_eq!(total_bytes_from(&Some("1024".to_string()), 0), Some(1024));
    assert_eq!(total_bytes_from(&Some("70000".to_string()), 30000), Some(100000));
    assert_eq!(total_bytes_from(&Some("abc".to_string()), 5), None);
    assert_eq!(total_bytes_from(&None, 5), None);
    assert_eq!(total_bytes_from(&Some("18446744073709551615".to_string()), 1), None);
}

#[test]
fn accept_ranges_decides_resumption() {
    assert!(accepts_ranges(&Some("bytes".to_string()), false));
    assert!(accepts_ranges(&Some("none, bytes".to_string()), false));
    assert!(!accepts_ranges(&Some("none".to_string()), true));
    assert!(accepts_ranges(&None, true));
    assert!(!accepts_ranges(&None, false));
}

#[test]
fn user_agent_names_the_product() {
    assert_eq!(user_agent(), "FreeDownloadManager/1.0");
}
