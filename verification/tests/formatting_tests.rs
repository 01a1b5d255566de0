//! Tests for the formatting helpers.

use fusabi_tui::formatting::{format_bytes, format_duration, format_latency, format_number};

#[test]
fn test_format_bytes_small() {
    // Bytes below 1024 should be displayed as-is
    assert_eq!(format_bytes(0), "0 B");
    assert_eq!(format_bytes(1), "1 B");
    assert_eq!(format_bytes(512), "512 B");
    assert_eq!(format_bytes(1023), "1023 B");
}

#[test]
fn test_format_bytes_kilobytes() {
    // Bytes in KB range should use KB suffix
    assert_eq!(format_bytes(1024), "1.00 KB");
    assert_eq!(format_bytes(2048), "2.00 KB");
    assert_eq!(format_bytes(10_240), "10.00 KB");
    assert_eq!(format_bytes(524_288), "512.00 KB");
    assert_eq!(format_bytes(1_048_575), "1024.00 KB");
}

#[test]
fn test_format_bytes_megabytes() {
    // Bytes in MB range should use MB suffix
    assert_eq!(format_bytes(1_048_576), "1.00 MB");
    assert_eq!(format_bytes(5_242_880), "5.00 MB");
    assert_eq!(format_bytes(104_857_600), "100.00 MB");
    assert_eq!(format_bytes(536_870_912), "512.00 MB");
    assert_eq!(format_bytes(1_073_741_823), "1024.00 MB");
}

#[test]
fn test_format_bytes_gigabytes() {
    // Bytes in GB range should use GB suffix
    assert_eq!(format_bytes(1_073_741_824), "1.00 GB");
    assert_eq!(format_bytes(3_221_225_472), "3.00 GB");
    assert_eq!(format_bytes(10_737_418_240), "10.00 GB");
    assert_eq!(format_bytes(107_374_182_400), "100.00 GB");
}

#[test]
fn test_format_bytes_boundary_cases() {
    // Test exact boundary values
    assert_eq!(format_bytes(1023), "1023 B");
    assert_eq!(format_bytes(1024), "1.00 KB");
    assert_eq!(format_bytes(1_048_575), "1024.00 KB");
    assert_eq!(format_bytes(1_048_576), "1.00 MB");
    assert_eq!(format_bytes(1_073_741_823), "1024.00 MB");
    assert_eq!(format_bytes(1_073_741_824), "1.00 GB");
}

#[test]
fn test_format_bytes_fractional() {
    // Test fractional values
    assert_eq!(format_bytes(1536), "1.50 KB"); // 1.5 KB
    assert_eq!(format_bytes(2_621_440), "2.50 MB"); // 2.5 MB
    assert_eq!(format_bytes(5_905_580_032), "5.50 GB"); // 5.5 GB
}

#[test]
fn test_format_bytes_large_values() {
    // Test very large values (rounded to two decimal places,
    // u64::MAX / GB rounds up to 17179869184.00)
    let result = format_bytes(u64::MAX);
    assert!(result.starts_with("17179869184") || result.starts_with("17179869183"));
    assert!(result.ends_with(" GB"));
}

#[test]
fn test_format_number_small() {
    // Numbers below 1,000 should be displayed as-is
    assert_eq!(format_number(0), "0");
    assert_eq!(format_number(1), "1");
    assert_eq!(format_number(99), "99");
    assert_eq!(format_number(999), "999");
}

#[test]
fn test_format_number_thousands() {
    // Numbers in thousands should use K suffix
    assert_eq!(format_number(1_000), "1.00K");
    assert_eq!(format_number(1_500), "1.50K");
    assert_eq!(format_number(10_000), "10.00K");
    assert_eq!(format_number(999_999), "1000.00K");
}

#[test]
fn test_format_number_millions() {
    // Numbers in millions should use M suffix
    assert_eq!(format_number(1_000_000), "1.00M");
    assert_eq!(format_number(2_500_000), "2.50M");
    assert_eq!(format_number(100_000_000), "100.00M");
    assert_eq!(format_number(999_999_999), "1000.00M");
}

#[test]
fn test_format_number_billions() {
    // Numbers in billions should use B suffix
    assert_eq!(format_number(1_000_000_000), "1.00B");
    assert_eq!(format_number(3_500_000_000), "3.50B");
    assert_eq!(format_number(10_000_000_000), "10.00B");
    assert_eq!(format_number(u64::MAX), "18446744073.71B");
}

#[test]
fn test_format_number_boundary_cases() {
    // Test exact boundary values
    assert_eq!(format_number(999), "999");
    assert_eq!(format_number(1_000), "1.00K");
    assert_eq!(format_number(999_999), "1000.00K");
    assert_eq!(format_number(1_000_000), "1.00M");
    assert_eq!(format_number(999_999_999), "1000.00M");
    assert_eq!(format_number(1_000_000_000), "1.00B");
}

#[test]
fn test_format_duration_seconds_only() {
    // Durations less than a minute should show seconds only
    assert_eq!(format_duration(0), "0s");
    assert_eq!(format_duration(1), "1s");
    assert_eq!(format_duration(42), "42s");
    assert_eq!(format_duration(59), "59s");
}

#[test]
fn test_format_duration_minutes() {
    // Durations >= 1 minute should show minutes and seconds
    assert_eq!(format_duration(60), "1m 0s");
    assert_eq!(format_duration(90), "1m 30s");
    assert_eq!(format_duration(312), "5m 12s");
    assert_eq!(format_duration(3599), "59m 59s");
}

#[test]
fn test_format_duration_hours() {
    // Durations >= 1 hour should show hours, minutes, and seconds
    assert_eq!(format_duration(3600), "1h 0m 0s");
    assert_eq!(format_duration(3661), "1h 1m 1s");
    assert_eq!(format_duration(9045), "2h 30m 45s");
    assert_eq!(format_duration(86399), "23h 59m 59s");
}

#[test]
fn test_format_duration_days() {
    // Test durations spanning multiple days
    assert_eq!(format_duration(86400), "24h 0m 0s");
    assert_eq!(format_duration(172800 + 3661), "49h 1m 1s");
}

#[test]
fn test_format_duration_boundary_cases() {
    // Test exact boundary values
    assert_eq!(format_duration(59), "59s");
    assert_eq!(format_duration(60), "1m 0s");
    assert_eq!(format_duration(3599), "59m 59s");
    assert_eq!(format_duration(3600), "1h 0m 0s");
}

#[test]
fn test_format_latency_microseconds() {
    // Latencies below 1000 μs should be displayed as-is
    assert_eq!(format_latency(0), "0μs");
    assert_eq!(format_latency(1), "1μs");
    assert_eq!(format_latency(500), "500μs");
    assert_eq!(format_latency(999), "999μs");
}

#[test]
fn test_format_latency_milliseconds() {
    // Latencies in milliseconds should use ms suffix
    assert_eq!(format_latency(1_000), "1.00ms");
    assert_eq!(format_latency(1_500), "1.50ms");
    assert_eq!(format_latency(10_000), "10.00ms");
    assert_eq!(format_latency(100_000), "100.00ms");
    assert_eq!(format_latency(999_999), "1000.00ms");
}

#[test]
fn test_format_latency_seconds() {
    // Latencies in seconds should use s suffix
    assert_eq!(format_latency(1_000_000), "1.00s");
    assert_eq!(format_latency(2_500_000), "2.50s");
    assert_eq!(format_latency(10_000_000), "10.00s");
    assert_eq!(format_latency(100_000_000), "100.00s");
}

#[test]
fn test_format_latency_boundary_cases() {
    // Test exact boundary values
    assert_eq!(format_latency(999), "999μs");
    assert_eq!(format_latency(1_000), "1.00ms");
    assert_eq!(format_latency(999_999), "1000.00ms");
    assert_eq!(format_latency(1_000_000), "1.00s");
}

#[test]
fn test_format_latency_common_values() {
    // Test typical latency values seen in practice
    assert_eq!(format_latency(10), "10μs"); // Fast operation
    assert_eq!(format_latency(100), "100μs"); // Memory access
    assert_eq!(format_latency(5_000), "5.00ms"); // Network request
    assert_eq!(format_latency(50_000), "50.00ms"); // Slow query
    assert_eq!(format_latency(1_000_000), "1.00s"); // Timeout
}

#[test]
fn test_format_latency_large_values() {
    // Test very large latency values
    assert_eq!(format_latency(u64::MAX), "18446744073709.55s");
}
