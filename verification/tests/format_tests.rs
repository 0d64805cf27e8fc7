use mod_updater::format::{format_percent, format_size, format_speed};

fn float_size(bytes: u64) -> String {
    const KB: u64 = 1024;
    const MB: u64 = KB * 1024;
    const GB: u64 = MB * 1024;
    if bytes >= GB {
        format!("{:.2} GB", bytes as f64 / GB as f64)
    } else if bytes >= MB {
        format!("{:.2} MB", bytes as f64 / MB as f64)
    } else if bytes >= KB {
        format!("{:.2} KB", bytes as f64 / KB as f64)
    } else {
        format!("{} bytes", bytes)
    }
}

fn float_speed(bytes_per_sec: f64) -> String {
    const KB: f64 = 1024.0;
    const MB: f64 = KB * 1024.0;
    const GB: f64 = MB * 1024.0;
    if bytes_per_sec >= GB {
        format!("{:.2} GB/s", bytes_per_sec / GB)
    } else if bytes_per_sec >= MB {
        format!("{:.2} MB/s", bytes_per_sec / MB)
    } else if bytes_per_sec >= KB {
        format!("{:.2} KB/s", bytes_per_sec / KB)
    } else {
        format!("{:.0} bytes/s", bytes_per_sec)
    }
}

#[test]
fn size_of_nothing() {
    assert_eq!(format_size(0), "0 bytes");
}

#[test]
fn size_of_one_and_a_half_kilobytes() {
    assert_eq!(format_size(1536), "1.50 KB");
}

#[test]
fn size_of_one_gigabyte() {
    assert_eq!(format_size(1_073_741_824), "1.00 GB");
}

#[test]
fn size_at_the_unit_borders() {
    assert_eq!(format_size(1), "1 bytes");
    assert_eq!(format_size(1023), "1023 bytes");
    assert_eq!(format_size(1024), "1.00 KB");
    assert_eq!(format_size(1_048_575), "1024.00 KB");
    assert_eq!(format_size(1_048_576), "1.00 MB");
    assert_eq!(format_size(1_073_741_823), "1024.00 MB");
    assert_eq!(format_size(5 * 1_073_741_824 + 536_870_912), "5.50 GB");
}

#[test]
fn size_rounds_to_the_nearest_hundredth() {
    // 1029 / 1024 = 1.00488..., 1030 / 1024 = 1.00585...
    assert_eq!(format_size(1029), "1.00 KB");
    assert_eq!(format_size(1030), "1.01 KB");
    // 2047 / 1024 = 1.99902...
    assert_eq!(format_size(2047), "2.00 KB");
}

#[test]
fn size_tie_goes_to_the_even_hundredth() {
    // 1152 / 1024 = 1.125 and 1408 / 1024 = 1.375, both exactly.
    assert_eq!(format_size(1152), "1.12 KB");
    assert_eq!(format_size(1408), "1.38 KB");
}

#[test]
fn size_of_the_largest_count() {
    assert_eq!(format_size(u64::MAX), "17179869184.00 GB");
}

#[test]
fn size_agrees_with_floating_point_formatting() {
    let mut samples: Vec<u64> = vec![
        0, 1, 999, 1023, 1024, 1025, 1152, 1408, 1536, 10_000, 123_456, 1_048_575, 1_048_576,
        1_500_000, 99_999_999, 1_073_741_823, 1_073_741_824, 1_610_612_736, 123_456_789_012,
        4_503_599_627_370_496,
    ];
    let mut n: u64 = 7;
    for _ in 0..2000 {
        n = n.wrapping_mul(6364136223846793005).wrapping_add(1442695040888963407);
        samples.push(n >> 12);
        samples.push(n >> 30);
        samples.push(n >> 44);
    }
    for bytes in samples {
        assert_eq!(format_size(bytes), float_size(bytes), "for {}", bytes);
    }
}

#[test]
fn speed_in_each_unit() {
    assert_eq!(format_speed(0), "0 bytes/s");
    assert_eq!(format_speed(1023), "1023 bytes/s");
    assert_eq!(format_speed(1536), "1.50 KB/s");
    assert_eq!(format_speed(3 * 1_048_576), "3.00 MB/s");
    assert_eq!(format_speed(1_073_741_824), "1.00 GB/s");
}

#[test]
fn speed_agrees_with_floating_point_formatting() {
    let mut n: u64 = 11;
    for _ in 0..2000 {
        n = n.wrapping_mul(6364136223846793005).wrapping_add(1442695040888963407);
        let rate = n >> 20;
        assert_eq!(format_speed(rate), float_speed(rate as f64), "for {}", rate);
    }
}

#[test]
fn percent_of_a_whole() {
    assert_eq!(format_percent(0, 1024), "0.00%");
    assert_eq!(format_percent(512, 1024), "50.00%");
    assert_eq!(format_percent(1024, 1024), "100.00%");
    assert_eq!(format_percent(1, 3), "33.33%");
    assert_eq!(format_percent(2, 3), "66.67%");
    assert_eq!(format_percent(1, 8), "12.50%");
}

#[test]
fn percent_tie_goes_to_the_even_hundredth() {
    // 1 / 32 = 3.125 %, 3 / 32 = 9.375 %
    assert_eq!(format_percent(1, 32), "3.12%");
    assert_eq!(format_percent(3, 32), "9.38%");
}

#[test]
fn percent_of_more_than_the_whole() {
    assert_eq!(format_percent(u64::MAX, 1), "1844674407370955161500.00%");
}
