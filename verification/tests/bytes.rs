use ra_killer::bytes::format_bytes;

const KB: u64 = 1024;
const MB: u64 = 1024 * 1024;
const GB: u64 = 1024 * 1024 * 1024;

/// The text a 64-bit float division prints with two decimals.
fn float_text(bytes: u64) -> String {
    if bytes >= GB {
        format!("{:.2} GB", bytes as f64 / GB as f64)
    } else if bytes >= MB {
        format!("{:.2} MB", bytes as f64 / MB as f64)
    } else if bytes >= KB {
        format!("{:.2} KB", bytes as f64 / KB as f64)
    } else {
        format!("{} B", bytes)
    }
}

#[test]
fn plain_bytes() {
    assert_eq!(format_bytes(0), "0 B");
    assert_eq!(format_bytes(17), "17 B");
    assert_eq!(format_bytes(1023), "1023 B");
}

#[test]
fn unit_boundaries() {
    assert_eq!(format_bytes(1024), "1.00 KB");
    assert_eq!(format_bytes(MB - 1), "1024.00 KB");
    assert_eq!(format_bytes(MB), "1.00 MB");
    assert_eq!(format_bytes(GB - 1), "1024.00 MB");
    assert_eq!(format_bytes(GB), "1.00 GB");
}

#[test]
fn two_decimals() {
    assert_eq!(format_bytes(1536), "1.50 KB");
    assert_eq!(format_bytes(GB + GB / 2), "1.50 GB");
    assert_eq!(format_bytes(2_600_000_000), "2.42 GB");
    assert_eq!(format_bytes(22_300_000_000), "20.77 GB");
}

#[test]
fn exact_ties_round_to_even() {
    // 1.125 GB lies exactly between 1.12 and 1.13.
    assert_eq!(format_bytes(9 * (GB / 8)), "1.12 GB");
    // 1.375 GB lies exactly between 1.37 and 1.38.
    assert_eq!(format_bytes(11 * (GB / 8)), "1.38 GB");
    assert_eq!(format_bytes(9 * (KB / 8)), "1.12 KB");
}

#[test]
fn largest_sizes() {
    assert_eq!(format_bytes(u64::MAX), float_text(u64::MAX));
    assert_eq!(format_bytes(u64::MAX), "17179869184.00 GB");
    assert_eq!(format_bytes(1 << 53), float_text(1 << 53));
    assert_eq!(format_bytes((1 << 53) + 1), float_text((1 << 53) + 1));
}

#[test]
fn agrees_with_float_formatting() {
    let mut samples: Vec<u64> = Vec::new();
    for i in 0..5000u64 {
        samples.push(i);
        samples.push(i * 977);
        samples.push(i * 104_729);
        samples.push(GB + i * 1_234_567);
        samples.push(i * (GB / 8));
        samples.push(i * (MB / 8));
        samples.push(i * (KB / 8));
        samples.push(u64::MAX - i * 3_000_000_007);
        samples.push((1u64 << 53).wrapping_mul(i % 2000 + 1).wrapping_add(i * 37));
    }
    let mut x: u64 = 0x9e37_79b9_7f4a_7c15;
    for _ in 0..20000 {
        x ^= x << 13;
        x ^= x >> 7;
        x ^= x << 17;
        samples.push(x);
        samples.push(x >> (x % 64));
    }
    for b in samples {
        assert_eq!(format_bytes(b), float_text(b), "bytes = {}", b);
    }
}
