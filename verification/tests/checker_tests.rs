use jolt::checker::SystemChecker;

#[test]
fn test_format_bytes() {
    assert_eq!(SystemChecker::format_bytes(500), "500 B");
    assert_eq!(SystemChecker::format_bytes(1024), "1.00 KB");
    assert_eq!(SystemChecker::format_bytes(1024 * 1024 * 5), "5.00 MB");
}

fn reference_format(bytes: u64) -> String {
    const KB: u64 = 1024;
    const MB: u64 = KB * 1024;
    const GB: u64 = MB * 1024;
    if bytes >= GB {
        format!("{:.2} GB", bytes as f64 / GB as f64)
    } else if bytes >= MB {
        format!("{:.2} MB", bytes as f64 / MB as f64)
    } else if bytes >= KB {
        format!("{:.2} KB", bytes as f64 / KB as f64)
    } else {
        format!("{} B", bytes)
    }
}

#[test]
fn format_bytes_matches_float_formatting_on_ties_and_edges() {
    let mut samples: Vec<u64> = vec![0, 1, 9, 10, 1023, 1025, 1152, 1408, 1664, 2047, 1048575,
        1048576, 1073741823, 1073741824, u64::MAX, u64::MAX - 1, 1 << 53, (1 << 53) + 1,
        (1 << 54) + 3, 9007199254740993, 18446744073709549568, 18446744073709550591,
        18446744073709550592];
    let mut x: u64 = 12345;
    for _ in 0..20000 {
        x = x.wrapping_mul(6364136223846793005).wrapping_add(1442695040888963407);
        samples.push(x >> (x % 64));
        samples.push((x % 5000) * 128 + 1024);
    }
    for b in samples {
        assert_eq!(SystemChecker::format_bytes(b), reference_format(b), "bytes = {}", b);
    }
}
