use mntn::utils::format::bytes_to_human_readable;

#[test]
fn test_zero_bytes() {
    assert_eq!(bytes_to_human_readable(0), "0 bytes");
}

#[test]
fn test_one_byte() {
    assert_eq!(bytes_to_human_readable(1), "1 bytes");
}

#[test]
fn test_bytes_below_kib() {
    assert_eq!(bytes_to_human_readable(512), "512 bytes");
    assert_eq!(bytes_to_human_readable(1023), "1023 bytes");
}

#[test]
fn test_exactly_one_kib() {
    assert_eq!(bytes_to_human_readable(1024), "1 KiB");
}

#[test]
fn test_kib_with_fraction() {
    // 1.5 KiB = 1536 bytes
    assert_eq!(bytes_to_human_readable(1536), "1.5 KiB");
    // 2.5 KiB = 2560 bytes
    assert_eq!(bytes_to_human_readable(2560), "2.5 KiB");
}

#[test]
fn test_exactly_one_mib() {
    assert_eq!(bytes_to_human_readable(1048576), "1 MiB");
}

#[test]
fn test_mib_with_fraction() {
    assert_eq!(bytes_to_human_readable(1572864), "1.5 MiB");
}

#[test]
fn test_exactly_one_gib() {
    assert_eq!(bytes_to_human_readable(1073741824), "1 GiB");
}

#[test]
fn test_gib_with_fraction() {
    assert_eq!(bytes_to_human_readable(2415919104), "2.25 GiB");
}

#[test]
fn test_exactly_one_tib() {
    assert_eq!(bytes_to_human_readable(1099511627776), "1 TiB");
}

#[test]
fn test_exactly_one_pib() {
    assert_eq!(bytes_to_human_readable(1125899906842624), "1 PiB");
}

#[test]
fn test_large_pib_value() {
    assert_eq!(bytes_to_human_readable(11258999068426240), "10 PiB");
}

#[test]
fn test_max_u64() {
    let result = bytes_to_human_readable(u64::MAX);
    assert!(result.contains("PiB"));
}

// The value shown is the float nearest to the byte count, rounded to two
// decimals with exact halves going to an even digit, as `{:.2}` does.
#[test]
fn test_human_readable_matches_float_formatting() {
    let samples: [u64; 12] = [
        1024, 1025, 1152, 1153, 1176, 1177, 1535, 999_999, 123_456_789,
        9_007_199_254_740_993, 18_446_744_073_709_551_615, 1_099_511_627_775,
    ];
    for &b in samples.iter() {
        let mut size = b as f64;
        let mut unit = 0;
        let units = ["bytes", "KiB", "MiB", "GiB", "TiB", "PiB"];
        while size >= 1024.0 && unit < 5 {
            size /= 1024.0;
            unit += 1;
        }
        let mut s = format!("{:.2}", size);
        while s.ends_with('0') {
            s.pop();
        }
        if s.ends_with('.') {
            s.pop();
        }
        assert_eq!(bytes_to_human_readable(b), format!("{} {}", s, units[unit]), "for {}", b);
    }
}

#[test]
fn test_max_u64_exact() {
    assert_eq!(bytes_to_human_readable(u64::MAX), "16384 PiB");
}

#[test]
fn test_tie_rounds_to_even() {
    // 1152 bytes is exactly 1.125 KiB: the tie goes to the even digit.
    assert_eq!(bytes_to_human_readable(1152), "1.12 KiB");
    // 1176 bytes is 1.1484375 KiB.
    assert_eq!(bytes_to_human_readable(1176), "1.15 KiB");
}
