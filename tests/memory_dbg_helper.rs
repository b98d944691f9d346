use hello_triangle::memory_size::MemoryDbgHelper;

#[test]
fn memory_dbg_helper() {
    assert_eq!(MemoryDbgHelper(1024u64.pow(0) * 1).to_string(), "1B");
    assert_eq!(MemoryDbgHelper(1024u64.pow(0) * 10).to_string(), "10B");
    assert_eq!(MemoryDbgHelper(1024u64.pow(0) * 100).to_string(), "100B");
    assert_eq!(MemoryDbgHelper(1024u64.pow(1) * 1).to_string(), "1.00KB");
    assert_eq!(MemoryDbgHelper(1024u64.pow(1) * 10).to_string(), "10.0KB");
    assert_eq!(MemoryDbgHelper(1024u64.pow(1) * 100).to_string(), "100KB");
    assert_eq!(MemoryDbgHelper(1024u64.pow(2) * 1).to_string(), "1.00MB");
    assert_eq!(MemoryDbgHelper(1024u64.pow(2) * 10).to_string(), "10.0MB");
    assert_eq!(MemoryDbgHelper(1024u64.pow(2) * 100).to_string(), "100MB");
    assert_eq!(MemoryDbgHelper(1024u64.pow(3) * 1).to_string(), "1.00GB");
    assert_eq!(MemoryDbgHelper(1024u64.pow(3) * 10).to_string(), "10.0GB");
    assert_eq!(MemoryDbgHelper(1024u64.pow(3) * 100).to_string(), "100GB");
    assert_eq!(MemoryDbgHelper(1024u64.pow(4) * 1).to_string(), "1.00TB");
    assert_eq!(MemoryDbgHelper(1024u64.pow(4) * 10).to_string(), "10.0TB");
    assert_eq!(MemoryDbgHelper(1024u64.pow(4) * 100).to_string(), "100TB");
    assert_eq!(MemoryDbgHelper(1024u64.pow(5) * 1).to_string(), "1.00PB");
    assert_eq!(MemoryDbgHelper(1024u64.pow(5) * 10).to_string(), "10.0PB");
    assert_eq!(MemoryDbgHelper(1024u64.pow(5) * 100).to_string(), "100PB");
    assert_eq!(MemoryDbgHelper(1024u64.pow(6) * 1).to_string(), "1.00EB");
    assert_eq!(MemoryDbgHelper(1024u64.pow(6) * 10).to_string(), "10.0EB");
    assert_eq!(MemoryDbgHelper(std::u64::MAX).to_string(), "16.0EB");
}

/// The float formatting the helper is stated against, written with `f64`.
fn float_reference(bytes: u64) -> String {
    let levels = ["B", "KB", "MB", "GB", "TB", "PB", "EB"];
    let mut amount = bytes as f64;
    let mut level = 0;
    for _ in 0..levels.len() {
        if amount < 1024.0 {
            break;
        }
        level += 1;
        amount /= 1024.0;
    }
    if level > 0 && amount < 10.0 {
        format!("{:.2}{}", amount, levels[level])
    } else if level > 0 && amount < 100.0 {
        format!("{:.1}{}", amount, levels[level])
    } else {
        format!("{:.0}{}", amount, levels[level])
    }
}

#[test]
fn memory_size_matches_float_formatting() {
    let mut values: Vec<u64> = Vec::new();
    for x in 0..200_000u64 {
        values.push(x);
    }
    for k in 1..7u32 {
        let unit = 1024u64.pow(k);
        for m in [1u64, 9, 10, 99, 100, 1023, 1024] {
            for d in [0u64, 1, 2, 3] {
                let base = unit.saturating_mul(m);
                values.push(base.saturating_sub(d));
                values.push(base.saturating_add(d));
                values.push(base.saturating_add(unit / 200 * d));
                values.push(base.saturating_add(unit / 2000 * d));
            }
        }
    }
    for e in 50..64u32 {
        let p = 1u64 << e;
        for d in 0..4096u64 {
            values.push(p.saturating_add(d));
            values.push(p.saturating_sub(d));
        }
    }
    for d in 0..4096u64 {
        values.push(u64::MAX - d);
    }
    let mut seed: u64 = 0x9E37_79B9_7F4A_7C15;
    for _ in 0..100_000 {
        seed ^= seed << 13;
        seed ^= seed >> 7;
        seed ^= seed << 17;
        values.push(seed >> (seed % 64));
    }
    for x in values {
        assert_eq!(MemoryDbgHelper(x).to_string(), float_reference(x), "bytes {}", x);
    }
}

#[test]
fn memory_size_ties_round_to_even() {
    // 1152 bytes are 1.125 KB exactly: the tie goes to the even hundredth.
    assert_eq!(MemoryDbgHelper(1152).to_string(), "1.12KB");
    // 1023.5 KB shown without decimals rounds to the even 1024.
    assert_eq!(MemoryDbgHelper(1023 * 1024 + 512).to_string(), "1024KB");
    assert_eq!(MemoryDbgHelper(0).to_string(), "0B");
    assert_eq!(MemoryDbgHelper(1023).to_string(), "1023B");
    assert_eq!(MemoryDbgHelper(1536).to_string(), "1.50KB");
}
