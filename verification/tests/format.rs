use zk_credential::error::{ErrorKind, ZkProofError};
use zk_credential::report::BenchmarkResults;
use zk_credential::text::{decimal, hex};

fn reference(bytes: u64) -> String {
    if bytes < 1024 {
        format!("{} B", bytes)
    } else if bytes < 1024 * 1024 {
        format!("{:.2} KB", bytes as f64 / 1024.0)
    } else {
        format!("{:.2} MB", bytes as f64 / (1024.0 * 1024.0))
    }
}

#[test]
fn format_size_exact_values() {
    assert_eq!(BenchmarkResults::format_size(0), "0 B");
    assert_eq!(BenchmarkResults::format_size(512), "512 B");
    assert_eq!(BenchmarkResults::format_size(1023), "1023 B");
    assert_eq!(BenchmarkResults::format_size(1024), "1.00 KB");
    assert_eq!(BenchmarkResults::format_size(1536), "1.50 KB");
    assert_eq!(BenchmarkResults::format_size(1024 * 1024 - 1), "1024.00 KB");
    assert_eq!(BenchmarkResults::format_size(1024 * 1024), "1.00 MB");
    assert_eq!(BenchmarkResults::format_size(5 * 1024 * 1024 / 2), "2.50 MB");
}

#[test]
fn format_size_rounds_ties_to_even() {
    // 1152 / 1024 = 1.125 and 1408 / 1024 = 1.375, both exactly between two hundredths.
    assert_eq!(BenchmarkResults::format_size(1152), "1.12 KB");
    assert_eq!(BenchmarkResults::format_size(1408), "1.38 KB");
    assert_eq!(BenchmarkResults::format_size(1152 * 1024), "1.12 MB");
}

#[test]
fn format_size_agrees_with_floating_point_in_the_small() {
    let mut bytes: u64 = 0;
    while bytes < 3 * 1024 * 1024 {
        assert_eq!(BenchmarkResults::format_size(bytes), reference(bytes), "at {}", bytes);
        bytes += 127;
    }
}

#[test]
fn format_size_agrees_with_floating_point_on_every_tie_below_64_kb() {
    let mut bytes: u64 = 128;
    while bytes < 64 * 1024 {
        assert_eq!(BenchmarkResults::format_size(bytes), reference(bytes), "at {}", bytes);
        bytes += 256;
    }
}

#[test]
fn format_size_agrees_with_floating_point_in_the_large() {
    let samples: Vec<u64> = vec![
        (1u64 << 53) - 1,
        1u64 << 53,
        (1u64 << 53) + 1,
        (1u64 << 53) + 2,
        (1u64 << 53) + 3,
        (1u64 << 54) + 2,
        (1u64 << 54) + 6,
        (1u64 << 60) + 128,
        (1u64 << 60) + 129,
        (1u64 << 60) + 384,
        (1u64 << 63) + 1024,
        (1u64 << 63) + 1025,
        (1u64 << 63) + 3072,
        u64::MAX - 1024,
        u64::MAX - 1023,
        u64::MAX - 1,
        u64::MAX,
    ];
    for bytes in samples {
        assert_eq!(BenchmarkResults::format_size(bytes), reference(bytes), "at {}", bytes);
    }
    let mut bytes: u64 = 1 << 20;
    let mut step: u64 = 1;
    while bytes < u64::MAX / 2 {
        assert_eq!(BenchmarkResults::format_size(bytes), reference(bytes), "at {}", bytes);
        bytes += step;
        step = step * 3 + 1;
    }
}

#[test]
fn decimal_writes_numbers() {
    assert_eq!(decimal(0), "0");
    assert_eq!(decimal(7), "7");
    assert_eq!(decimal(10), "10");
    assert_eq!(decimal(1234567890), "1234567890");
    assert_eq!(decimal(u128::MAX), u128::MAX.to_string());
}

#[test]
fn hex_encodes_bytes() {
    assert_eq!(hex(&vec![]), "");
    assert_eq!(hex(&vec![0x00, 0x0f, 0xa5, 0xff]), "000fa5ff");
    assert_eq!(hex(&vec![0xde, 0xad, 0xbe, 0xef]), "deadbeef");
}

#[test]
fn errors_render_with_their_class() {
    let cases = vec![
        (ErrorKind::FileNotFound, "File not found: x"),
        (ErrorKind::ProofGenerationFailed, "Proof generation failed: x"),
        (ErrorKind::VerificationFailed, "Verification failed: x"),
        (ErrorKind::InvalidInput, "Invalid input: x"),
        (ErrorKind::SetupRequired, "Setup required: x"),
        (ErrorKind::IoError, "IO error: x"),
    ];
    for (kind, text) in cases {
        let e = ZkProofError::new(kind, "x".to_string());
        assert_eq!(e.kind(), kind);
        assert_eq!(e.message(), "x");
        assert_eq!(e.to_string(), text);
    }
}

#[test]
fn io_failures_are_wrapped() {
    let e = ZkProofError::from_io_error("disk full".to_string());
    assert!(matches!(e, ZkProofError::IoError { .. }));
    assert_eq!(e.to_string(), "IO error: disk full");
}
