use readings_probe::line::{format_header, format_line};
use readings_probe::readings::OsReadings;
use readings_probe::text::{
    digit_char, normalize, push_decimal, push_fixed_point, push_right_justified,
    push_signed_decimal, push_spaces, push_zero_padded, ten_to,
};
use readings_probe::time::{Duration, Instant};

fn decimal(n: u128) -> String {
    let mut out = String::new();
    push_decimal(&mut out, n);
    out
}

fn signed(v: i64) -> String {
    let mut out = String::new();
    push_signed_decimal(&mut out, v);
    out
}

fn fixed(units: u128, decimals: u32) -> String {
    let mut out = String::new();
    push_fixed_point(&mut out, units, decimals);
    out
}

fn justified(field: &str, width: usize) -> String {
    let mut out = String::new();
    push_right_justified(&mut out, field, width);
    out
}

#[test]
fn normalize_replaces_every_space() {
    assert_eq!(normalize("about to get crazy"), "about_to_get_crazy");
    assert_eq!(normalize(""), "");
    assert_eq!(normalize("   "), "___");
    assert_eq!(normalize("no_space"), "no_space");
    assert_eq!(normalize(" lead and trail "), "_lead_and_trail_");
    assert_eq!(normalize("tab\tstays"), "tab\tstays");
    assert_eq!(normalize("caf\u{e9} cr\u{e8}me"), "caf\u{e9}_cr\u{e8}me");
    assert_eq!(normalize("a b"), "a b".replace(" ", "_"));
}

#[test]
fn digits() {
    let all: String = (0..10u8).map(digit_char).collect();
    assert_eq!(all, "0123456789");
}

#[test]
fn decimal_rendering() {
    assert_eq!(decimal(0), "0");
    assert_eq!(decimal(7), "7");
    assert_eq!(decimal(10), "10");
    assert_eq!(decimal(1_000_000), "1000000");
    assert_eq!(decimal(u64::MAX as u128), "18446744073709551615");
    assert_eq!(decimal(u128::MAX), u128::MAX.to_string());
}

#[test]
fn signed_decimal_rendering() {
    assert_eq!(signed(0), "0");
    assert_eq!(signed(42), "42");
    assert_eq!(signed(-1), "-1");
    assert_eq!(signed(i64::MAX), "9223372036854775807");
    assert_eq!(signed(i64::MIN), "-9223372036854775808");
}

#[test]
fn zero_padded_rendering() {
    let mut out = String::from("x");
    push_zero_padded(&mut out, 42, 6);
    assert_eq!(out, "x000042");
    let mut out = String::new();
    push_zero_padded(&mut out, 123_456, 3);
    assert_eq!(out, "456");
    let mut out = String::new();
    push_zero_padded(&mut out, 5, 0);
    assert_eq!(out, "");
}

#[test]
fn powers_of_ten() {
    assert_eq!(ten_to(0), 1);
    assert_eq!(ten_to(3), 1000);
    assert_eq!(ten_to(6), 1_000_000);
    assert_eq!(ten_to(38), 100_000_000_000_000_000_000_000_000_000_000_000_000);
}

#[test]
fn fixed_point_rendering() {
    assert_eq!(fixed(0, 3), "0.000");
    assert_eq!(fixed(1, 3), "0.001");
    assert_eq!(fixed(1500, 3), "1.500");
    assert_eq!(fixed(12_345_678, 6), "12.345678");
    assert_eq!(fixed(250, 6), "0.000250");
    assert_eq!(fixed(42, 0), "42.");
    assert_eq!(fixed(1500, 3), format!("{:.3}", 1.5f64));
    assert_eq!(fixed(12_345_678, 6), format!("{:.6}", 12.345678f64));
}

#[test]
fn right_justified_rendering() {
    assert_eq!(justified("abc", 10), "       abc");
    assert_eq!(justified("abc", 3), "abc");
    assert_eq!(justified("abcdef", 3), "abcdef");
    assert_eq!(justified("", 2), "  ");
    assert_eq!(justified("", 0), "");
    assert_eq!(justified("\u{e9}t\u{e9}", 5), format!("{:>5}", "\u{e9}t\u{e9}"));
    let mut out = String::from("[");
    push_spaces(&mut out, 3);
    assert_eq!(out, "[   ");
}

#[test]
fn header_row_text() {
    assert_eq!(
        format_header(&vec![]),
        "   time cor        vsz        rsz     rszmax    utime    stime       minf       majf      alloc       free event\n"
    );
    assert_eq!(
        format_header(&vec!["done".to_string(), "progress".to_string()]),
        "   time cor        vsz        rsz     rszmax    utime    stime       minf       majf      alloc       free       done   progress event\n"
    );
}

#[test]
fn data_row_text() {
    let usage = OsReadings {
        virtual_size: 123_456_789,
        resident_size: 4096,
        resident_size_max: 8192,
        user_time: Duration { nanos: 2_000_001_499 },
        system_time: Duration { nanos: 999_999_500 },
        minor_fault: 0,
        major_fault: 1,
    };
    let elapsed = Instant { nanos: 62_000_000_000 }.duration_since(Instant { nanos: 500_000_000 });
    let line = format_line(elapsed, 128, &usage, 1024, 512, &vec![-1, 0, 1], "label");
    assert_eq!(
        line,
        " 61.500 128  123456789       4096       8192 2.000001 1.000000          0          1       1024        512         -1          0          1 label\n"
    );
    let wide = format_line(
        Duration { nanos: 123_456_789_000_000 },
        1000,
        &usage,
        usize::MAX,
        0,
        &vec![],
        "",
    );
    assert_eq!(
        wide,
        format!(
            "123456.789 1000  123456789       4096       8192 2.000001 1.000000          0          1 {}          0 \n",
            usize::MAX
        )
    );
}

#[test]
fn durations() {
    assert_eq!(Duration::zero().nanos, 0);
    assert_eq!(Duration::from_secs(3).nanos, 3_000_000_000);
    assert_eq!(Duration::from_millis(100).nanos, 100_000_000);
    assert_eq!(Duration::from_secs(u64::MAX).nanos, u64::MAX as u128 * 1_000_000_000);
    assert_eq!(Duration::from_millis(100).checked_mul(3), Some(Duration::from_millis(300)));
    assert_eq!(Duration::from_millis(100).checked_mul(0), Some(Duration::zero()));
    assert_eq!(Duration { nanos: u128::MAX }.checked_mul(0), Some(Duration::zero()));
    assert_eq!(Duration { nanos: u128::MAX }.checked_mul(1), Some(Duration { nanos: u128::MAX }));
    assert_eq!(Duration { nanos: u128::MAX / 2 + 1 }.checked_mul(2), None);
    assert_eq!(Duration { nanos: 1_499_999 }.rounded_millis(), 1);
    assert_eq!(Duration { nanos: 1_500_000 }.rounded_millis(), 2);
    assert_eq!(Duration { nanos: u128::MAX }.rounded_millis(), u128::MAX / 1_000_000);
    assert_eq!(Duration { nanos: 499 }.rounded_micros(), 0);
    assert_eq!(Duration { nanos: 500 }.rounded_micros(), 1);
    assert_eq!(Duration { nanos: 2_000_001_499 }.rounded_micros(), 2_000_001);
}

#[test]
fn instants() {
    let early = Instant { nanos: 100 };
    let late = Instant { nanos: 350 };
    assert_eq!(late.duration_since(early), Duration { nanos: 250 });
    assert_eq!(early.duration_since(late), Duration::zero());
    assert_eq!(early.duration_since(early), Duration::zero());
    assert_eq!(early.checked_add(Duration { nanos: 250 }), Some(late));
    assert_eq!(Instant { nanos: u128::MAX }.checked_add(Duration { nanos: 1 }), None);
}

#[test]
fn rows_that_fit_their_columns_have_one_length() {
    let mut usage = OsReadings {
        virtual_size: 9_999_999_999,
        resident_size: 0,
        resident_size_max: 1,
        user_time: Duration { nanos: 9_999_999_499 },
        system_time: Duration { nanos: 0 },
        minor_fault: 9_999_999_999,
        major_fault: 0,
    };
    for metrics in 0..4usize {
        let values: Vec<i64> = vec![-999_999_999, 9_999_999_999, 0, 7][..metrics].to_vec();
        for label in ["", "x", "spawned_heartbeat"] {
            let small = format_line(Duration { nanos: 0 }, 1, &usage, 0, 0, &values, label);
            let large = format_line(
                Duration { nanos: 999_999_499_999 },
                999,
                &usage,
                9_999_999_999,
                9_999_999_999,
                &values,
                label,
            );
            assert_eq!(small.chars().count(), 108 + 11 * metrics + label.len());
            assert_eq!(large.chars().count(), 108 + 11 * metrics + label.len());
        }
    }
    let fitting = format_line(Duration { nanos: 0 }, 1, &usage, 0, 0, &vec![], "");
    usage.user_time = Duration { nanos: 9_999_999_500 };
    let wider = format_line(Duration { nanos: 0 }, 1, &usage, 0, 0, &vec![], "");
    assert_eq!(wider.len(), fitting.len() + 1);
    let longer = format_line(Duration { nanos: 999_999_500_000 }, 1, &usage, 0, 0, &vec![], "");
    assert!(longer.starts_with("1000.000 "));
    assert_eq!(longer.len(), wider.len() + 1);
    let signed = format_line(Duration { nanos: 0 }, 1, &usage, 0, 0, &vec![-1_000_000_000], "");
    assert_eq!(signed.len(), wider.len() + 12);
}
