use readings_probe::error::ReadingsError;
use readings_probe::data::ProbeData;
use readings_probe::readings::OsReadings;
use readings_probe::time::{Duration, Instant};
use readings_probe::tokens::split_whitespace;
use std::sync::atomic::Ordering::Relaxed;

const HEADER_START: &str = "   time cor        vsz        rsz     rszmax    utime    stime       minf       majf      alloc       free";

fn sample() -> OsReadings {
    OsReadings {
        virtual_size: 1000,
        resident_size: 2000,
        resident_size_max: 3000,
        user_time: Duration { nanos: 1_500_000_000 },
        system_time: Duration { nanos: 250_000 },
        minor_fault: 7,
        major_fault: 8,
    }
}

fn at_millis(ms: u128) -> Instant {
    Instant { nanos: ms * 1_000_000 }
}

#[test]
fn new_probe_starts_with_the_marker() {
    let mut probe = ProbeData::with_cores(4);
    assert_eq!(probe.cores(), 4);
    assert_eq!(probe.origin(), None);
    assert!(!probe.is_started());
    assert_eq!(probe.metric_count(), 0);
    assert_eq!(probe.take_output(), "#ReadingsV1\n");
    assert_eq!(probe.take_output(), "");
}

#[test]
fn new_probe_samples_the_core_count() {
    let probe = ProbeData::new();
    assert_eq!(probe.cores(), num_cpus::get());
    assert_eq!(probe.origin(), None);
}

#[test]
fn end_to_end_two_events() {
    let mut probe = ProbeData::with_cores(4);
    let done = probe.register_i64("done").unwrap();
    probe.log_event(at_millis(10_000), Ok(sample()), 11, 12, "start").unwrap();
    done.store(42, Relaxed);
    probe.log_event(at_millis(11_500), Ok(sample()), 13, 14, "finish").unwrap();
    let text = probe.take_output();
    let expected = format!(
        "#ReadingsV1\n{}       done event\n{}{}",
        HEADER_START,
        "  0.000   4       1000       2000       3000 1.500000 0.000250          7          8         11         12          0 start\n",
        "  1.500   4       1000       2000       3000 1.500000 0.000250          7          8         13         14         42 finish\n",
    );
    assert_eq!(text, expected);
    let lines: Vec<&str> = text.lines().collect();
    assert_eq!(lines.len(), 4);
    let first = split_whitespace(lines[2]);
    let second = split_whitespace(lines[3]);
    assert_eq!(first[11], "0");
    assert_eq!(first[12], "start");
    assert_eq!(second[11], "42");
    assert_eq!(second[12], "finish");
}

#[test]
fn data_row_matches_the_standard_formatting() {
    let mut probe = ProbeData::with_cores(16);
    let a = probe.register_i64("a").unwrap();
    let b = probe.register_i64("b").unwrap();
    a.store(-5, Relaxed);
    b.store(123_456_789_012, Relaxed);
    let usage = sample();
    probe.log_event(at_millis(0), Ok(usage), 1, 2, "first").unwrap();
    probe.take_output();
    probe.log_event(at_millis(2_250), Ok(usage), 1, 2, "second").unwrap();
    let expected = format!(
        "{:7.3} {:3} {:10} {:10} {:10} {:8.6} {:8.6} {:10} {:10} {:10} {:10} {:10} {:10} {}\n",
        2.25f32, 16, 1000, 2000, 3000, 1.5f64, 0.00025f64, 7, 8, 1, 2, -5i64, 123_456_789_012i64,
        "second"
    );
    assert_eq!(probe.take_output(), expected);
}

#[test]
fn header_lists_metrics_normalized_in_call_order() {
    let mut probe = ProbeData::with_cores(1);
    probe.register_i64("bytes read").unwrap();
    probe.register_i64("progress").unwrap();
    probe.register_i64("a b c").unwrap();
    assert_eq!(probe.metric_count(), 3);
    probe.take_output();
    probe.log_event(at_millis(0), Ok(sample()), 0, 0, "go").unwrap();
    let text = probe.take_output();
    let header = text.lines().next().unwrap();
    let expected = format!(
        "{} {:>10} {:>10} {:>10} event",
        HEADER_START, "bytes_read", "progress", "a_b_c"
    );
    assert_eq!(header, expected);
    let titles = split_whitespace(header);
    assert_eq!(titles.len(), 15);
    assert_eq!(&titles[11..14], ["bytes_read", "progress", "a_b_c"]);
    assert_eq!(readings_probe::reader::metric_names(header), ["bytes_read", "progress", "a_b_c"]);
}

#[test]
fn header_without_metrics() {
    let mut probe = ProbeData::with_cores(1);
    probe.take_output();
    probe.log_event(at_millis(0), Ok(sample()), 0, 0, "").unwrap();
    let text = probe.take_output();
    let header = text.lines().next().unwrap();
    assert_eq!(header, format!("{} event", HEADER_START));
    assert!(readings_probe::reader::metric_names(header).is_empty());
}

#[test]
fn header_is_written_once() {
    let mut probe = ProbeData::with_cores(1);
    probe.take_output();
    probe.log_event(at_millis(0), Ok(sample()), 0, 0, "one").unwrap();
    assert_eq!(probe.take_output().lines().count(), 2);
    probe.log_event(at_millis(1), Ok(sample()), 0, 0, "two").unwrap();
    probe.log_event(at_millis(2), Ok(sample()), 0, 0, "three").unwrap();
    let text = probe.take_output();
    assert_eq!(text.lines().count(), 2);
    assert!(!text.contains("event"));
}

#[test]
fn long_metric_name_widens_its_column() {
    let mut probe = ProbeData::with_cores(1);
    probe.register_i64("a_name_longer_than_ten").unwrap();
    probe.take_output();
    probe.log_event(at_millis(0), Ok(sample()), 0, 0, "x").unwrap();
    let text = probe.take_output();
    let header = text.lines().next().unwrap();
    assert_eq!(header, format!("{} a_name_longer_than_ten event", HEADER_START));
}

#[test]
fn late_registration_fails_and_changes_nothing() {
    let mut probe = ProbeData::with_cores(2);
    let early = probe.register_i64("early").unwrap();
    probe.log_event(at_millis(5), Ok(sample()), 0, 0, "started").unwrap();
    probe.take_output();
    let late = probe.register_i64("late");
    assert_eq!(late.err(), Some(ReadingsError::LateRegistertingMetricsAttempt));
    assert_eq!(probe.metric_count(), 1);
    assert!(probe.get_i64("late").is_none());
    assert_eq!(probe.take_output(), "");
    early.store(3, Relaxed);
    probe.log_event(at_millis(6), Ok(sample()), 0, 0, "after").unwrap();
    let text = probe.take_output();
    assert_eq!(text.lines().count(), 1);
    assert_eq!(split_whitespace(&text).len(), 13);
    assert_eq!(split_whitespace(&text)[11], "3");
}

#[test]
fn late_registration_after_a_heartbeat_was_spawned() {
    let mut probe = ProbeData::with_cores(2);
    probe.spawn_heartbeat(Duration::from_millis(100), at_millis(5), Ok(sample()), 0, 0).unwrap();
    assert_eq!(
        probe.register_i64("late").err(),
        Some(ReadingsError::LateRegistertingMetricsAttempt)
    );
}

#[test]
fn elapsed_starts_at_zero_and_never_goes_back() {
    let mut probe = ProbeData::with_cores(2);
    probe.take_output();
    let nows: [u128; 6] = [987_654, 987_654, 987_655, 988_000, 999_999, 2_000_000];
    let mut shown: Vec<f64> = Vec::new();
    for now in nows {
        probe.log_event(at_millis(now), Ok(sample()), 0, 0, "").unwrap();
        let text = probe.take_output();
        let line = text.lines().last().unwrap();
        shown.push(split_whitespace(line)[0].parse().unwrap());
    }
    assert_eq!(shown, vec![0.0, 0.0, 0.001, 0.346, 12.345, 1012.346]);
    assert_eq!(probe.origin(), Some(at_millis(987_654)));
}

#[test]
fn elapsed_is_zero_for_a_clock_reading_before_the_origin() {
    let mut probe = ProbeData::with_cores(2);
    probe.log_event(at_millis(500), Ok(sample()), 0, 0, "").unwrap();
    probe.take_output();
    probe.log_event(at_millis(400), Ok(sample()), 0, 0, "").unwrap();
    assert!(probe.take_output().starts_with("  0.000 "));
}

#[test]
fn elapsed_is_rounded_to_the_nearest_millisecond() {
    let mut probe = ProbeData::with_cores(2);
    probe.log_event(Instant { nanos: 0 }, Ok(sample()), 0, 0, "").unwrap();
    probe.take_output();
    probe.log_event(Instant { nanos: 1_234_499_999 }, Ok(sample()), 0, 0, "").unwrap();
    assert!(probe.take_output().starts_with("  1.234 "));
    probe.log_event(Instant { nanos: 1_234_500_000 }, Ok(sample()), 0, 0, "").unwrap();
    assert!(probe.take_output().starts_with("  1.235 "));
    probe.log_event(Instant { nanos: 12_345_999_999_999 }, Ok(sample()), 0, 0, "").unwrap();
    assert!(probe.take_output().starts_with("12346.000 "));
}

#[test]
fn token_count_is_eleven_plus_metrics_plus_label() {
    for metrics in 0..5usize {
        let mut probe = ProbeData::with_cores(8);
        for i in 0..metrics {
            probe.register_i64(&format!("metric {}", i)).unwrap();
        }
        probe.log_event(at_millis(1), Ok(sample()), 5, 6, "some label").unwrap();
        probe.log_event(at_millis(2), Ok(sample()), 5, 6, "").unwrap();
        let text = probe.take_output();
        let lines: Vec<&str> = text.lines().collect();
        assert_eq!(lines.len(), 4);
        assert_eq!(split_whitespace(lines[1]).len(), 11 + metrics + 1);
        assert_eq!(split_whitespace(lines[2]).len(), 11 + metrics + 1);
        assert_eq!(split_whitespace(lines[2])[11 + metrics], "some_label");
        assert_eq!(split_whitespace(lines[3]).len(), 11 + metrics);
        assert_eq!(
            readings_probe::reader::event_label(lines[2], metrics),
            Some("some_label".to_string())
        );
        assert_eq!(readings_probe::reader::event_label(lines[3], metrics), None);
    }
}

#[test]
fn bare_row_round_trip() {
    let mut probe = ProbeData::with_cores(8);
    probe.take_output();
    probe.log_event(at_millis(0), Ok(sample()), 5, 6, "").unwrap();
    let text = probe.take_output();
    let line = text.lines().nth(1).unwrap();
    assert!(line.ends_with(" 6 "));
    let fields = split_whitespace(line);
    assert_eq!(fields.len(), 11);
    for field in &fields {
        assert!(field.parse::<f64>().is_ok());
    }
    assert_eq!(
        fields,
        ["0.000", "8", "1000", "2000", "3000", "1.500000", "0.000250", "7", "8", "5", "6"]
    );
    let std_fields: Vec<&str> = line.split_whitespace().collect();
    assert_eq!(fields, std_fields);
}

#[test]
fn label_with_a_tab_reads_back_as_two_tokens() {
    let mut probe = ProbeData::with_cores(8);
    probe.log_event(at_millis(0), Ok(sample()), 5, 6, "a\tb c").unwrap();
    let text = probe.take_output();
    let line = text.lines().nth(2).unwrap();
    assert!(line.ends_with(" a\tb_c"));
    let fields = split_whitespace(line);
    assert_eq!(fields.len(), 13);
    assert_eq!(
        &fields[..11],
        ["0.000", "8", "1000", "2000", "3000", "1.500000", "0.000250", "7", "8", "5", "6"]
    );
    assert_eq!(&fields[11..], ["a", "b_c"]);
}

#[test]
fn numeric_fields_come_first_whatever_the_label_holds() {
    for label in ["", "plain", "a\tb", "\t", "one\ntwo", "x\u{a0}y z", " lead"] {
        let mut probe = ProbeData::with_cores(2);
        let m = probe.register_i64("m").unwrap();
        m.store(-3, Relaxed);
        probe.take_output();
        probe.log_event(at_millis(7), Ok(sample()), 9, 10, label).unwrap();
        let text = probe.take_output();
        let row = text.split_once('\n').unwrap().1;
        let fields = split_whitespace(row);
        assert!(fields.len() >= 12);
        assert_eq!(
            &fields[..12],
            ["0.000", "2", "1000", "2000", "3000", "1.500000", "0.000250", "7", "8", "9", "10", "-3"]
        );
    }
}

#[test]
fn failed_readings_record_nothing() {
    let mut probe = ProbeData::with_cores(8);
    probe.register_i64("m").unwrap();
    probe.take_output();
    let r = probe.log_event(at_millis(30), Err(ReadingsError::ProcStat), 5, 6, "lost");
    assert_eq!(r, Err(ReadingsError::ProcStat));
    assert_eq!(probe.take_output(), "");
    assert_eq!(probe.origin(), None);
    assert!(!probe.is_started());
    let r = probe.log_event(at_millis(40), Err(ReadingsError::Io), 5, 6, "lost again");
    assert_eq!(r, Err(ReadingsError::Io));
    let r = probe.write_sampled_line(at_millis(41), Err(ReadingsError::ProcStat), 5, 6, &vec![1], "x");
    assert_eq!(r, Err(ReadingsError::ProcStat));
    assert_eq!(probe.take_output(), "");
    assert_eq!(probe.origin(), None);
    let second = probe.register_i64("still early").unwrap();
    second.store(9, Relaxed);
    assert_eq!(probe.metric_count(), 2);
    probe.log_event(at_millis(50), Ok(sample()), 5, 6, "back").unwrap();
    assert_eq!(probe.origin(), Some(at_millis(50)));
    let text = probe.take_output();
    let lines: Vec<&str> = text.lines().collect();
    assert_eq!(lines.len(), 2);
    assert_eq!(lines[0], format!("{}          m still_early event", HEADER_START));
    assert!(lines[1].starts_with("  0.000   8 "));
    assert!(lines[1].ends_with("          0          9 back"));
    let r = probe.log_event(at_millis(60), Err(ReadingsError::ProcStat), 5, 6, "lost");
    assert_eq!(r, Err(ReadingsError::ProcStat));
    assert_eq!(probe.take_output(), "");
    assert_eq!(probe.origin(), Some(at_millis(50)));
    assert_eq!(
        probe.register_i64("late").err(),
        Some(ReadingsError::LateRegistertingMetricsAttempt)
    );
    probe.log_event(at_millis(70), Ok(sample()), 5, 6, "on").unwrap();
    assert!(probe.take_output().starts_with("  0.020   8 "));
}

#[test]
fn failed_heartbeat_starts_nothing() {
    let mut probe = ProbeData::with_cores(8);
    probe.take_output();
    let interval = Duration::from_millis(100);
    let r = probe.spawn_heartbeat(interval, at_millis(5), Err(ReadingsError::ProcStat), 0, 0);
    assert_eq!(r, Err(ReadingsError::ProcStat));
    assert_eq!(probe.take_output(), "");
    assert!(!probe.is_started());
    probe.register_i64("m").unwrap();
    let schedule = probe.spawn_heartbeat(interval, at_millis(9), Ok(sample()), 0, 0).unwrap();
    assert_eq!(schedule.origin, at_millis(9));
    assert!(probe.take_output().ends_with("          0 spawned_heartbeat\n"));
}

#[test]
fn lookup_finds_the_registered_handle() {
    let mut probe = ProbeData::with_cores(8);
    let first = probe.register_i64("bytes read").unwrap();
    let second = probe.register_i64("progress").unwrap();
    first.store(10, Relaxed);
    second.store(20, Relaxed);
    let found = probe.get_i64("bytes read").unwrap();
    assert!(std::sync::Arc::ptr_eq(&found, &first));
    assert_eq!(found.load(Relaxed), 10);
    let found = probe.get_i64("bytes_read").unwrap();
    assert!(std::sync::Arc::ptr_eq(&found, &first));
    let found = probe.get_i64("progress").unwrap();
    assert!(std::sync::Arc::ptr_eq(&found, &second));
    found.store(21, Relaxed);
    assert_eq!(second.load(Relaxed), 21);
    assert!(probe.get_i64("Progress").is_none());
    assert!(probe.get_i64("prog").is_none());
    assert!(probe.get_i64("").is_none());
}

#[test]
fn lookup_of_a_name_registered_twice_finds_the_first() {
    let mut probe = ProbeData::with_cores(8);
    let first = probe.register_i64("x y").unwrap();
    let second = probe.register_i64("x_y").unwrap();
    let found = probe.get_i64("x y").unwrap();
    assert!(std::sync::Arc::ptr_eq(&found, &first));
    assert!(!std::sync::Arc::ptr_eq(&found, &second));
    assert_eq!(probe.metric_count(), 2);
}

#[test]
fn registered_handle_starts_at_zero_and_is_sampled() {
    let mut probe = ProbeData::with_cores(8);
    let handle = probe.register_i64("m").unwrap();
    assert_eq!(handle.load(Relaxed), 0);
    assert_eq!(probe.sample_metrics(), vec![0]);
    handle.store(i64::MIN, Relaxed);
    assert_eq!(probe.sample_metrics(), vec![i64::MIN]);
    probe.log_event(at_millis(0), Ok(sample()), 0, 0, "min").unwrap();
    assert!(probe.take_output().ends_with(" -9223372036854775808 min\n"));
}

#[test]
fn write_sampled_line_takes_the_given_values() {
    let mut probe = ProbeData::with_cores(3);
    probe.register_i64("m").unwrap();
    probe.take_output();
    let r = probe.write_sampled_line(at_millis(0), Ok(sample()), 1, 2, &vec![77], "as is");
    assert_eq!(r, Ok(()));
    let text = probe.take_output();
    assert!(text.ends_with("          1          2         77 as is\n"));
}

#[test]
fn spawn_heartbeat_logs_the_event_and_returns_the_schedule() {
    let mut probe = ProbeData::with_cores(3);
    probe.take_output();
    let interval = Duration::from_millis(100);
    let schedule = probe.spawn_heartbeat(interval, at_millis(700), Ok(sample()), 1, 2).unwrap();
    assert_eq!(schedule.origin, at_millis(700));
    assert_eq!(schedule.interval, interval);
    assert_eq!(schedule.step, 1);
    let text = probe.take_output();
    assert!(text.ends_with(" spawned_heartbeat\n"));
    assert_eq!(text.lines().count(), 2);
    let mut started = ProbeData::with_cores(3);
    started.log_event(at_millis(100), Ok(sample()), 1, 2, "before").unwrap();
    let schedule = started.spawn_heartbeat(interval, at_millis(700), Ok(sample()), 1, 2).unwrap();
    assert_eq!(schedule.origin, at_millis(100));
    let failed = started.spawn_heartbeat(interval, at_millis(800), Err(ReadingsError::ProcStat), 1, 2);
    assert_eq!(failed, Err(ReadingsError::ProcStat));
}

#[test]
fn error_messages() {
    assert_eq!(
        ReadingsError::LateRegistertingMetricsAttempt.message(),
        "Metrics can only be added before first event"
    );
    assert_eq!(ReadingsError::ProcStat.message(), "io Error accessing /proc/self/stat");
    assert_eq!(ReadingsError::Io.message(), "Io error writing readings");
    assert_eq!(ReadingsError::PoisonedProbe.message(), "Poisoned probe");
}
