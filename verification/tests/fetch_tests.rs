use lucida_downloader::fetch::{cookie_from_script_output, Backoff, FetchFailure};
use lucida_downloader::progress::format_duration_secs;

#[test]
fn cookie_is_trimmed_output() {
    match cookie_from_script_output(true, "  abc.def-123\n", "") {
        Ok(c) => assert_eq!(c, "abc.def-123"),
        Err(e) => panic!("unexpected {e:?}"),
    }
}

#[test]
fn failed_script_reports_its_errors() {
    match cookie_from_script_output(false, "abc", "boom\n") {
        Err(FetchFailure::ScriptFailed(e)) => assert_eq!(e, "boom\n"),
        other => panic!("unexpected {other:?}"),
    }
}

#[test]
fn empty_output_is_no_cookie() {
    assert!(matches!(cookie_from_script_output(true, " \n\t", "warn"), Err(FetchFailure::NoCookie)));
    assert!(matches!(cookie_from_script_output(true, "", ""), Err(FetchFailure::NoCookie)));
}

#[test]
fn retry_delays_double_up_to_thirty() {
    let mut b = Backoff::first();
    assert_eq!(b, Backoff { attempt: 1, delay_secs: 5 });
    let mut seen = vec![b.delay_secs];
    for _ in 0..6 {
        b = b.next();
        seen.push(b.delay_secs);
    }
    assert_eq!(seen, vec![5, 10, 20, 30, 30, 30, 30]);
    assert_eq!(b.attempt, 7);
}

#[test]
fn retry_from_odd_delay() {
    assert_eq!(Backoff { attempt: 3, delay_secs: 14 }.next(), Backoff { attempt: 4, delay_secs: 28 });
    assert_eq!(Backoff { attempt: 3, delay_secs: 15 }.next(), Backoff { attempt: 4, delay_secs: 30 });
}

#[test]
fn durations() {
    assert_eq!(format_duration_secs(0), "0s");
    assert_eq!(format_duration_secs(59), "59s");
    assert_eq!(format_duration_secs(60), "1m 0s");
    assert_eq!(format_duration_secs(187), "3m 7s");
    assert_eq!(format_duration_secs(3599), "59m 59s");
    assert_eq!(format_duration_secs(3600), "1h 0m");
    assert_eq!(format_duration_secs(7500), "2h 5m");
    assert_eq!(format_duration_secs(90061), "25h 1m");
    assert_eq!(format_duration_secs(u64::MAX), "5124095576030431h 0m");
}
