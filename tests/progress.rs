use multi_download::download::{Download, Event};
use multi_download::report::{percent_complete, report, speed_bytes_per_sec, Hundredths};
use multi_download::stats::TransferStats;

#[test]
fn speed_is_zero_before_time_passes() {
    assert_eq!(speed_bytes_per_sec(0, 0), 0);
    assert_eq!(speed_bytes_per_sec(123_456, 0), 0);
}

#[test]
fn speed_in_bytes_per_second() {
    assert_eq!(speed_bytes_per_sec(5000, 2000), 2500);
    assert_eq!(speed_bytes_per_sec(1, 3), 333);
    assert_eq!(speed_bytes_per_sec(u64::MAX, 1), (u64::MAX as u128) * 1000);
}

#[test]
fn percent_needs_a_total() {
    assert_eq!(percent_complete(10, 0), None);
    assert_eq!(percent_complete(0, 0), None);
}

#[test]
fn percent_in_hundredths() {
    assert_eq!(percent_complete(50, 200), Some(2500));
    assert_eq!(percent_complete(1, 3), Some(3333));
    assert_eq!(percent_complete(200, 200), Some(10000));
}

#[test]
fn short_content_length_reads_past_hundred() {
    let mut stats = TransferStats::new();
    let mut d = Download::new();
    d.step(&mut stats, Event::Responded { content_length: Some(5) });
    d.step(&mut stats, Event::FileCreated);
    d.step(&mut stats, Event::ChunkWritten { len: 10 });
    let r = report(&stats, 1000);
    assert_eq!(r.percent, Some(Hundredths { whole: 200, hundredths: 0 }));
    assert_eq!(percent_complete(10, 5), Some(20000));
}

#[test]
fn report_of_a_run() {
    let mut stats = TransferStats::new();
    stats.add_total(4_000_000);
    stats.add_downloaded(3_000_000);
    let r = report(&stats, 2000);
    assert_eq!(r.speed, 1_500_000);
    assert_eq!(r.speed_mb, Hundredths { whole: 1, hundredths: 50 });
    assert_eq!(r.percent, Some(Hundredths { whole: 75, hundredths: 0 }));
}

#[test]
fn report_without_total_or_time() {
    let stats = TransferStats::new();
    let r = report(&stats, 0);
    assert_eq!(r.speed, 0);
    assert_eq!(r.percent, None);
    assert_eq!(r.speed_mb, Hundredths { whole: 0, hundredths: 0 });
}

#[test]
fn hundredths_split() {
    assert_eq!(Hundredths::from_hundredths(12345), Hundredths { whole: 123, hundredths: 45 });
    assert_eq!(Hundredths::from_hundredths(7), Hundredths { whole: 0, hundredths: 7 });
}

#[test]
fn any_overshoot_reads_past_hundred() {
    assert_eq!(percent_complete(20001, 20000), Some(10001));
    assert_eq!(percent_complete(20000, 20000), Some(10000));
    assert_eq!(percent_complete(19999, 20000), Some(9999));
    assert_eq!(percent_complete(4, 3), Some(13334));
}

#[test]
fn percent_grows_with_bytes() {
    let mut last = 0;
    for d in [0u64, 1, 2, 3, 4, 5, 6, 7] {
        let p = percent_complete(d, 3).unwrap();
        assert!(p >= last);
        last = p;
    }
}
