use multi_download::download::{Action, Download, DownloadError, Event, Phase};
use multi_download::stats::TransferStats;

fn drive(d: &mut Download, stats: &mut TransferStats, e: Event) -> Action {
    assert!(d.accepts(stats, &e));
    let before = stats.bytes_downloaded;
    let a = d.step(stats, e);
    assert!(stats.bytes_downloaded >= before);
    a
}

#[test]
fn successful_job_writes_the_sum_of_its_chunks() {
    let mut stats = TransferStats::new();
    let mut d = Download::new();
    assert_eq!(d.phase(), Phase::Requesting);
    let a = drive(&mut d, &mut stats, Event::Responded { content_length: Some(10) });
    assert_eq!(a, Action::CreateFile);
    assert_eq!(stats.total_bytes, 10);
    assert_eq!(drive(&mut d, &mut stats, Event::FileCreated), Action::ReadChunk);
    assert_eq!(drive(&mut d, &mut stats, Event::ChunkWritten { len: 4 }), Action::ReadChunk);
    assert_eq!(drive(&mut d, &mut stats, Event::ChunkWritten { len: 6 }), Action::ReadChunk);
    let end = drive(&mut d, &mut stats, Event::StreamEnded);
    assert_eq!(end, Action::Finish(Ok(10)));
    assert_eq!(d.bytes_written(), 10);
    assert_eq!(d.content_length(), Some(10));
    assert_eq!(d.phase(), Phase::Succeeded);
    assert_eq!(stats.bytes_downloaded, 10);
}

#[test]
fn missing_content_length_leaves_total_alone() {
    let mut stats = TransferStats::new();
    let mut d = Download::new();
    drive(&mut d, &mut stats, Event::Responded { content_length: None });
    drive(&mut d, &mut stats, Event::FileCreated);
    drive(&mut d, &mut stats, Event::ChunkWritten { len: 7 });
    assert_eq!(drive(&mut d, &mut stats, Event::StreamEnded), Action::Finish(Ok(7)));
    assert_eq!(stats.total_bytes, 0);
    assert_eq!(stats.bytes_downloaded, 7);
}

#[test]
fn empty_body_succeeds_with_zero_bytes() {
    let mut stats = TransferStats::new();
    let mut d = Download::new();
    drive(&mut d, &mut stats, Event::Responded { content_length: Some(0) });
    drive(&mut d, &mut stats, Event::FileCreated);
    assert_eq!(drive(&mut d, &mut stats, Event::StreamEnded), Action::Finish(Ok(0)));
}

#[test]
fn interleaved_jobs_sum_to_the_files_written() {
    let mut stats = TransferStats::new();
    let mut a = Download::new();
    let mut b = Download::new();
    drive(&mut a, &mut stats, Event::Responded { content_length: Some(5) });
    drive(&mut b, &mut stats, Event::Responded { content_length: Some(3) });
    drive(&mut b, &mut stats, Event::FileCreated);
    drive(&mut a, &mut stats, Event::FileCreated);
    drive(&mut a, &mut stats, Event::ChunkWritten { len: 2 });
    drive(&mut b, &mut stats, Event::ChunkWritten { len: 3 });
    drive(&mut a, &mut stats, Event::ChunkWritten { len: 3 });
    let ra = drive(&mut a, &mut stats, Event::StreamEnded);
    let rb = drive(&mut b, &mut stats, Event::StreamEnded);
    assert_eq!(ra, Action::Finish(Ok(5)));
    assert_eq!(rb, Action::Finish(Ok(3)));
    assert_eq!(stats.bytes_downloaded, 8);
    assert_eq!(stats.total_bytes, 8);
}

#[test]
fn request_failure_is_a_network_error() {
    let mut stats = TransferStats::new();
    let mut d = Download::new();
    let a = drive(&mut d, &mut stats, Event::RequestFailed { message: "refused".to_string() });
    assert_eq!(a, Action::Finish(Err(DownloadError::Network("refused".to_string()))));
    assert_eq!(d.phase(), Phase::Failed);
    assert!(!d.accepts(&stats, &Event::StreamEnded));
}

#[test]
fn create_failure_is_a_filesystem_error() {
    let mut stats = TransferStats::new();
    let mut d = Download::new();
    drive(&mut d, &mut stats, Event::Responded { content_length: Some(4) });
    let a = drive(&mut d, &mut stats, Event::FileFailed { message: "denied".to_string() });
    assert_eq!(a, Action::Finish(Err(DownloadError::Filesystem("denied".to_string()))));
    assert_eq!(stats.total_bytes, 4);
    assert_eq!(stats.bytes_downloaded, 0);
}

#[test]
fn write_failure_keeps_counted_bytes() {
    let mut stats = TransferStats::new();
    let mut d = Download::new();
    drive(&mut d, &mut stats, Event::Responded { content_length: Some(9) });
    drive(&mut d, &mut stats, Event::FileCreated);
    drive(&mut d, &mut stats, Event::ChunkWritten { len: 4 });
    let a = drive(&mut d, &mut stats, Event::FileFailed { message: "disk full".to_string() });
    assert_eq!(a, Action::Finish(Err(DownloadError::Filesystem("disk full".to_string()))));
    assert_eq!(d.bytes_written(), 4);
    assert_eq!(stats.bytes_downloaded, 4);
}

#[test]
fn body_failure_is_a_network_error() {
    let mut stats = TransferStats::new();
    let mut d = Download::new();
    drive(&mut d, &mut stats, Event::Responded { content_length: None });
    drive(&mut d, &mut stats, Event::FileCreated);
    let a = drive(&mut d, &mut stats, Event::StreamFailed { message: "reset".to_string() });
    assert_eq!(a, Action::Finish(Err(DownloadError::Network("reset".to_string()))));
}

#[test]
fn events_out_of_place_are_not_accepted() {
    let stats = TransferStats::new();
    let d = Download::new();
    assert!(!d.accepts(&stats, &Event::ChunkWritten { len: 1 }));
    assert!(!d.accepts(&stats, &Event::FileCreated));
    assert!(!d.accepts(&stats, &Event::StreamEnded));
    assert!(d.accepts(&stats, &Event::Responded { content_length: None }));
}

#[test]
fn counter_overflow_is_not_accepted() {
    let mut stats = TransferStats::new();
    stats.add_downloaded(u64::MAX - 1);
    assert!(stats.can_add_downloaded(1));
    assert!(!stats.can_add_downloaded(2));
    let mut d = Download::new();
    drive(&mut d, &mut stats, Event::Responded { content_length: None });
    drive(&mut d, &mut stats, Event::FileCreated);
    assert!(!d.accepts(&stats, &Event::ChunkWritten { len: 2 }));
    let mut t = TransferStats::new();
    t.add_total(u64::MAX);
    let e = Download::new();
    assert!(!e.accepts(&t, &Event::Responded { content_length: Some(1) }));
    assert!(!t.can_add_total(1));
}

#[test]
fn error_descriptions() {
    assert_eq!(DownloadError::Network("timeout".to_string()).describe(), "network error: timeout");
    assert_eq!(DownloadError::Filesystem("denied".to_string()).describe(), "file error: denied");
}
