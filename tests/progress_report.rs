use job_supervisor::progress::{eta_seconds, format_eta, share_done_hundredths, DownloadProgress};

#[test]
fn format_eta_pads_each_field() {
    assert_eq!(format_eta(0), "00:00:00");
    assert_eq!(format_eta(59), "00:00:59");
    assert_eq!(format_eta(61), "00:01:01");
    assert_eq!(format_eta(3661), "01:01:01");
    assert_eq!(format_eta(86399), "23:59:59");
}

#[test]
fn format_eta_widens_hours() {
    assert_eq!(format_eta(360000), "100:00:00");
    assert_eq!(format_eta(u64::MAX), "5124095576030431:00:15");
}

#[test]
fn eta_is_remaining_over_average_speed_rounded_up() {
    // 100 of 1000 bytes in 1 s: 900 bytes at 100 B/s
    assert_eq!(eta_seconds(1000, 100, 1_000_000), 9);
    // 300 of 1000 bytes in 1 s: 700 / 300 = 2.33, rounded up
    assert_eq!(eta_seconds(1000, 300, 1_000_000), 3);
    assert_eq!(eta_seconds(1000, 1000, 5_000_000), 0);
}

#[test]
fn eta_is_zero_without_speed() {
    assert_eq!(eta_seconds(1000, 0, 1_000_000), 0);
    assert_eq!(eta_seconds(1000, 10, 0), 0);
}

#[test]
fn eta_that_overflows_is_zero() {
    assert_eq!(eta_seconds(u64::MAX, 1, u64::MAX), 0);
}

#[test]
fn share_done_in_hundredths_of_percent() {
    assert_eq!(share_done_hundredths(0, 1000), 0);
    assert_eq!(share_done_hundredths(1, 3), 3333);
    assert_eq!(share_done_hundredths(500, 1000), 5000);
    assert_eq!(share_done_hundredths(1000, 1000), 10000);
    assert_eq!(share_done_hundredths(0, 0), 10000);
}

#[test]
fn progress_report_fields() {
    let p = DownloadProgress::measure(250, 1000, 2_000_000);
    assert_eq!(p.bytes_downloaded, 250);
    assert_eq!(p.total_size, 1000);
    assert_eq!(p.progress, 2500);
    assert_eq!(p.eta, "00:00:06");
}
