//! Transfer accounting and scheduler tests: resume planning, throttle
//! windows, and the permit pool's bound.

use fusion_media_provider::scheduler::PermitPool;
use fusion_media_provider::text::{parse_u64, u64_to_string};
use fusion_media_provider::transfer::{begin_transfer, http_status_error, TransferPlan};
use fusion_media_provider::error::MediaError;

#[test]
fn plan_resumes_at_existing_size() {
    assert_eq!(TransferPlan::from_existing(None).range_start, 0);
    assert_eq!(TransferPlan::from_existing(Some(0)).range_start, 0);
    assert_eq!(TransferPlan::from_existing(Some(1234)).range_start, 1234);
}

#[test]
fn resume_honored_appends_and_counts_whole_file() {
    let plan = TransferPlan::from_existing(Some(400));
    // Partial content: the 600 announced bytes follow the 400 on disk.
    let s = begin_transfer(&plan, 206, true, Some(600), 0).unwrap();
    assert!(s.append);
    assert_eq!(s.resumed_from, 400);
    assert_eq!(s.downloaded, 400);
    assert_eq!(s.total, Some(1000));
}

#[test]
fn resume_ignored_restarts_fresh() {
    let plan = TransferPlan::from_existing(Some(400));
    // A plain success means the server ignored the range: start over.
    let s = begin_transfer(&plan, 200, false, Some(1000), 0).unwrap();
    assert!(!s.append);
    assert_eq!(s.resumed_from, 0);
    assert_eq!(s.downloaded, 0);
    assert_eq!(s.total, Some(1000));
}

#[test]
fn non_success_status_is_refused() {
    let plan = TransferPlan::from_existing(None);
    assert_eq!(begin_transfer(&plan, 404, false, None, 0), Err(404));
    assert_eq!(begin_transfer(&plan, 500, false, Some(10), 0), Err(500));
    assert!(begin_transfer(&plan, 204, false, None, 0).is_ok());
}

#[test]
fn resumed_bytes_rebuild_the_file() {
    // Simulate the accounting of a resumed transfer against full source
    // bytes: what lands on disk equals the source.
    let full: Vec<u8> = (0u8..200).collect();
    let n = 77usize;
    let existing = full[..n].to_vec();
    let plan = TransferPlan::from_existing(Some(n as u64));
    let s = begin_transfer(&plan, 206, true, Some((full.len() - n) as u64), 0).unwrap();
    let body = full[n..].to_vec();
    let on_disk: Vec<u8> = if s.append {
        let mut d = existing.clone();
        d.extend_from_slice(&body);
        d
    } else {
        body.clone()
    };
    assert_eq!(on_disk, full);
    assert_eq!(s.total, Some(full.len() as u64));
}

#[test]
fn chunks_accumulate_and_emissions_are_throttled() {
    let plan = TransferPlan::from_existing(None);
    let mut s = begin_transfer(&plan, 200, false, Some(300), 0).unwrap();
    // Within the window: counted, not emitted.
    assert!(!s.apply_chunk(100, 50));
    assert_eq!(s.downloaded, 100);
    // At the window boundary: emitted, window restarts.
    assert!(s.apply_chunk(100, 100));
    assert_eq!(s.downloaded, 200);
    assert_eq!(s.last_emit_ms, 100);
    assert!(!s.apply_chunk(100, 150));
    assert!(s.apply_chunk(0, 250));
}

#[test]
fn http_error_message_names_the_status() {
    match http_status_error(503) {
        MediaError::DownloadError(m) => assert_eq!(m, "HTTP 503: download failed"),
        _ => panic!("wrong error kind"),
    }
}

#[test]
fn permit_pool_never_exceeds_limit() {
    // Ten tasks against three permits: admissions beyond the limit are
    // refused until a release, and the peak never passes three.
    let mut pool = PermitPool::new(3);
    let mut admitted = 0usize;
    let mut peak = 0usize;
    let mut waiting = 0usize;
    for _task in 0..10 {
        if pool.try_acquire() {
            admitted += 1;
            if pool.in_flight > peak {
                peak = pool.in_flight;
            }
        } else {
            waiting += 1;
        }
    }
    assert_eq!(admitted, 3);
    assert_eq!(waiting, 7);
    assert_eq!(peak, 3);
    // Every release lets exactly one more task in.
    for _ in 0..7 {
        pool.release();
        assert!(pool.try_acquire());
        assert!(pool.in_flight <= 3);
    }
}

#[test]
fn decimal_rendering_and_parsing() {
    assert_eq!(u64_to_string(0), "0");
    assert_eq!(u64_to_string(7), "7");
    assert_eq!(u64_to_string(90210), "90210");
    assert_eq!(u64_to_string(u64::MAX), "18446744073709551615");
    assert_eq!(parse_u64("90210"), Some(90210));
    assert_eq!(parse_u64("0"), Some(0));
    assert_eq!(parse_u64(""), None);
    assert_eq!(parse_u64("12a"), None);
    assert_eq!(parse_u64("18446744073709551615"), Some(u64::MAX));
    assert_eq!(parse_u64("18446744073709551616"), None);
}
