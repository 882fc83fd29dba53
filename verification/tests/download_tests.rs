use mts_linkchats_launcher::apt::{Client, DownloadError, DownloadSession};

#[test]
fn client_keeps_its_timeout() {
    let c = Client::new(Some(30)).unwrap();
    assert_eq!(c.timeout, Some(30));
    let c2 = Client::new(None).unwrap();
    assert_eq!(c2.timeout, None);
}

#[test]
fn download_with_transient_failures_is_byte_identical() {
    let remote: Vec<u8> = (0u8..200).collect();

    // One attempt, no failures.
    let mut clean = DownloadSession::new();
    assert!(clean.begin_attempt(5).is_ok());
    clean.append_chunk(&remote);

    // Two failures at different points; each next attempt resumes at the
    // offset, so the buffer continues where it stopped.
    let mut flaky = DownloadSession::new();
    assert!(flaky.begin_attempt(5).is_ok());
    flaky.append_chunk(&remote[..37].to_vec());
    assert_eq!(flaky.resume_offset(), 37);
    assert!(flaky.begin_attempt(5).is_ok());
    flaky.append_chunk(&remote[37..101].to_vec());
    assert_eq!(flaky.resume_offset(), 101);
    assert!(flaky.begin_attempt(5).is_ok());
    flaky.append_chunk(&remote[101..].to_vec());

    assert_eq!(clean.buf, flaky.buf);
    assert_eq!(flaky.buf, remote);
}

#[test]
fn attempts_beyond_the_budget_are_refused() {
    let mut s = DownloadSession::new();
    assert!(s.begin_attempt(3).is_ok());
    assert!(s.begin_attempt(3).is_ok());
    assert!(s.begin_attempt(3).is_ok());
    assert_eq!(s.begin_attempt(3).unwrap_err(), DownloadError::RetriesExceeded);
    assert_eq!(s.attempts, 4);
}

#[test]
fn a_zero_budget_means_unlimited_retries() {
    let mut s = DownloadSession::new();
    let mut i: usize = 0;
    while i < 50 {
        assert!(s.begin_attempt(0).is_ok());
        i += 1;
    }
}

#[test]
fn resume_after_interruption_completes_exactly() {
    let remote: Vec<u8> = (0u8..=255).collect();
    let mut s = DownloadSession::new();
    s.set_total(256);
    assert!(s.begin_attempt(2).is_ok());
    s.append_chunk(&remote[..100].to_vec());
    // The attempt dies here; the next one resumes at the offset.
    let off = s.resume_offset();
    assert_eq!(off, 100);
    assert!(s.begin_attempt(2).is_ok());
    s.append_chunk(&remote[off..].to_vec());
    assert_eq!(s.buf.len(), 256);
    assert_eq!(s.buf, remote);
}

#[test]
fn progress_has_no_division_by_zero_and_exact_values() {
    let mut s = DownloadSession::new();
    assert_eq!(s.progress_percent(), 0);
    s.append_chunk(&vec![1, 2, 3]);
    assert_eq!(s.progress_percent(), 0);
    s.set_total(6);
    assert_eq!(s.progress_percent(), 50);
    s.append_chunk(&vec![4]);
    assert_eq!(s.progress_percent(), 66);
    s.append_chunk(&vec![5, 6]);
    assert_eq!(s.progress_percent(), 100);
}
