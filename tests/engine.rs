use transfer_engine::batch::{task_for, BatchReport, BatchScheduler, Dispatch, WindowStep, DEFAULT_WINDOW_WIDTH};
use transfer_engine::classify::{classify, rate_limit_wait_secs, Exchange, Failure, Outcome, RateLimitDescriptor};
use transfer_engine::pagination::{draw_pacing_delay_ms, PageStep, PaginationDriver, PACING_MAX_MS, PACING_MIN_MS};
use transfer_engine::record::Message;
use transfer_engine::retry::{RetryAction, RetryController, DEFAULT_MAX_ATTEMPTS};

fn responded(status: u16, payload: Option<u32>, rate_limit: Option<RateLimitDescriptor>) -> Exchange<u32> {
    Exchange::Responded { status, payload, rate_limit }
}

fn throttled(retry_after_ms: u64) -> Exchange<u32> {
    responded(429, None, Some(RateLimitDescriptor { retry_after_ms, global: false }))
}

fn page(prefix: &str, n: usize) -> Vec<Message> {
    (0..n).map(|i| Message::new(format!("{}{}", prefix, i), vec![])).collect()
}

/// Drains every window of a scheduler, marking each task done before asking again.
fn drain(s: &mut BatchScheduler) -> Vec<(Vec<Dispatch>, u64)> {
    let mut windows = vec![];
    loop {
        match s.next_window() {
            WindowStep::Dispatch { tasks, pause_before_secs } => {
                assert_eq!(s.next_window(), WindowStep::Busy);
                for _ in 0..tasks.len() {
                    assert!(s.task_done());
                }
                windows.push((tasks, pause_before_secs));
            }
            WindowStep::Busy => panic!("scheduler busy with no task running"),
            WindowStep::Done => return windows,
        }
    }
}

#[test]
fn wait_at_zero_retry_after_is_padding() {
    assert_eq!(rate_limit_wait_secs(0), 10);
}

#[test]
fn wait_at_ten_seconds_hits_cap() {
    assert_eq!(rate_limit_wait_secs(10_000), 20);
}

#[test]
fn wait_rounds_fraction_up() {
    assert_eq!(rate_limit_wait_secs(1), 11);
    assert_eq!(rate_limit_wait_secs(500), 11);
    assert_eq!(rate_limit_wait_secs(1_000), 11);
    assert_eq!(rate_limit_wait_secs(1_001), 12);
    assert_eq!(rate_limit_wait_secs(9_001), 20);
    assert_eq!(rate_limit_wait_secs(9_000), 19);
}

#[test]
fn wait_caps_huge_retry_after() {
    assert_eq!(rate_limit_wait_secs(u64::MAX), 20);
    assert_eq!(rate_limit_wait_secs(3_600_000), 20);
}

#[test]
fn classify_every_kind() {
    assert_eq!(classify::<u32>(Exchange::NoResponse), Outcome::TransportFailure);
    assert_eq!(classify(responded(200, Some(7), None)), Outcome::Success(7));
    assert_eq!(classify(responded(204, Some(8), None)), Outcome::Success(8));
    assert_eq!(classify(responded(200, None, None)), Outcome::Fatal(Failure::DecodeFailed));
    assert_eq!(classify(throttled(2_500)), Outcome::RateLimited(13));
    assert_eq!(classify(responded(429, None, None)), Outcome::Fatal(Failure::UnreadableRateLimit));
    assert_eq!(classify(responded(413, None, None)), Outcome::Fatal(Failure::TooLarge));
    assert_eq!(classify(responded(500, None, None)), Outcome::Fatal(Failure::UnexpectedStatus(500)));
    assert_eq!(classify(responded(300, Some(1), None)), Outcome::Fatal(Failure::UnexpectedStatus(300)));
}

#[test]
fn always_throttled_gives_up_after_max_plus_one_attempts() {
    let mut c = RetryController::with_default_limit();
    let mut attempts = 0;
    let result = loop {
        attempts += 1;
        match c.on_outcome(classify(throttled(0))) {
            RetryAction::Finish(r) => break r,
            RetryAction::RetryAfter(w) => assert_eq!(w, 10),
            RetryAction::RetryNow => panic!("throttling must wait"),
        }
        assert!(c.attempts <= c.max_attempts);
    };
    assert_eq!(result, Err(Failure::MaxAttemptsExceeded));
    assert_eq!(attempts, DEFAULT_MAX_ATTEMPTS + 1);
    assert_eq!(c.attempts, DEFAULT_MAX_ATTEMPTS);
}

#[test]
fn too_large_ends_without_retry() {
    let mut c = RetryController::new(6);
    let r = c.on_outcome(classify(responded(413, None, None)));
    assert_eq!(r, RetryAction::Finish(Err(Failure::TooLarge)));
    assert_eq!(c.attempts, 0);
}

#[test]
fn unreadable_rate_limit_is_not_retried() {
    let mut c = RetryController::new(6);
    let r = c.on_outcome(classify(responded(429, None, None)));
    assert_eq!(r, RetryAction::Finish(Err(Failure::UnreadableRateLimit)));
    assert_eq!(c.attempts, 0);
}

#[test]
fn transport_failure_retries_at_once_then_succeeds() {
    let mut c = RetryController::new(6);
    assert_eq!(c.on_outcome(classify::<u32>(Exchange::NoResponse)), RetryAction::RetryNow);
    assert_eq!(c.attempts, 1);
    assert_eq!(c.on_outcome(classify(responded(200, Some(3), None))), RetryAction::Finish(Ok(3)));
    assert_eq!(c.attempts, 1);
}

#[test]
fn zero_limit_gives_up_on_first_retryable() {
    let mut c = RetryController::new(0);
    assert_eq!(
        c.on_outcome(classify::<u32>(Exchange::NoResponse)),
        RetryAction::Finish(Err(Failure::MaxAttemptsExceeded))
    );
}

#[test]
fn pagination_two_full_pages_then_empty() {
    let mut d = PaginationDriver::new();
    let mut fetches = 0;
    let pages = vec![page("a", 100), page("b", 100), page("c", 0)];
    let mut steps = vec![];
    for p in pages {
        fetches += 1;
        let step = d.on_page(Ok(p), 400);
        if fetches == 2 {
            assert_eq!(d.cursor.as_deref(), Some("b99"));
        }
        let done = step == PageStep::Finished;
        steps.push(step);
        if done {
            break;
        }
    }
    assert_eq!(fetches, 3);
    assert_eq!(d.records.len(), 200);
    assert_eq!(d.records[0].id, "a0");
    assert_eq!(d.records[199].id, "b99");
    assert_eq!(d.cursor.as_deref(), Some("b99"));
    assert_eq!(steps, vec![
        PageStep::FetchNext { delay_ms: 400 },
        PageStep::FetchNext { delay_ms: 400 },
        PageStep::Finished,
    ]);
}

#[test]
fn pagination_failure_keeps_partial_results() {
    let mut d = PaginationDriver::new();
    d.on_page(Ok(page("a", 3)), 300);
    let step = d.on_page(Err(Failure::UnexpectedStatus(500)), 300);
    assert_eq!(step, PageStep::Failed(Failure::UnexpectedStatus(500)));
    assert_eq!(d.records.len(), 3);
    assert_eq!(d.cursor.as_deref(), Some("a2"));
}

#[test]
fn pagination_rerun_from_same_cursor_is_identical() {
    let run = |start: Option<String>| {
        let mut d = PaginationDriver::new();
        d.cursor = start;
        for p in vec![page("x", 2), page("y", 1), page("z", 0)] {
            if d.on_page(Ok(p), 500) == PageStep::Finished {
                break;
            }
        }
        (d.cursor, d.records)
    };
    let first = run(Some("m5".to_string()));
    let second = run(Some("m5".to_string()));
    assert_eq!(first, second);
    assert_eq!(first.1.len(), 3);
}

#[test]
fn page_query_carries_cursor() {
    let mut d = PaginationDriver::new();
    assert_eq!(d.next_query(), "limit=100");
    d.on_page(Ok(page("m", 2)), 300);
    assert_eq!(d.next_query(), "limit=100&before=m1");
}

#[test]
fn pacing_delay_is_sub_second() {
    for _ in 0..200 {
        let ms = draw_pacing_delay_ms();
        assert!(PACING_MIN_MS <= ms && ms < PACING_MAX_MS);
    }
}

#[test]
fn ten_tasks_in_windows_of_four() {
    let mut s = BatchScheduler::new(10, 0, DEFAULT_WINDOW_WIDTH).unwrap();
    let windows = drain(&mut s);
    let sizes: Vec<usize> = windows.iter().map(|w| w.0.len()).collect();
    assert_eq!(sizes, vec![4, 4, 2]);
    assert_eq!(windows.iter().map(|w| w.1).collect::<Vec<u64>>(), vec![0, 7, 7]);
    assert!(s.is_finished());
}

#[test]
fn next_window_waits_for_running_tasks() {
    let mut s = BatchScheduler::new(10, 0, 4).unwrap();
    assert!(matches!(s.next_window(), WindowStep::Dispatch { .. }));
    for _ in 0..3 {
        assert!(s.task_done());
        assert_eq!(s.next_window(), WindowStep::Busy);
    }
    assert!(s.task_done());
    assert!(!s.task_done());
    match s.next_window() {
        WindowStep::Dispatch { tasks, .. } => assert_eq!(tasks[0].index, 4),
        other => panic!("expected a window, got {:?}", other),
    }
}

#[test]
fn nine_files_rotate_version_hints() {
    let mut s = BatchScheduler::new(9, 0, 4).unwrap();
    let windows = drain(&mut s);
    let sizes: Vec<usize> = windows.iter().map(|w| w.0.len()).collect();
    assert_eq!(sizes, vec![4, 4, 1]);
    let all: Vec<Dispatch> = windows.into_iter().flat_map(|w| w.0).collect();
    assert_eq!(all.iter().map(|d| d.index).collect::<Vec<usize>>(), (0..9).collect::<Vec<usize>>());
    assert_eq!(all.iter().map(|d| d.version_hint).collect::<Vec<u8>>(), vec![7, 8, 9, 6, 7, 8, 9, 6, 7]);
}

#[test]
fn offset_skips_leading_tasks() {
    let mut s = BatchScheduler::new(10, 7, 4).unwrap();
    let windows = drain(&mut s);
    assert_eq!(windows.len(), 1);
    assert_eq!(windows[0].0.iter().map(|d| d.index).collect::<Vec<usize>>(), vec![7, 8, 9]);
    let mut past = BatchScheduler::new(10, 12, 4).unwrap();
    assert_eq!(past.next_window(), WindowStep::Done);
    let mut empty = BatchScheduler::new(0, 0, 4).unwrap();
    assert_eq!(empty.next_window(), WindowStep::Done);
}

#[test]
fn width_one_is_sequential() {
    let mut s = BatchScheduler::new(3, 0, 1).unwrap();
    let sizes: Vec<usize> = drain(&mut s).iter().map(|w| w.0.len()).collect();
    assert_eq!(sizes, vec![1, 1, 1]);
    assert!(BatchScheduler::new(3, 0, 0).is_none());
}

#[test]
fn report_collects_failures_without_stopping() {
    let mut r: BatchReport<u32> = BatchReport::new();
    r.record(0, Ok(10));
    r.record(1, Err(Failure::TooLarge));
    r.record(2, Ok(12));
    assert_eq!(r.successes, vec![10, 12]);
    assert_eq!(r.failures, vec![(1, Failure::TooLarge)]);
}

#[test]
fn task_for_carries_target_file_and_hint() {
    let files = vec!["/d/a.png".to_string(), "/d/b.png".to_string()];
    let target = "1234".to_string();
    let t = task_for(&target, &files, Dispatch { index: 1, version_hint: 8 }).unwrap();
    assert_eq!(t.target_resource_id, "1234");
    assert_eq!(t.payload_ref, "/d/b.png");
    assert_eq!(t.protocol_version_hint, 8);
    assert!(task_for(&target, &files, Dispatch { index: 2, version_hint: 9 }).is_none());
}
