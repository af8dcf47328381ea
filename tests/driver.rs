use hyperfuel::driver::{Action, Event, PageRun, RunError};

/// Drives a run against a scripted transport and records the pauses.
fn drive(mut run: PageRun, mut script: Vec<Event>) -> (Action, Vec<u64>, Vec<u64>) {
    script.reverse();
    let mut requests = Vec::new();
    let mut delays = Vec::new();
    let mut action = run.start();
    loop {
        match action {
            Action::Request { from_block } => requests.push(from_block),
            Action::Retry { delay, from_block } => {
                delays.push(delay);
                requests.push(from_block);
            }
            Action::Finish { .. } | Action::Fail { .. } => return (action, requests, delays),
        }
        let event = script.pop().expect("transport script ran out");
        action = run.step(event);
    }
}

fn page(next_block: u64, num_rows: u64) -> Event {
    Event::Page { next_block, num_rows, stop: false }
}

#[test]
fn pagination_runs_to_the_end() {
    let run = PageRun::new(100, Some(130), true);
    let (end, requests, delays) = drive(run, vec![page(110, 3), page(120, 0), page(135, 1)]);
    assert_eq!(end, Action::Finish { cursor: 135 });
    assert_eq!(requests, vec![100, 110, 120]);
    assert!(delays.is_empty());
}

#[test]
fn pagination_stops_on_stalled_empty_page() {
    let run = PageRun::new(5, None, true);
    let (end, requests, _) = drive(run, vec![page(9, 2), page(9, 0)]);
    assert_eq!(end, Action::Finish { cursor: 9 });
    assert_eq!(requests, vec![5, 9]);
}

#[test]
fn pagination_stops_when_caller_stops() {
    let mut run = PageRun::new(0, Some(1000), false);
    assert_eq!(run.start(), Action::Request { from_block: 0 });
    let a = run.step(Event::Page { next_block: 50, num_rows: 7, stop: true });
    assert_eq!(a, Action::Finish { cursor: 50 });
}

#[test]
fn empty_range_finishes_at_once() {
    let run = PageRun::new(10, Some(10), true);
    assert_eq!(run.start(), Action::Finish { cursor: 10 });
}

#[test]
fn retry_backoff_is_one_two_three() {
    let run = PageRun::new(100, Some(110), true);
    let script = vec![
        Event::TransientFailure,
        Event::TransientFailure,
        Event::TransientFailure,
        page(110, 4),
    ];
    let (end, requests, delays) = drive(run, script);
    assert_eq!(end, Action::Finish { cursor: 110 });
    assert_eq!(delays, vec![1, 2, 3]);
    assert_eq!(requests, vec![100, 100, 100, 100]);
}

#[test]
fn retry_backoff_caps_at_five_and_resets() {
    let mut run = PageRun::new(0, None, true);
    let mut delays = Vec::new();
    for _ in 0..7 {
        match run.step(Event::TransientFailure) {
            Action::Retry { delay, from_block } => {
                assert_eq!(from_block, 0);
                delays.push(delay);
            }
            other => panic!("unexpected {:?}", other),
        }
    }
    assert_eq!(delays, vec![1, 2, 3, 4, 5, 5, 5]);
    assert_eq!(run.step(page(20, 1)), Action::Request { from_block: 20 });
    assert_eq!(run.step(Event::TransientFailure), Action::Retry { delay: 1, from_block: 20 });
}

#[test]
fn fatal_failure_aborts_with_last_cursor() {
    let run = PageRun::new(0, Some(100), true);
    let (end, _, _) = drive(run, vec![page(40, 1), Event::FatalFailure]);
    assert_eq!(end, Action::Fail { cursor: 40, error: RunError::TransportFatal });
}

#[test]
fn single_attempt_surfaces_transient_failure() {
    let mut run = PageRun::new(7, None, false);
    assert_eq!(
        run.step(Event::TransientFailure),
        Action::Fail { cursor: 7, error: RunError::TransportTransient }
    );
}

#[test]
fn cancelled_run_does_not_retry() {
    let mut run = PageRun::new(3, None, true);
    run.step(Event::TransientFailure);
    assert_eq!(run.step(Event::Cancelled), Action::Fail { cursor: 3, error: RunError::Cancelled });
}
