use devpulse::shell::{
    drain_start, drain_step, DrainStep, ReadEvent, DRAIN_BUDGET_MS, DRAIN_POLL_MS,
    SETTLE_DELAY_MS, TRAILING_DELAY_MS, WRITE_THROTTLE_MS,
};

#[test]
fn timing_constants_match_the_protocol() {
    assert_eq!(SETTLE_DELAY_MS, 500);
    assert_eq!(WRITE_THROTTLE_MS, 10);
    assert_eq!(DRAIN_BUDGET_MS, 50);
    assert_eq!(DRAIN_POLL_MS, 1);
    assert_eq!(TRAILING_DELAY_MS, 5);
}

#[test]
fn read_with_no_pending_output_returns_empty_within_the_budget() {
    // nothing ready now: poll again after the poll pause
    let st = drain_start();
    let step = drain_step(st, ReadEvent::Empty, 0);
    let st = match step {
        DrainStep::Continue(s, delay) => {
            assert_eq!(delay, DRAIN_POLL_MS);
            s
        }
        _ => panic!("expected to keep polling inside the budget"),
    };
    // the budget is spent and nothing ever arrived: an empty, non-error result
    let step = drain_step(st, ReadEvent::Empty, DRAIN_BUDGET_MS);
    match step {
        DrainStep::Done(out) => assert!(out.is_empty()),
        _ => panic!("expected an empty result at the end of the budget"),
    }
}

#[test]
fn would_block_with_nothing_accumulated_finishes_empty_at_once() {
    let st = drain_start();
    match drain_step(st, ReadEvent::WouldBlock, 3) {
        DrainStep::Done(out) => assert!(out.is_empty()),
        _ => panic!("expected an immediate empty result"),
    }
}

#[test]
fn accumulated_data_earns_one_trailing_read() {
    let st = drain_start();
    let st = match drain_step(st, ReadEvent::Data(vec![1, 2]), 0) {
        DrainStep::Continue(s, delay) => {
            // after data the next read is attempted at once
            assert_eq!(delay, 0);
            s
        }
        _ => panic!("expected to continue after data"),
    };
    let st = match drain_step(st, ReadEvent::WouldBlock, 4) {
        DrainStep::Finishing(s, delay) => {
            assert_eq!(delay, TRAILING_DELAY_MS);
            s
        }
        _ => panic!("expected the trailing read"),
    };
    match drain_step(st, ReadEvent::Empty, 9) {
        DrainStep::Done(out) => assert_eq!(out, vec![1, 2]),
        _ => panic!("expected the accumulated bytes"),
    }
}

#[test]
fn trailing_data_is_appended_to_the_result() {
    let st = drain_start();
    let st = match drain_step(st, ReadEvent::Data(vec![1, 2]), 0) {
        DrainStep::Continue(s, _) => s,
        _ => panic!("expected to continue after data"),
    };
    let st = match drain_step(st, ReadEvent::WouldBlock, 1) {
        DrainStep::Finishing(s, _) => s,
        _ => panic!("expected the trailing read"),
    };
    match drain_step(st, ReadEvent::Data(vec![3]), 6) {
        DrainStep::Done(out) => assert_eq!(out, vec![1, 2, 3]),
        _ => panic!("expected the extended bytes"),
    }
}

#[test]
fn zero_byte_reads_poll_until_the_budget_is_spent() {
    let mut st = drain_start();
    let mut elapsed = 0u64;
    let mut polls = 0u64;
    loop {
        match drain_step(st, ReadEvent::Empty, elapsed) {
            DrainStep::Continue(s, delay) => {
                assert!(elapsed < DRAIN_BUDGET_MS);
                st = s;
                elapsed += delay.max(1);
                polls += 1;
            }
            DrainStep::Done(out) => {
                assert!(out.is_empty());
                break;
            }
            _ => panic!("an empty drain neither fails nor trails"),
        }
        assert!(polls <= DRAIN_BUDGET_MS / DRAIN_POLL_MS + 1, "the drain must stay bounded");
    }
}

#[test]
fn a_read_of_zero_bytes_counts_as_nothing_ready() {
    let st = drain_start();
    match drain_step(st, ReadEvent::Data(Vec::new()), 0) {
        DrainStep::Continue(s, delay) => {
            assert_eq!(delay, DRAIN_POLL_MS);
            assert!(s.acc.is_empty());
        }
        _ => panic!("an empty read inside the budget polls again"),
    }
}

#[test]
fn fatal_errors_surface_immediately() {
    let st = drain_start();
    match drain_step(st, ReadEvent::Failed(String::from("connection reset")), 2) {
        DrainStep::Fail(msg) => assert_eq!(msg, "connection reset"),
        _ => panic!("expected the error to surface"),
    }
}

#[test]
fn data_arriving_at_the_budget_edge_still_gets_its_trailing_read() {
    let st = drain_start();
    match drain_step(st, ReadEvent::Data(vec![9]), DRAIN_BUDGET_MS) {
        DrainStep::Finishing(s, _) => {
            match drain_step(s, ReadEvent::WouldBlock, DRAIN_BUDGET_MS + 5) {
                DrainStep::Done(out) => assert_eq!(out, vec![9]),
                _ => panic!("expected the trailing step to finish"),
            }
        }
        _ => panic!("expected the trailing read after late data"),
    }
}
