use std::sync::Arc;

use deep_causality::ring_buffer::barrier::SequenceBarrier;
use deep_causality::ring_buffer::barrier::compute_available;
use deep_causality::ring_buffer::consumer::EventProcessor;
use deep_causality::ring_buffer::consumer::ProcessorStep;
use deep_causality::ring_buffer::consumer::RecordingHandler;
use deep_causality::ring_buffer::consumer::process_batch;
use deep_causality::ring_buffer::cursor_sequence::min_sequence;
use deep_causality::ring_buffer::executor::ConsumerState;
use deep_causality::ring_buffer::executor::Executor;
use deep_causality::ring_buffer::executor::LifecycleEvent;
use deep_causality::ring_buffer::executor::next_state;
use deep_causality::ring_buffer::executor::run_pipeline;
use deep_causality::ring_buffer::executor::run_staged_pipeline;
use deep_causality::ring_buffer::producer::MultiProducerSequencer;
use deep_causality::ring_buffer::producer::SingleProducerSequencer;
use deep_causality::ring_buffer::producer::claim_batch;
use deep_causality::ring_buffer::producer::has_capacity_for;
use deep_causality::ring_buffer::producer::publish;
use deep_causality::ring_buffer::producer::wait_for_capacity;
use deep_causality::ring_buffer::ring::ProducerMode;
use deep_causality::ring_buffer::ring::RingBuffer;
use deep_causality::ring_buffer::ring::TransportConfig;
use deep_causality::ring_buffer::ring::check_power_of_two;
use deep_causality::ring_buffer::sequence::AtomicSequence;
use deep_causality::ring_buffer::sequence::SequenceCounter;
use deep_causality::ring_buffer::sequence::get_min_cursor_sequence;
use deep_causality::ring_buffer::wait_strategy::HaltFlag;
use deep_causality::ring_buffer::wait_strategy::SLEEP_SPIN_LIMIT;
use deep_causality::ring_buffer::wait_strategy::WaitAction;
use deep_causality::ring_buffer::wait_strategy::WaitResult;
use deep_causality::ring_buffer::wait_strategy::WaitStrategy;
use deep_causality::ring_buffer::wait_strategy::YIELD_SPIN_LIMIT;
use deep_causality::ring_buffer::wait_strategy::backoff_nanos;
use deep_causality::ring_buffer::wait_strategy::wait_decision;

#[test]
fn test_min_sequence_empty_returns_default_sentinel() {
    let values: Vec<i64> = vec![];
    assert_eq!(min_sequence(&values), 0);
}

#[test]
fn test_min_sequence_picks_smallest() {
    let values: Vec<i64> = vec![5, 2, 9];
    assert_eq!(min_sequence(&values), 2);
}

#[test]
fn test_get_min_cursor_sequence_over_counters() {
    let counters = vec![
        Arc::new(SequenceCounter::new(5)),
        Arc::new(SequenceCounter::new(2)),
        Arc::new(SequenceCounter::new(9)),
    ];
    assert_eq!(get_min_cursor_sequence(&counters), 2);

    let empty: Vec<Arc<SequenceCounter>> = vec![];
    assert_eq!(get_min_cursor_sequence(&empty), 0);
}

#[test]
fn test_sequence_counter_operations() {
    let counter = SequenceCounter::new(-1);
    assert_eq!(counter.get(), -1);
    counter.set(7);
    assert_eq!(counter.get(), 7);
    assert!(counter.compare_and_set(7, 8));
    assert_eq!(counter.get(), 8);
    assert!(!counter.compare_and_set(7, 9));
    assert_eq!(counter.get(), 8);
}

#[test]
fn test_check_power_of_two() {
    assert!(!check_power_of_two(0));
    assert!(check_power_of_two(1));
    assert!(check_power_of_two(2));
    assert!(!check_power_of_two(3));
    assert!(check_power_of_two(1024));
    assert!(!check_power_of_two(1000));
}

#[test]
fn test_ring_buffer_rejects_non_power_of_two_capacity() {
    let r = RingBuffer::<u64>::new(3, 0);
    assert!(r.is_err());
    let r = RingBuffer::<u64>::new(0, 0);
    assert!(r.is_err());
    let r = RingBuffer::<u64>::new(4, 0);
    assert!(r.is_ok());
    assert_eq!(r.unwrap().capacity(), 4);
}

#[test]
fn test_ring_buffer_slot_reuse_per_lap() {
    let mut rb = RingBuffer::<u64>::new(4, 0).unwrap();
    assert_eq!(rb.index_of(0), 0);
    assert_eq!(rb.index_of(5), 1);
    assert_eq!(rb.index_of(8), 0);
    rb.write_slot(5, 55);
    assert_eq!(*rb.get(5), 55);
    assert_eq!(*rb.get(1), 55);
    rb.write_slot(9, 99);
    assert_eq!(*rb.get(1), 99);
}

#[test]
fn test_single_producer_claims_consecutive_sequences() {
    let mut seq = SingleProducerSequencer::new();
    assert_eq!(seq.claim_single(), 0);
    assert_eq!(seq.claim_single(), 1);
    assert_eq!(seq.claim_single(), 2);
}

#[test]
fn test_claim_batch_is_gapless_and_unique() {
    let mut seq = SingleProducerSequencer::new();
    let claims = claim_batch(&mut seq, 10);
    assert_eq!(claims.len(), 10);
    for (i, s) in claims.iter().enumerate() {
        assert_eq!(*s, i as i64);
    }
    let more = claim_batch(&mut seq, 5);
    for (i, s) in more.iter().enumerate() {
        assert_eq!(*s, 10 + i as i64);
    }
}

#[test]
fn test_multi_producer_claims_are_unique() {
    let producer_a = MultiProducerSequencer::new();
    let producer_b = producer_a.share();
    let mut claims: Vec<i64> = Vec::new();
    for _ in 0..6 {
        claims.push(producer_a.claim_multi(16).unwrap());
        claims.push(producer_b.claim_multi(16).unwrap());
    }
    claims.sort();
    let expected: Vec<i64> = (0..12).collect();
    assert_eq!(claims, expected);
}

#[test]
fn test_capacity_gate() {
    // Capacity 4, nothing consumed yet: sequences 0 to 3 fit, 4 does not.
    assert!(has_capacity_for(0, -1, 4));
    assert!(has_capacity_for(3, -1, 4));
    assert!(!has_capacity_for(4, -1, 4));
    // Once the consumer passes sequence 0, sequence 4 fits.
    assert!(has_capacity_for(4, 0, 4));
}

#[test]
fn test_wrap_around_claim_blocks_until_consumer_advances() {
    // A producer on a ring of four claims five sequences with no consumer
    // draining: the fifth claim must wait rather than lap slot zero.
    let gating = vec![Arc::new(SequenceCounter::new(-1))];
    for s in 0..4 {
        assert!(wait_for_capacity(s, &gating, 4, 2).is_some());
    }
    assert_eq!(wait_for_capacity(4, &gating, 4, 2), None);

    // The consumer advances past sequence 0: the fifth claim proceeds.
    gating[0].set(0);
    assert_eq!(wait_for_capacity(4, &gating, 4, 2), Some(0));
}

#[test]
fn test_pipeline_is_fifo_and_exactly_once() {
    // More entries than slots: every entry still arrives exactly once, in
    // order, under its own sequence.
    let inputs: Vec<u64> = (100..120).collect();
    let mut handler = RecordingHandler::<u64>::new();
    let r = run_pipeline(&inputs, 8, 0, &mut handler);
    assert!(r.is_ok());
    assert_eq!(handler.count(), 20);
    for i in 0..20 {
        let (sequence, entry) = handler.entry_at(i);
        assert_eq!(sequence, i as i64);
        assert_eq!(entry, 100 + i as u64);
    }
}

#[test]
fn test_pipeline_rejects_bad_capacity() {
    let inputs: Vec<u64> = vec![1, 2, 3];
    let mut handler = RecordingHandler::<u64>::new();
    let r = run_pipeline(&inputs, 6, 0, &mut handler);
    assert!(r.is_err());
    assert_eq!(handler.count(), 0);
}

#[test]
fn test_process_batch_delivers_in_order() {
    let mut rb = RingBuffer::<u64>::new(8, 0).unwrap();
    for s in 0..5 {
        rb.write_slot(s, 10 + s as u64);
    }
    let mut handler = RecordingHandler::<u64>::new();
    process_batch(&mut handler, &rb, 0, 4);
    assert_eq!(handler.count(), 5);
    for i in 0..5 {
        assert_eq!(handler.entry_at(i), (i as i64, 10 + i as u64));
    }
}

#[test]
fn test_wait_decision_honours_halt_first() {
    let action = wait_decision(WaitStrategy::BusySpin, 5, 9, true, 0);
    assert_eq!(action, WaitAction::Finish(WaitResult::Halted));
    let action = wait_decision(WaitStrategy::Blocking, 5, 1, true, 0);
    assert_eq!(action, WaitAction::Finish(WaitResult::Halted));
}

#[test]
fn test_wait_decision_delivers_available_target() {
    let action = wait_decision(WaitStrategy::Yielding, 5, 7, false, 0);
    assert_eq!(action, WaitAction::Finish(WaitResult::Available(7)));
}

#[test]
fn test_wait_decision_strategy_pauses() {
    assert_eq!(
        wait_decision(WaitStrategy::BusySpin, 5, 1, false, 1_000_000),
        WaitAction::SpinAgain
    );
    assert_eq!(
        wait_decision(WaitStrategy::Yielding, 5, 1, false, 0),
        WaitAction::SpinAgain
    );
    assert_eq!(
        wait_decision(WaitStrategy::Yielding, 5, 1, false, YIELD_SPIN_LIMIT),
        WaitAction::YieldControl
    );
    assert_eq!(
        wait_decision(WaitStrategy::Sleeping, 5, 1, false, SLEEP_SPIN_LIMIT),
        WaitAction::SleepFor(1000)
    );
    assert_eq!(
        wait_decision(WaitStrategy::Blocking, 5, 1, false, 0),
        WaitAction::Park
    );
}

#[test]
fn test_backoff_grows_and_caps() {
    assert_eq!(backoff_nanos(0), 1000);
    assert_eq!(backoff_nanos(1), 2000);
    assert_eq!(backoff_nanos(998), 999000);
    assert_eq!(backoff_nanos(999), 1000000);
    assert_eq!(backoff_nanos(5000), 1000000);
}

#[test]
fn test_barrier_reports_minimum_of_dependency_set() {
    assert_eq!(compute_available(9, &vec![3, 7]), 3);
    assert_eq!(compute_available(2, &vec![3, 7]), 2);
    assert_eq!(compute_available(4, &vec![]), 4);

    let cursor = Arc::new(SequenceCounter::new(9));
    let deps = vec![Arc::new(SequenceCounter::new(3)), Arc::new(SequenceCounter::new(7))];
    let halt = Arc::new(HaltFlag::new());
    let barrier = SequenceBarrier::new(cursor, deps, halt, WaitStrategy::BusySpin);
    assert_eq!(barrier.get_available(), 3);
}

#[test]
fn test_barrier_wait_for_available_sequence() {
    let cursor = Arc::new(SequenceCounter::new(5));
    let halt = Arc::new(HaltFlag::new());
    let barrier = SequenceBarrier::new(cursor, vec![], halt, WaitStrategy::BusySpin);
    assert_eq!(barrier.wait_for(3, 16), Some(WaitResult::Available(5)));
}

#[test]
fn test_halted_wait_exits_promptly() {
    // A consumer whose halt flag is raised observes it on the very next
    // check instead of waiting for a publish that never comes.
    let cursor = Arc::new(SequenceCounter::new(-1));
    let halt = Arc::new(HaltFlag::new());
    let barrier = SequenceBarrier::new(cursor, vec![], halt, WaitStrategy::Blocking);
    let halt_handle = barrier.halt_handle();
    halt_handle.halt();
    assert_eq!(barrier.wait_for(0, 1_000_000), Some(WaitResult::Halted));
}

#[test]
fn test_wait_budget_runs_out_without_publish() {
    let cursor = Arc::new(SequenceCounter::new(-1));
    let halt = Arc::new(HaltFlag::new());
    let barrier = SequenceBarrier::new(cursor, vec![], halt, WaitStrategy::BusySpin);
    assert_eq!(barrier.wait_for(0, 64), None);
}

#[test]
fn test_event_processor_drains_published_batch() {
    let mut rb = RingBuffer::<u64>::new(8, 0).unwrap();
    for s in 0..5 {
        rb.write_slot(s, 40 + s as u64);
    }
    let cursor = Arc::new(SequenceCounter::new(4));
    let halt = Arc::new(HaltFlag::new());
    let barrier = SequenceBarrier::new(cursor, vec![], halt, WaitStrategy::BusySpin);
    let handler = RecordingHandler::<u64>::new();
    let mut processor = EventProcessor::new(handler, barrier);
    let progress = processor.progress_handle();
    assert_eq!(progress.get(), -1);

    let step = processor.run_once(&rb, 16);
    assert_eq!(step, ProcessorStep::ProcessedUpTo(4));
    assert_eq!(progress.get(), 4);

    let handler = processor.into_handler();
    assert_eq!(handler.count(), 5);
    for i in 0..5 {
        assert_eq!(handler.entry_at(i), (i as i64, 40 + i as u64));
    }
}

#[test]
fn test_event_processor_observes_halt() {
    let rb = RingBuffer::<u64>::new(8, 0).unwrap();
    let cursor = Arc::new(SequenceCounter::new(-1));
    let halt = Arc::new(HaltFlag::new());
    let barrier = SequenceBarrier::new(cursor, vec![], halt, WaitStrategy::BusySpin);
    let handler = RecordingHandler::<u64>::new();
    let mut processor = EventProcessor::new(handler, barrier);
    processor.halt();
    let step = processor.run_once(&rb, 16);
    assert_eq!(step, ProcessorStep::HaltedExit);
    assert_eq!(processor.into_handler().count(), 0);
}

#[test]
fn test_lifecycle_transitions() {
    assert_eq!(
        next_state(ConsumerState::Idle, LifecycleEvent::Start),
        ConsumerState::Running
    );
    assert_eq!(
        next_state(ConsumerState::Running, LifecycleEvent::HaltRequested),
        ConsumerState::Halting
    );
    assert_eq!(
        next_state(ConsumerState::Halting, LifecycleEvent::LoopExited),
        ConsumerState::Halted
    );
    assert_eq!(
        next_state(ConsumerState::Halted, LifecycleEvent::Start),
        ConsumerState::Halted
    );
    assert_eq!(
        next_state(ConsumerState::Idle, LifecycleEvent::LoopExited),
        ConsumerState::Idle
    );
}

#[test]
fn test_executor_shutdown_leaves_no_consumer_behind() {
    let mut executor = Executor::new();
    let halt_a = Arc::new(HaltFlag::new());
    let halt_b = Arc::new(HaltFlag::new());
    let idx_a = executor.register(Arc::clone(&halt_a));
    let idx_b = executor.register(Arc::clone(&halt_b));
    assert_eq!(idx_a, 0);
    assert_eq!(idx_b, 1);
    assert_eq!(executor.consumer_count(), 2);
    assert!(!executor.all_halted());

    executor.start_all();
    assert!(!executor.all_halted());

    executor.halt_all();
    assert!(halt_a.is_halted());
    assert!(halt_b.is_halted());
    assert!(!executor.all_halted());

    executor.mark_exited(0);
    assert!(!executor.all_halted());
    executor.mark_exited(1);
    assert!(executor.all_halted());
}

#[test]
fn test_publish_makes_sequence_visible_to_barrier() {
    let mut rb = RingBuffer::<u64>::new(4, 0).unwrap();
    let cursor = Arc::new(SequenceCounter::new(-1));
    let halt = Arc::new(HaltFlag::new());
    let barrier = SequenceBarrier::new(Arc::clone(&cursor), vec![], halt, WaitStrategy::BusySpin);
    assert_eq!(barrier.get_available(), -1);

    publish(&mut rb, &cursor, 0, 7);
    assert_eq!(barrier.get_available(), 0);
    assert_eq!(*rb.get(0), 7);

    publish(&mut rb, &cursor, 1, 8);
    assert_eq!(barrier.get_available(), 1);
    assert_eq!(barrier.wait_for(1, 4), Some(WaitResult::Available(1)));
}

#[test]
fn test_gating_invariant_under_interleavings() {
    // Drive producer and consumers through pseudo-random interleavings: the
    // barrier's reported available sequence never exceeds any member of its
    // dependency set at the time of the check.
    let cursor = Arc::new(SequenceCounter::new(-1));
    let dep_a = Arc::new(SequenceCounter::new(-1));
    let dep_b = Arc::new(SequenceCounter::new(-1));
    let halt = Arc::new(HaltFlag::new());
    let barrier = SequenceBarrier::new(
        Arc::clone(&cursor),
        vec![Arc::clone(&dep_a), Arc::clone(&dep_b)],
        halt,
        WaitStrategy::BusySpin,
    );

    let mut state: u64 = 0x2545F4914F6CDD1D;
    for _ in 0..500 {
        // A linear congruential step decides which stage advances.
        state = state.wrapping_mul(6364136223846793005).wrapping_add(1442695040888963407);
        match state >> 62 {
            0 => cursor.set(cursor.get() + 1),
            1 => {
                if dep_a.get() < cursor.get() {
                    dep_a.set(dep_a.get() + 1);
                }
            }
            2 => {
                if dep_b.get() < cursor.get() {
                    dep_b.set(dep_b.get() + 1);
                }
            }
            _ => {}
        }
        let available = barrier.get_available();
        assert!(available <= cursor.get());
        assert!(available <= dep_a.get());
        assert!(available <= dep_b.get());
    }
}

#[test]
fn test_staged_pipeline_keeps_stage_order() {
    // A second stage gated behind the first: both stages see every entry
    // exactly once, in order, through a ring far smaller than the input.
    let inputs: Vec<u64> = (0..30).map(|v| 1000 + v).collect();
    let mut first = RecordingHandler::<u64>::new();
    let mut second = RecordingHandler::<u64>::new();
    let r = run_staged_pipeline(&inputs, 4, 0, &mut first, &mut second);
    assert!(r.is_ok());
    assert_eq!(first.count(), 30);
    assert_eq!(second.count(), 30);
    for i in 0..30 {
        assert_eq!(first.entry_at(i), (i as i64, 1000 + i as u64));
        assert_eq!(second.entry_at(i), (i as i64, 1000 + i as u64));
    }
}

#[test]
fn test_transport_config_validation() {
    let config = TransportConfig {
        capacity: 64,
        wait_strategy: WaitStrategy::Yielding,
        producer_mode: ProducerMode::Single,
    };
    assert!(config.validate().is_ok());
    let ring = config.build_ring(0u64).unwrap();
    assert_eq!(ring.capacity(), 64);

    let config = TransportConfig {
        capacity: 48,
        wait_strategy: WaitStrategy::Blocking,
        producer_mode: ProducerMode::Multi,
    };
    assert!(config.validate().is_err());
    assert!(config.build_ring(0u64).is_err());
}
