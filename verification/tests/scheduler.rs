use instruments::arp::Msg;
use instruments::scheduler::Scheduler;
use instruments::types::Fault;

#[test]
fn new_scheduler_is_empty() {
    let s: Scheduler<Msg> = Scheduler::new();
    assert!(!s.has_events());
    assert_eq!(s.events().len(), 0);
    assert_eq!(s.jobs().len(), 0);
    assert_eq!(s.tick_duration(), 0);
}

#[test]
fn interval_registers_with_zero_elapsed() {
    let mut s: Scheduler<u8> = Scheduler::new();
    s.interval(4, 7);
    s.interval(4, 7);
    assert_eq!(s.jobs().len(), 2);
    assert_eq!(s.jobs()[0].ct, 0);
    assert_eq!(s.jobs()[0].mt, 4);
    assert_eq!(s.jobs()[0].msg, 7);
    assert_eq!(s.jobs()[1].ct, 0);
    assert_eq!(s.jobs()[1].mt, 4);
    assert!(!s.has_events());
}

#[test]
fn job_fires_once_in_its_period() {
    for period in [1usize, 2, 3, 4, 32, 100] {
        let mut s: Scheduler<u32> = Scheduler::new();
        s.interval(period, 9);
        for tick in 1..=period {
            s.update(0);
            if tick < period {
                assert!(!s.has_events());
                assert_eq!(s.jobs()[0].ct, tick);
            }
        }
        assert_eq!(s.events(), &vec![9u32]);
        assert_eq!(s.jobs()[0].ct, 0);
    }
}

#[test]
fn job_fires_every_period() {
    let mut s: Scheduler<u32> = Scheduler::new();
    s.interval(3, 1);
    let mut fired: Vec<usize> = Vec::new();
    for tick in 1..=12usize {
        s.update(0);
        if s.has_events() {
            assert_eq!(s.events(), &vec![1u32]);
            fired.push(tick);
            s.clear_queue();
        }
    }
    assert_eq!(fired, vec![3, 6, 9, 12]);
}

#[test]
fn equal_periods_fire_in_registration_order() {
    let mut s: Scheduler<Msg> = Scheduler::new();
    s.interval(32, Msg::UpdateState);
    s.interval(32, Msg::FlushNotes);
    for round in 0..3 {
        for _ in 0..31 {
            s.update(0);
            assert!(!s.has_events(), "round {}", round);
        }
        s.update(0);
        assert_eq!(s.events(), &vec![Msg::UpdateState, Msg::FlushNotes]);
        s.clear_queue();
    }
}

#[test]
fn order_follows_registration_not_payload() {
    let mut s: Scheduler<u8> = Scheduler::new();
    s.interval(2, 9);
    s.interval(1, 5);
    s.interval(2, 1);
    s.update(0);
    assert_eq!(s.events(), &vec![5u8]);
    s.clear_queue();
    s.update(0);
    assert_eq!(s.events(), &vec![9u8, 5, 1]);
}

#[test]
fn usual_ratios_over_one_beat() {
    let mut s: Scheduler<Msg> = Scheduler::new();
    s.interval(4, Msg::CheckInputs);
    s.interval(32, Msg::UpdateState);
    s.interval(32, Msg::FlushNotes);
    let mut checks = 0;
    let mut updates = 0;
    let mut flushes = 0;
    for tick in 1..=64 {
        s.update(0);
        let due: Vec<Msg> = s.events().clone();
        if tick % 32 == 0 {
            assert_eq!(due, vec![Msg::CheckInputs, Msg::UpdateState, Msg::FlushNotes]);
        } else if tick % 4 == 0 {
            assert_eq!(due, vec![Msg::CheckInputs]);
        } else {
            assert!(due.is_empty());
        }
        for m in due {
            match m {
                Msg::CheckInputs => checks += 1,
                Msg::UpdateState => updates += 1,
                Msg::FlushNotes => flushes += 1,
                Msg::Quit => panic!("no quit was registered"),
            }
        }
        s.clear_queue();
    }
    assert_eq!((checks, updates, flushes), (16, 2, 2));
}

#[test]
fn queue_grows_until_cleared() {
    let mut s: Scheduler<u8> = Scheduler::new();
    s.interval(1, 3);
    s.update(0);
    s.update(0);
    assert!(s.has_events());
    assert_eq!(s.events(), &vec![3u8, 3]);
    s.clear_queue();
    assert!(!s.has_events());
    assert_eq!(s.jobs().len(), 1);
}

#[test]
fn set_rate_divides_a_minute() {
    let mut s: Scheduler<Msg> = Scheduler::new();
    assert_eq!(s.set_rate(120, 64), Ok(()));
    assert_eq!(s.tick_duration(), 7812);
    assert_eq!(s.set_rate(60, 1), Ok(()));
    assert_eq!(s.tick_duration(), 1_000_000);
    assert_eq!(s.set_rate(1, 1), Ok(()));
    assert_eq!(s.tick_duration(), 60_000_000);
    assert_eq!(s.set_rate(7, 1), Ok(()));
    assert_eq!(s.tick_duration(), 8_571_428);
    assert_eq!(s.set_rate(46341, 46340), Ok(()));
    assert_eq!(s.tick_duration(), 0);
    assert_eq!(s.set_rate(i32::MAX, 1), Ok(()));
    assert_eq!(s.tick_duration(), 0);
    assert_eq!(s.set_rate(60_000_000, 1), Ok(()));
    assert_eq!(s.tick_duration(), 1);
}

#[test]
fn set_rate_refuses_what_gives_no_duration() {
    for (bpm, ticks) in [
        (0, 64),
        (120, 0),
        (0, 0),
        (-120, 64),
        (120, -64),
        (-120, -64),
        (i32::MIN, 1),
        (65536, 65536),
        (46341, 46341),
        (i32::MAX, 2),
        (i32::MAX, i32::MAX),
    ] {
        let mut s: Scheduler<Msg> = Scheduler::new();
        assert_eq!(s.set_rate(120, 64), Ok(()));
        assert_eq!(s.set_rate(bpm, ticks), Err(Fault::Configuration), "{} {}", bpm, ticks);
        assert_eq!(s.tick_duration(), 0);
    }
}

#[test]
fn set_rate_keeps_jobs_and_queue() {
    let mut s: Scheduler<u8> = Scheduler::new();
    s.interval(1, 4);
    s.update(0);
    assert_eq!(s.set_rate(120, 64), Ok(()));
    assert_eq!(s.events(), &vec![4u8]);
    assert_eq!(s.jobs().len(), 1);
    assert_eq!(s.set_rate(0, 0), Err(Fault::Configuration));
    assert_eq!(s.events(), &vec![4u8]);
    assert_eq!(s.jobs().len(), 1);
}

#[test]
fn pause_fills_the_rest_of_the_tick() {
    let mut s: Scheduler<Msg> = Scheduler::new();
    assert_eq!(s.set_rate(120, 64), Ok(()));
    s.wake(1_000);
    assert_eq!(s.update(1_000), 7812);
    assert_eq!(s.update(1_100), 7712);
    assert_eq!(s.update(8_811), 1);
    assert_eq!(s.update(8_812), 0);
}

#[test]
fn overrun_tick_gets_no_pause() {
    let mut s: Scheduler<Msg> = Scheduler::new();
    assert_eq!(s.set_rate(120, 64), Ok(()));
    s.wake(0);
    assert_eq!(s.update(7_812), 0);
    assert_eq!(s.update(100_000), 0);
    assert_eq!(s.update(u64::MAX), 0);
    s.wake(100_000);
    assert_eq!(s.update(100_010), 7802);
}

#[test]
fn clock_that_runs_backwards_counts_as_no_time() {
    let mut s: Scheduler<Msg> = Scheduler::new();
    assert_eq!(s.set_rate(120, 64), Ok(()));
    s.wake(5_000);
    assert_eq!(s.update(4_000), 7812);
}

#[test]
fn zero_duration_never_pauses() {
    let mut s: Scheduler<Msg> = Scheduler::new();
    assert_eq!(s.update(0), 0);
    assert_eq!(s.update(10), 0);
}

#[test]
fn late_tick_is_not_made_up() {
    let mut s: Scheduler<u8> = Scheduler::new();
    assert_eq!(s.set_rate(60, 1), Ok(()));
    s.interval(1, 1);
    s.wake(0);
    assert_eq!(s.update(5_000_000), 0);
    assert_eq!(s.events(), &vec![1u8]);
    s.clear_queue();
    s.wake(5_000_000);
    assert_eq!(s.update(5_000_000), 1_000_000);
    assert_eq!(s.events(), &vec![1u8]);
}
