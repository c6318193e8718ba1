use ping_thing_client::cells::{GlobalBlockhash, GlobalPriorityFees, GlobalSlotSent};
use ping_thing_client::cycle::{
    ConfirmationEvent, CycleAction, CyclePhase, CycleTiming, Report, Unreported,
};
use ping_thing_client::engine::{
    Cells, Engine, EngineAction, EngineConfig, EngineEvent, EngineStage,
};
use ping_thing_client::gate::{GateLimits, Snapshot};
use ping_thing_client::limiter::RateLimiter;

fn config(loop_sleep_ms: u64) -> EngineConfig {
    EngineConfig {
        limits: GateLimits { max_block_age: 30_000, max_slot_age: 400, fatal_age: 10_000 },
        timing: CycleTiming::standard(),
        use_priority_fee: true,
        loop_sleep_ms,
    }
}

fn cells_at(at: i64, slot: u64, fee: u64) -> Cells {
    let mut block = GlobalBlockhash::new();
    block.write([8u8; 32], 77, at);
    let mut slot_cell = GlobalSlotSent::new();
    slot_cell.write(slot, at);
    let mut fees = GlobalPriorityFees::new();
    fees.write(fee, at);
    Cells { block, slot: slot_cell, fees }
}

fn empty_cells() -> Cells {
    Cells { block: GlobalBlockhash::new(), slot: GlobalSlotSent::new(), fees: GlobalPriorityFees::new() }
}

fn confirmation(id: &str, slot_landed: u64, success: bool) -> EngineEvent {
    EngineEvent::Confirmation(ConfirmationEvent { probe_id: id.to_string(), slot_landed, success })
}

fn launch(engine: &mut Engine, cells: &Cells, id: &str, now: i64) {
    assert!(matches!(engine.step(cells, EngineEvent::Wake, now), EngineAction::Build { .. }));
    assert_eq!(
        engine.step(cells, EngineEvent::Built { id: id.to_string() }, now),
        EngineAction::Cycle(CycleAction::Dispatch)
    );
    assert_eq!(engine.step(cells, EngineEvent::Completed, now), EngineAction::Cycle(CycleAction::Track));
    assert_eq!(
        engine.step(cells, EngineEvent::Completed, now),
        EngineAction::Cycle(CycleAction::Wait { ms: 2_000 })
    );
}

#[test]
fn a_new_engine_rests() {
    let engine = Engine::new(config(0), 5, 100);
    assert_eq!(engine.stage(), EngineStage::Rest);
    assert_eq!(engine.limiter(), RateLimiter { cap: 5, window_start: 100, count: 0 });
    assert_eq!(engine.cycle().phase, CyclePhase::AwaitFreshState);
    assert_eq!(engine.pending().len(), 0);
}

#[test]
fn probe_confirmed_after_1400_ms_three_slots_later() {
    let cells = cells_at(0, 42, 7);
    let mut engine = Engine::new(config(0), 10, 0);
    assert_eq!(
        engine.step(&cells, EngineEvent::Wake, 0),
        EngineAction::Build {
            snapshot: Snapshot { blockhash: [8u8; 32], last_valid_block_height: 77, slot: 42 },
            fee: 7,
        }
    );
    assert_eq!(engine.stage(), EngineStage::Build);
    assert_eq!(
        engine.step(&cells, EngineEvent::Built { id: "sig".to_string() }, 0),
        EngineAction::Cycle(CycleAction::Dispatch)
    );
    assert_eq!(engine.stage(), EngineStage::Cycle);
    assert_eq!(engine.limiter().count, 1);
    assert_eq!(engine.step(&cells, EngineEvent::Completed, 0), EngineAction::Cycle(CycleAction::Track));
    assert_eq!(engine.pending().get(&"sig".to_string()), Some((42, 0)));
    assert_eq!(
        engine.step(&cells, EngineEvent::Completed, 0),
        EngineAction::Cycle(CycleAction::Wait { ms: 2_000 })
    );
    assert_eq!(
        engine.step(&cells, confirmation("sig", 45, true), 1_400),
        EngineAction::Cycle(CycleAction::Report(Report {
            time_latency_ms: 1_400,
            slot_latency: 3,
            slot_sent: 42,
            slot_landed: 45,
            fee: 7,
            probe_id: "sig".to_string(),
        }))
    );
    assert_eq!(engine.cycle().phase, CyclePhase::Confirmed);
    assert_eq!(engine.step(&cells, EngineEvent::Completed, 1_410), EngineAction::Cycle(CycleAction::Forget));
    assert_eq!(engine.cycle().phase, CyclePhase::Reported);
    assert_eq!(engine.pending().len(), 1);
    assert_eq!(engine.step(&cells, EngineEvent::Completed, 1_410), EngineAction::Cycle(CycleAction::Idle));
    assert_eq!(engine.cycle().phase, CyclePhase::Done);
    assert_eq!(engine.pending().len(), 0);
    assert_eq!(engine.stage(), EngineStage::Rest);
}

#[test]
fn probe_without_confirmation_times_out_after_20_s() {
    let cells = cells_at(0, 42, 0);
    let mut engine = Engine::new(config(0), 10, 0);
    launch(&mut engine, &cells, "lost", 0);
    assert!(engine.pending().contains(&"lost".to_string()));

    assert_eq!(engine.step(&cells, EngineEvent::Tick, 2_000), EngineAction::Cycle(CycleAction::Resend));
    assert_eq!(
        engine.step(&cells, EngineEvent::Completed, 2_000),
        EngineAction::Cycle(CycleAction::Wait { ms: 2_000 })
    );
    assert_eq!(engine.step(&cells, EngineEvent::Tick, 4_000), EngineAction::Cycle(CycleAction::Resend));
    assert_eq!(
        engine.step(&cells, EngineEvent::Completed, 4_000),
        EngineAction::Cycle(CycleAction::Wait { ms: 2_000 })
    );
    assert_eq!(engine.cycle().resends, 2);
    assert_eq!(engine.limiter().count, 1);
    let mut now = 4_000;
    loop {
        now += 2_000;
        match engine.step(&cells, EngineEvent::Tick, now) {
            EngineAction::Cycle(CycleAction::Resend) => {
                engine.step(&cells, EngineEvent::Completed, now);
            }
            EngineAction::Cycle(CycleAction::LogOnly(reason)) => {
                assert_eq!(reason, Unreported::TimedOut);
                break;
            }
            other => panic!("{:?}", other),
        }
    }
    assert_eq!(now, 20_000);
    assert_eq!(engine.cycle().phase, CyclePhase::TimedOut);
    assert_eq!(engine.limiter().count, 1);
    assert_eq!(engine.step(&cells, EngineEvent::Completed, now), EngineAction::Cycle(CycleAction::Forget));
    assert_eq!(engine.step(&cells, EngineEvent::Completed, now), EngineAction::Cycle(CycleAction::Idle));
    assert_eq!(engine.cycle().phase, CyclePhase::Done);
    assert_eq!(engine.pending().len(), 0);
    assert!(!engine.pending().contains(&"lost".to_string()));
    assert_eq!(engine.stage(), EngineStage::Rest);
}

#[test]
fn the_cycles_of_an_engine_follow_its_intervals() {
    let mut quick = config(0);
    quick.timing = CycleTiming { deadline_ms: 3_000, resend_every_ms: 1_000 };
    let cells = cells_at(0, 42, 0);
    let mut engine = Engine::new(quick, 10, 0);
    assert!(matches!(engine.step(&cells, EngineEvent::Wake, 0), EngineAction::Build { .. }));
    engine.step(&cells, EngineEvent::Built { id: "q".to_string() }, 0);
    engine.step(&cells, EngineEvent::Completed, 0);
    assert_eq!(
        engine.step(&cells, EngineEvent::Completed, 0),
        EngineAction::Cycle(CycleAction::Wait { ms: 1_000 })
    );
    assert_eq!(engine.step(&cells, EngineEvent::Tick, 1_000), EngineAction::Cycle(CycleAction::Resend));
    engine.step(&cells, EngineEvent::Completed, 1_000);
    assert_eq!(engine.step(&cells, EngineEvent::Tick, 2_000), EngineAction::Cycle(CycleAction::Resend));
    engine.step(&cells, EngineEvent::Completed, 2_000);
    assert_eq!(
        engine.step(&cells, EngineEvent::Tick, 3_000),
        EngineAction::Cycle(CycleAction::LogOnly(Unreported::TimedOut))
    );
}

#[test]
fn the_pause_between_cycles_is_slept_first() {
    let cells = cells_at(0, 1, 0);
    let mut engine = Engine::new(config(250), 10, 0);
    assert_eq!(engine.step(&cells, EngineEvent::Wake, 0), EngineAction::Sleep { ms: 250 });
    assert_eq!(engine.stage(), EngineStage::Throttle);
    assert!(matches!(engine.step(&cells, EngineEvent::Wake, 250), EngineAction::Build { .. }));
}

#[test]
fn stale_cells_are_polled_again_after_a_millisecond() {
    let cells = cells_at(0, 1, 0);
    let mut engine = Engine::new(config(0), 10, 0);
    assert_eq!(engine.step(&cells, EngineEvent::Wake, 400), EngineAction::Sleep { ms: 1 });
    assert_eq!(engine.stage(), EngineStage::Gate);
    assert_eq!(engine.step(&cells, EngineEvent::Wake, 401), EngineAction::Sleep { ms: 1 });
    let fresh = cells_at(402, 2, 0);
    assert_eq!(
        engine.step(&fresh, EngineEvent::Wake, 402),
        EngineAction::Build {
            snapshot: Snapshot { blockhash: [8u8; 32], last_valid_block_height: 77, slot: 2 },
            fee: 0,
        }
    );
}

#[test]
fn a_cell_never_written_skips_the_cycle_and_the_loop_goes_on() {
    let mut engine = Engine::new(config(0), 10, 0);
    assert_eq!(engine.step(&empty_cells(), EngineEvent::Wake, 0), EngineAction::Skipped);
    assert_eq!(engine.stage(), EngineStage::Rest);
    assert_eq!(engine.limiter().count, 0);
    let cells = cells_at(5, 9, 0);
    assert!(matches!(engine.step(&cells, EngineEvent::Wake, 5), EngineAction::Build { .. }));
}

#[test]
fn a_lost_cell_halts_the_engine_for_good() {
    let cells = cells_at(0, 1, 0);
    let mut engine = Engine::new(config(0), 10, 0);
    assert_eq!(engine.step(&cells, EngineEvent::Wake, 10_001), EngineAction::Halt);
    assert_eq!(engine.stage(), EngineStage::Halted);
    let fresh = cells_at(10_002, 2, 0);
    assert_eq!(engine.step(&fresh, EngineEvent::Wake, 10_002), EngineAction::Idle);
    assert_eq!(engine.step(&fresh, EngineEvent::Built { id: "x".to_string() }, 10_002), EngineAction::Idle);
    assert_eq!(engine.step(&fresh, EngineEvent::Tick, 10_002), EngineAction::Idle);
    assert_eq!(engine.stage(), EngineStage::Halted);
}

#[test]
fn the_fee_is_zero_where_fees_are_not_in_use() {
    let mut off = config(0);
    off.use_priority_fee = false;
    let cells = cells_at(0, 1, 9_000);
    let mut engine = Engine::new(off, 10, 0);
    match engine.step(&cells, EngineEvent::Wake, 0) {
        EngineAction::Build { fee, .. } => assert_eq!(fee, 0),
        other => panic!("{:?}", other),
    }
}

#[test]
fn the_cap_bounds_the_launches_of_a_window() {
    let mut engine = Engine::new(config(0), 2, 0);
    let mut now = 0i64;
    for i in 0..2 {
        let cells = cells_at(now, 1, 0);
        let id = format!("p{}", i);
        launch(&mut engine, &cells, &id, now);
        now += 100;
        engine.step(&cells, confirmation(&id, 1, true), now);
        engine.step(&cells, EngineEvent::Completed, now);
        engine.step(&cells, EngineEvent::Completed, now);
        assert_eq!(engine.stage(), EngineStage::Rest);
    }
    assert_eq!(engine.limiter().count, 2);
    let cells = cells_at(now, 1, 0);
    assert_eq!(engine.step(&cells, EngineEvent::Wake, now), EngineAction::Sleep { ms: 59_800 });
    assert_eq!(engine.stage(), EngineStage::Throttle);
    assert_eq!(engine.step(&cells, EngineEvent::Wake, 59_999), EngineAction::Sleep { ms: 1 });
    let later = cells_at(60_000, 1, 0);
    assert!(matches!(engine.step(&later, EngineEvent::Wake, 60_000), EngineAction::Build { .. }));
    assert_eq!(engine.limiter(), RateLimiter { cap: 2, window_start: 60_000, count: 0 });
}

#[test]
fn launches_of_a_long_run_stay_within_the_budget() {
    let cap = 3u64;
    let mut engine = Engine::new(config(0), cap, 0);
    let mut launches: Vec<i64> = Vec::new();
    let mut now = 0i64;
    let mut n = 0;
    while now < 300_000 {
        let cells = cells_at(now, 1, 0);
        match engine.step(&cells, EngineEvent::Wake, now) {
            EngineAction::Sleep { ms } => now += ms as i64,
            EngineAction::Build { .. } => {
                n += 1;
                let id = format!("p{}", n);
                assert_eq!(
                    engine.step(&cells, EngineEvent::Built { id: id.clone() }, now),
                    EngineAction::Cycle(CycleAction::Dispatch)
                );
                launches.push(now);
                engine.step(&cells, EngineEvent::Completed, now);
                engine.step(&cells, EngineEvent::Completed, now);
                now += 2_000;
                assert_eq!(engine.step(&cells, EngineEvent::Tick, now), EngineAction::Cycle(CycleAction::Resend));
                engine.step(&cells, EngineEvent::Completed, now);
                now += 500;
                engine.step(&cells, confirmation(&id, 2, true), now);
                engine.step(&cells, EngineEvent::Completed, now);
                engine.step(&cells, EngineEvent::Completed, now);
                assert_eq!(engine.pending().len(), 0);
            }
            other => panic!("{:?}", other),
        }
        assert!(engine.limiter().count <= cap);
    }
    assert!(launches.len() >= 12);
    for &at in launches.iter() {
        let in_span = launches.iter().filter(|&&t| at <= t && t < at + 60_000).count() as u64;
        assert!(in_span <= 2 * cap);
    }
}

#[test]
fn events_of_a_cycle_mean_nothing_between_cycles() {
    let cells = cells_at(0, 1, 0);
    let mut engine = Engine::new(config(0), 10, 0);
    assert_eq!(engine.step(&cells, EngineEvent::Tick, 0), EngineAction::Idle);
    assert_eq!(engine.step(&cells, EngineEvent::Completed, 0), EngineAction::Idle);
    assert_eq!(engine.step(&cells, EngineEvent::ChannelClosed, 0), EngineAction::Idle);
    assert_eq!(engine.step(&cells, confirmation("x", 1, true), 0), EngineAction::Idle);
    assert_eq!(engine.step(&cells, EngineEvent::Built { id: "x".to_string() }, 0), EngineAction::Idle);
    assert_eq!(engine.stage(), EngineStage::Rest);
    assert_eq!(engine.limiter().count, 0);
}

#[test]
fn a_late_confirmation_for_an_earlier_probe_is_dropped() {
    let cells = cells_at(0, 1, 0);
    let mut engine = Engine::new(config(0), 10, 0);
    launch(&mut engine, &cells, "first", 0);
    engine.step(&cells, EngineEvent::ChannelClosed, 10);
    engine.step(&cells, EngineEvent::Completed, 10);
    engine.step(&cells, EngineEvent::Completed, 10);
    launch(&mut engine, &cells, "second", 20);
    assert_eq!(
        engine.step(&cells, confirmation("first", 3, true), 30),
        EngineAction::Cycle(CycleAction::Wait { ms: 1_990 })
    );
    assert_eq!(engine.cycle().phase, CyclePhase::ResendWait);
    assert!(matches!(
        engine.step(&cells, confirmation("second", 3, true), 40),
        EngineAction::Cycle(CycleAction::Report(_))
    ));
}
