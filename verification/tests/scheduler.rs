use rust_libretro::av_info::ConfigError;
use rust_libretro::game::{core_run, GState};
use rust_libretro::input::InputState;
use rust_libretro::negotiator::RateNegotiator;
use rust_libretro::rate_table::CoreLogicRate;
use rust_libretro::scheduler::{FramePhase, FrameStats, Scheduler};

fn input(held: &[usize]) -> InputState {
    let mut answers = [0i16; 16];
    for id in held {
        answers[*id] = 1;
    }
    InputState::poll(&answers)
}

fn whole_frame(scheduler: &mut Scheduler, held: &[usize], multiplier: u32) {
    assert_eq!(scheduler.phase(), FramePhase::Idle);
    scheduler.begin_frame(input(held), Some(multiplier), None).unwrap();
    assert_eq!(scheduler.phase(), FramePhase::Ticking);
    scheduler.run_ticks();
    assert_eq!(scheduler.phase(), FramePhase::Presenting);
    scheduler.end_frame();
    assert_eq!(scheduler.phase(), FramePhase::Idle);
}

#[test]
fn scheduler_starts_between_frames() {
    let scheduler = Scheduler::new(GState::new());
    assert_eq!(scheduler.phase(), FramePhase::Idle);
    assert_eq!(scheduler.stats(), FrameStats { snapshots: 0, ticks: 0, frames: 0 });
    assert_eq!(scheduler.state().frame(), 0);
}

#[test]
fn each_frame_counts_once_and_ticks_by_the_multiplier() {
    for (frames, multiplier) in [(1u64, 1u32), (7, 6), (5, 30), (12, 12), (3, 2)] {
        let mut scheduler = Scheduler::new(GState::new());
        for _ in 0..frames {
            whole_frame(&mut scheduler, &[7], multiplier);
        }
        assert_eq!(
            scheduler.stats(),
            FrameStats { snapshots: frames, ticks: frames * multiplier as u64, frames }
        );
        assert_eq!(scheduler.state().frame() as u64, frames * multiplier as u64);
        assert_eq!(scheduler.state().x() as u64, 48 * frames * multiplier as u64);
    }
}

#[test]
fn counts_add_up_over_changing_multipliers() {
    let mut scheduler = Scheduler::new(GState::new());
    whole_frame(&mut scheduler, &[], 6);
    whole_frame(&mut scheduler, &[], 30);
    whole_frame(&mut scheduler, &[], 30);
    assert_eq!(scheduler.stats(), FrameStats { snapshots: 3, ticks: 66, frames: 3 });
}

#[test]
fn snapshot_is_taken_before_the_ticks() {
    let mut scheduler = Scheduler::new(GState::new());
    let first = scheduler.begin_frame(input(&[7, 5]), Some(12), None).unwrap();
    assert_eq!((first.x(), first.y()), (0, 0));
    assert_eq!(scheduler.state().frame(), 0);
    assert_eq!(scheduler.stats(), FrameStats { snapshots: 1, ticks: 0, frames: 0 });
    scheduler.run_ticks();
    assert_eq!(scheduler.stats(), FrameStats { snapshots: 1, ticks: 12, frames: 0 });
    assert_eq!((scheduler.state().x(), scheduler.state().y()), (576, 576));
    scheduler.end_frame();
    assert_eq!(scheduler.stats(), FrameStats { snapshots: 1, ticks: 12, frames: 1 });
    let second = scheduler.begin_frame(input(&[]), Some(12), None).unwrap();
    assert_eq!((second.x(), second.y()), (576, 576));
    assert_eq!(second.object(0), scheduler.state().object(0).unwrap());
}

#[test]
fn ticks_of_a_frame_share_its_input() {
    let mut scheduler = Scheduler::new(GState::new());
    let mut state = GState::new();
    let held = input(&[7, 8]);
    scheduler.begin_frame(held, Some(5), None).unwrap();
    scheduler.run_ticks();
    scheduler.end_frame();
    for _ in 0..5 {
        core_run(&mut state, &held);
    }
    assert_eq!(scheduler.state().x(), state.x());
    assert_eq!(scheduler.state().gobj_idx(), 1);
    for slot in 0..256 {
        assert_eq!(scheduler.state().object(slot), state.object(slot));
    }
}

#[test]
fn no_multiplier_is_fatal_and_changes_nothing() {
    let mut scheduler = Scheduler::new(GState::new());
    let result = scheduler.begin_frame(input(&[7]), None, None);
    assert_eq!(result.err(), Some(ConfigError::NoMultiplier));
    assert_eq!(scheduler.phase(), FramePhase::Idle);
    assert_eq!(scheduler.stats(), FrameStats { snapshots: 0, ticks: 0, frames: 0 });
    let result = scheduler.begin_frame(input(&[7]), Some(0), Some(3));
    assert_eq!(result.err(), Some(ConfigError::NoMultiplier));
    let result = scheduler.begin_frame(input(&[7]), None, Some(0));
    assert_eq!(result.err(), Some(ConfigError::NoMultiplier));
    assert_eq!(scheduler.phase(), FramePhase::Idle);
    assert_eq!(scheduler.state().frame(), 0);
}

#[test]
fn cached_multiplier_stands_in_on_a_failed_poll() {
    let mut negotiator = RateNegotiator::new(CoreLogicRate::LogicRate720);
    let mut scheduler = Scheduler::new(GState::new());

    let outcome = negotiator.get_multiplier(true, "24");
    scheduler.begin_frame(input(&[]), outcome.multiplier, negotiator.cached_multiplier()).unwrap();
    scheduler.run_ticks();
    scheduler.end_frame();
    assert_eq!(scheduler.stats().ticks, 30);

    let outcome = negotiator.get_multiplier(true, "1000");
    assert_eq!(outcome.multiplier, None);
    scheduler.begin_frame(input(&[]), outcome.multiplier, negotiator.cached_multiplier()).unwrap();
    scheduler.run_ticks();
    scheduler.end_frame();
    assert_eq!(scheduler.stats(), FrameStats { snapshots: 2, ticks: 60, frames: 2 });
}

#[test]
fn first_time_without_multiplier_is_fatal() {
    let mut negotiator = RateNegotiator::new(CoreLogicRate::LogicRate720);
    let mut scheduler = Scheduler::new(GState::new());
    let outcome = negotiator.get_multiplier(false, "1000");
    let result =
        scheduler.begin_frame(input(&[]), outcome.multiplier, negotiator.cached_multiplier());
    assert_eq!(result.err(), Some(ConfigError::NoMultiplier));
}
