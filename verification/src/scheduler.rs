//! The work of one displayed frame: a snapshot of the simulation for the
//! renderer, then as many logic ticks as the multiplier says, then the
//! hand-over of the frame buffer to the frontend.
//!
//! The scheduler does not talk to the frontend or to the render worker. Its
//! caller polls the input before it calls `begin_frame`, publishes the
//! snapshot that `begin_frame` hands back and signals the worker before it
//! calls `run_ticks`, and hands the frame buffer to the frontend before it
//! calls `end_frame`.

use vstd::prelude::*;
use crate::av_info::ConfigError;
use crate::game::{
    core_run,
    lemma_ticks_are_counted,
    snapshot_of,
    snapshot_video,
    ticked_times,
    GState,
    GameModel,
    Snapshot,
};
use crate::input::InputState;

verus! {

/// What has been done since the core started. Each count stays at the
/// largest number that it can hold once it has reached it.
#[derive(Clone, Copy, Debug, PartialEq, Eq)]
pub struct FrameStats {
    /// The snapshots taken.
    pub snapshots: u64,
    /// The logic ticks run.
    pub ticks: u64,
    /// The frames handed to the frontend.
    pub frames: u64,
}

/// Where the scheduler is in the work of a displayed frame.
#[derive(Clone, Copy, Debug, PartialEq, Eq)]
pub enum FramePhase {
    /// Between two displayed frames.
    Idle,
    /// The snapshot is taken; the ticks are to run.
    Ticking,
    /// The ticks have run; the frame is to be handed to the frontend.
    Presenting,
}

/// The scheduler as the contracts see it.
pub struct SchedulerModel {
    pub game: GameModel,
    pub phase: FramePhase,
    /// The ticks of the displayed frame at hand.
    pub multiplier: u32,
    /// The input of the displayed frame at hand.
    pub input: InputState,
    pub stats: FrameStats,
}

/// The multiplier by which a displayed frame runs: the one that the
/// negotiator handed back, or where it handed back none, the one that is
/// still cached. A multiplier of zero is none.
pub open spec fn frame_multiplier(negotiated: Option<u32>, cached: Option<u32>) -> Option<u32> {
    let chosen = if negotiated is Some {
        negotiated
    } else {
        cached
    };
    if chosen is Some && chosen->0 > 0 {
        chosen
    } else {
        None
    }
}

/// The scheduler after a displayed frame has begun with the given
/// multiplier: the snapshot is taken and no tick has run yet.
pub open spec fn begun(model: SchedulerModel, input: InputState, multiplier: u32)
    -> SchedulerModel {
    SchedulerModel {
        game: model.game,
        phase: FramePhase::Ticking,
        multiplier,
        input,
        stats: FrameStats {
            snapshots: model.stats.snapshots.saturating_add(1),
            ..model.stats
        },
    }
}

/// The scheduler after the ticks of the displayed frame have run.
pub open spec fn run(model: SchedulerModel) -> SchedulerModel {
    SchedulerModel {
        game: ticked_times(model.game, model.input, model.multiplier as nat),
        phase: FramePhase::Presenting,
        stats: FrameStats {
            ticks: model.stats.ticks.saturating_add(model.multiplier as u64),
            ..model.stats
        },
        ..model
    }
}

/// The scheduler after the frame has been handed to the frontend.
pub open spec fn ended(model: SchedulerModel) -> SchedulerModel {
    SchedulerModel {
        phase: FramePhase::Idle,
        stats: FrameStats { frames: model.stats.frames.saturating_add(1), ..model.stats },
        ..model
    }
}

/// The scheduler after a whole displayed frame.
pub open spec fn after_frame(model: SchedulerModel, input: InputState, multiplier: u32)
    -> SchedulerModel {
    ended(run(begun(model, input, multiplier)))
}

/// The scheduler after one displayed frame for each of the inputs, all with
/// the same multiplier.
pub open spec fn after_frames(model: SchedulerModel, inputs: Seq<InputState>, multiplier: u32)
    -> SchedulerModel
    decreases inputs.len(),
{
    if inputs.len() == 0 {
        model
    } else {
        after_frame(after_frames(model, inputs.drop_last(), multiplier), inputs.last(), multiplier)
    }
}

/// After any number of displayed frames in a row with the same multiplier,
/// the scheduler is between two frames again, and as long as no count has
/// reached the largest number that it can hold, there is exactly one
/// snapshot more for each frame, one frame more handed to the frontend for
/// each frame, and the multiplier more ticks for each frame, which the
/// simulation has counted too.
pub proof fn lemma_counts_per_frame(
    model: SchedulerModel,
    inputs: Seq<InputState>,
    multiplier: u32,
)
    requires
        model.stats.snapshots + inputs.len() <= u64::MAX,
        model.stats.frames + inputs.len() <= u64::MAX,
        model.stats.ticks + inputs.len() * multiplier <= u64::MAX,
        model.game.frame + inputs.len() * multiplier <= usize::MAX,
    ensures
        ({
            let after = after_frames(model, inputs, multiplier);
            &&& inputs.len() > 0 ==> after.phase == FramePhase::Idle
            &&& after.stats.snapshots == model.stats.snapshots + inputs.len()
            &&& after.stats.frames == model.stats.frames + inputs.len()
            &&& after.stats.ticks == model.stats.ticks + inputs.len() * multiplier
            &&& after.game.frame == model.game.frame + inputs.len() * multiplier
        }),
    decreases inputs.len(),
{
    if inputs.len() > 0 {
        let earlier = inputs.drop_last();
        assert(earlier.len() * multiplier + multiplier == inputs.len() * multiplier)
            by (nonlinear_arith)
            requires
                earlier.len() + 1 == inputs.len(),
        ;
        assert(earlier.len() * multiplier >= 0) by (nonlinear_arith);
        lemma_counts_per_frame(model, earlier, multiplier);
        lemma_ticks_are_counted(
            after_frames(model, earlier, multiplier).game,
            inputs.last(),
            multiplier as nat,
        );
    }
}

/// The multiplier by which a displayed frame runs, or the error that there
/// is none.
pub fn resolve_multiplier(negotiated: Option<u32>, cached: Option<u32>) -> (result: Result<
    u32,
    ConfigError,
>)
    ensures
        match frame_multiplier(negotiated, cached) {
            Some(multiplier) => result == Ok::<u32, ConfigError>(multiplier),
            None => result == Err::<u32, ConfigError>(ConfigError::NoMultiplier),
        },
{
    let chosen = match negotiated {
        Some(multiplier) => Some(multiplier),
        None => cached,
    };
    match chosen {
        Some(multiplier) => if multiplier > 0 {
            Ok(multiplier)
        } else {
            Err(ConfigError::NoMultiplier)
        },
        None => Err(ConfigError::NoMultiplier),
    }
}

/// Runs the simulation frame by displayed frame.
pub struct Scheduler {
    state: GState,
    phase: FramePhase,
    multiplier: u32,
    input: InputState,
    stats: FrameStats,
}

impl View for Scheduler {
    type V = SchedulerModel;

    closed spec fn view(&self) -> SchedulerModel {
        SchedulerModel {
            game: self.state@,
            phase: self.phase,
            multiplier: self.multiplier,
            input: self.input,
            stats: self.stats,
        }
    }
}

impl Scheduler {
    /// A scheduler between two frames, which has done nothing yet.
    pub fn new(state: GState) -> (scheduler: Scheduler)
        ensures
            scheduler@.game == state@,
            scheduler@.phase == FramePhase::Idle,
            scheduler@.stats == (FrameStats { snapshots: 0, ticks: 0, frames: 0 }),
    {
        Scheduler {
            state,
            phase: FramePhase::Idle,
            multiplier: 0,
            input: InputState::released(),
            stats: FrameStats { snapshots: 0, ticks: 0, frames: 0 },
        }
    }

    /// The simulation.
    pub fn state(&self) -> (state: &GState)
        ensures
            state@ == self@.game,
    {
        &self.state
    }

    /// Where the scheduler is in the work of a displayed frame.
    pub fn phase(&self) -> (phase: FramePhase)
        ensures
            phase == self@.phase,
    {
        self.phase
    }

    /// What has been done since the core started.
    pub fn stats(&self) -> (stats: FrameStats)
        ensures
            stats == self@.stats,
    {
        self.stats
    }

    /// Begins a displayed frame. `input` is the input that was polled for
    /// the frame, `negotiated` the multiplier that the negotiator handed
    /// back for it, and `cached` the multiplier that the negotiator still
    /// holds. Where there is a multiplier, the snapshot for the renderer is
    /// taken, before any tick of the frame. Where there is none, the
    /// scheduler stays as it is, and the core cannot go on.
    pub fn begin_frame(
        &mut self,
        input: InputState,
        negotiated: Option<u32>,
        cached: Option<u32>,
    ) -> (result: Result<Snapshot, ConfigError>)
        requires
            old(self)@.phase == FramePhase::Idle,
        ensures
            match frame_multiplier(negotiated, cached) {
                Some(multiplier) => result matches Ok(snapshot) && snapshot@ == snapshot_of(
                    old(self)@.game,
                ) && final(self)@ == begun(old(self)@, input, multiplier),
                None => result == Err::<Snapshot, ConfigError>(ConfigError::NoMultiplier)
                    && final(self)@ == old(self)@,
            },
    {
        match resolve_multiplier(negotiated, cached) {
            Ok(multiplier) => {
                let snapshot = snapshot_video(&self.state);
                self.phase = FramePhase::Ticking;
                self.multiplier = multiplier;
                self.input = input;
                self.stats.snapshots = self.stats.snapshots.saturating_add(1);
                Ok(snapshot)
            },
            Err(error) => Err(error),
        }
    }

    /// Runs the logic ticks of the displayed frame at hand, each with the
    /// input of the frame.
    pub fn run_ticks(&mut self)
        requires
            old(self)@.phase == FramePhase::Ticking,
        ensures
            final(self)@ == run(old(self)@),
    {
        let ghost start = self@.game;
        let mut i: u32 = 0;
        while i < self.multiplier
            invariant
                i <= self.multiplier,
                self.multiplier == old(self).multiplier,
                self.input == old(self).input,
                self.phase == old(self).phase,
                self.stats == old(self).stats,
                self.state@ == ticked_times(start, self.input, i as nat),
            decreases self.multiplier - i,
        {
            core_run(&mut self.state, &self.input);
            i += 1;
        }
        self.phase = FramePhase::Presenting;
        self.stats.ticks = self.stats.ticks.saturating_add(self.multiplier as u64);
    }

    /// Ends the displayed frame at hand, after the frame buffer has been
    /// handed to the frontend.
    pub fn end_frame(&mut self)
        requires
            old(self)@.phase == FramePhase::Presenting,
        ensures
            final(self)@ == ended(old(self)@),
    {
        self.phase = FramePhase::Idle;
        self.stats.frames = self.stats.frames.saturating_add(1);
    }
}

} // verus!
