//! The order in which the core is taken down.
//!
//! The render worker may touch the frame buffer and the lock and signal that
//! go with it for as long as its thread runs. So the thread is told to end
//! and waited for before any of them is let go. `Teardown` hands the steps
//! out one at a time, and each only after the one before it has been
//! reported done.

use vstd::prelude::*;

verus! {

/// A step of taking the core down.
#[derive(Clone, Copy, Debug, PartialEq, Eq)]
pub enum TeardownStep {
    /// Set the flag that tells the render worker to end.
    SetShutdownFlag,
    /// Signal the render worker once, so that its wait returns.
    SignalWorker,
    /// Wait until the thread of the render worker has ended.
    JoinWorker,
    /// Let go of the memory of the frame buffer.
    ReleaseFrameBuffer,
    /// Destroy the lock of the frame buffer and the signal.
    DestroyPrimitives,
}

/// The number of steps.
pub const TEARDOWN_STEPS: u8 = 5;

/// The steps in their order.
pub open spec fn teardown_order() -> Seq<TeardownStep> {
    seq![
        TeardownStep::SetShutdownFlag,
        TeardownStep::SignalWorker,
        TeardownStep::JoinWorker,
        TeardownStep::ReleaseFrameBuffer,
        TeardownStep::DestroyPrimitives,
    ]
}

/// How far taking down has come.
pub struct TeardownModel {
    /// The number of steps handed out.
    pub issued: nat,
    /// The number of steps reported done.
    pub completed: nat,
}

/// Whether a state of taking down can be reached: the steps handed out are
/// the first of the order, and all but at most the last of them are done.
pub open spec fn orderly(model: TeardownModel) -> bool {
    model.completed <= model.issued <= model.completed + 1 && model.issued <= TEARDOWN_STEPS
}

/// Whether a step has been handed out.
pub open spec fn issued(model: TeardownModel, step: TeardownStep) -> bool {
    exists|i: int| 0 <= i < model.issued && i < teardown_order().len() && teardown_order()[i] == step
}

/// Whether a step has been reported done.
pub open spec fn completed(model: TeardownModel, step: TeardownStep) -> bool {
    exists|i: int|
        0 <= i < model.completed && i < teardown_order().len() && teardown_order()[i] == step
}

/// The step that is handed out next, where one is: the next of the order,
/// once every step handed out before has been reported done.
pub open spec fn next_step(model: TeardownModel) -> Option<TeardownStep> {
    if model.issued == model.completed && model.issued < TEARDOWN_STEPS {
        Some(teardown_order()[model.issued as int])
    } else {
        None
    }
}

/// Whether a report that a step is done is taken: the step is the one that
/// was handed out last, and it has not been reported done before.
pub open spec fn report_taken(model: TeardownModel, step: TeardownStep) -> bool {
    model.issued == model.completed + 1 && model.completed < TEARDOWN_STEPS
        && teardown_order()[model.completed as int] == step
}

/// In every state that can be reached, the memory of the frame buffer is let
/// go only after the thread of the render worker has been waited for, and
/// the lock and the signal are destroyed only after that; the thread is
/// waited for only after it has been told to end and woken.
pub proof fn lemma_join_before_release(model: TeardownModel)
    requires
        orderly(model),
    ensures
        issued(model, TeardownStep::ReleaseFrameBuffer) ==> completed(
            model,
            TeardownStep::JoinWorker,
        ),
        issued(model, TeardownStep::DestroyPrimitives) ==> completed(
            model,
            TeardownStep::ReleaseFrameBuffer,
        ),
        issued(model, TeardownStep::JoinWorker) ==> completed(model, TeardownStep::SetShutdownFlag)
            && completed(model, TeardownStep::SignalWorker),
{
    let order = teardown_order();
    if issued(model, TeardownStep::ReleaseFrameBuffer) {
        assert(order[2] == TeardownStep::JoinWorker);
    }
    if issued(model, TeardownStep::DestroyPrimitives) {
        assert(order[3] == TeardownStep::ReleaseFrameBuffer);
    }
    if issued(model, TeardownStep::JoinWorker) {
        assert(order[0] == TeardownStep::SetShutdownFlag);
        assert(order[1] == TeardownStep::SignalWorker);
    }
}

/// Handing out a step and taking a report lead from a state that can be
/// reached to one that can be reached.
pub proof fn lemma_teardown_stays_orderly(model: TeardownModel, step: TeardownStep)
    requires
        orderly(model),
    ensures
        next_step(model) is Some ==> orderly(
            TeardownModel { issued: model.issued + 1, ..model },
        ),
        report_taken(model, step) ==> orderly(
            TeardownModel { completed: model.completed + 1, ..model },
        ),
{
}

/// Takes the core down step by step.
pub struct Teardown {
    issued: u8,
    completed: u8,
}

impl View for Teardown {
    type V = TeardownModel;

    closed spec fn view(&self) -> TeardownModel {
        TeardownModel { issued: self.issued as nat, completed: self.completed as nat }
    }
}

fn step_at(place: u8) -> (step: TeardownStep)
    requires
        place < TEARDOWN_STEPS,
    ensures
        step == teardown_order()[place as int],
{
    if place == 0 {
        TeardownStep::SetShutdownFlag
    } else if place == 1 {
        TeardownStep::SignalWorker
    } else if place == 2 {
        TeardownStep::JoinWorker
    } else if place == 3 {
        TeardownStep::ReleaseFrameBuffer
    } else {
        TeardownStep::DestroyPrimitives
    }
}

fn place_of(step: TeardownStep) -> (place: u8)
    ensures
        place < TEARDOWN_STEPS,
        teardown_order()[place as int] == step,
        forall|other: int|
            0 <= other < TEARDOWN_STEPS && teardown_order()[other] == step ==> other == place,
{
    match step {
        TeardownStep::SetShutdownFlag => 0,
        TeardownStep::SignalWorker => 1,
        TeardownStep::JoinWorker => 2,
        TeardownStep::ReleaseFrameBuffer => 3,
        TeardownStep::DestroyPrimitives => 4,
    }
}

impl Teardown {
    #[verifier::type_invariant]
    closed spec fn well_formed(&self) -> bool {
        orderly(self@)
    }

    /// The beginning of taking the core down: no step is handed out yet.
    pub fn begin() -> (teardown: Teardown)
        ensures
            teardown@ == (TeardownModel { issued: 0, completed: 0 }),
    {
        Teardown { issued: 0, completed: 0 }
    }

    /// Hands out the next step, once every step handed out before has been
    /// reported done. Hands out nothing while a step is at work, and
    /// nothing once all steps are done.
    pub fn next_step(&mut self) -> (step: Option<TeardownStep>)
        ensures
            orderly(old(self)@),
            step == next_step(old(self)@),
            final(self)@ == if step is Some {
                TeardownModel { issued: old(self)@.issued + 1, ..old(self)@ }
            } else {
                old(self)@
            },
    {
        proof {
            use_type_invariant(&*self);
        }
        if self.issued == self.completed && self.issued < TEARDOWN_STEPS {
            let step = step_at(self.issued);
            *self = Teardown { issued: self.issued + 1, completed: self.completed };
            Some(step)
        } else {
            None
        }
    }

    /// Takes the report that a step is done. The report is taken where the
    /// step is the one that was handed out last and is still at work; any
    /// other report changes nothing.
    pub fn complete(&mut self, step: TeardownStep) -> (taken: bool)
        ensures
            orderly(old(self)@),
            taken == report_taken(old(self)@, step),
            final(self)@ == if taken {
                TeardownModel { completed: old(self)@.completed + 1, ..old(self)@ }
            } else {
                old(self)@
            },
    {
        proof {
            use_type_invariant(&*self);
        }
        if self.issued == self.completed + 1 && place_of(step) == self.completed {
            *self = Teardown { issued: self.issued, completed: self.completed + 1 };
            true
        } else {
            false
        }
    }

    /// Whether every step is done.
    pub fn finished(&self) -> (finished: bool)
        ensures
            finished == (self@.completed == TEARDOWN_STEPS),
    {
        self.completed == TEARDOWN_STEPS
    }
}

} // verus!
