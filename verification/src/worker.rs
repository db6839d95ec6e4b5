//! The render worker and the place where the scheduler leaves snapshots for
//! it.
//!
//! The worker runs on a thread of its own, which the caller starts, wakes
//! and joins. Whenever it wakes it asks `on_wake` what to do, and where the
//! answer is to repaint it calls `repaint` while it holds the lock of the
//! frame buffer.

use vstd::prelude::*;
use crate::frame_buffer::{FrameBuffer, FrameModel};
use crate::game::{Snapshot, SnapshotModel};
use crate::render::{is_core_screen, render_video, rendered, Assets, RenderError};

verus! {

/// The place for snapshots as the contracts see it.
pub struct SlotModel {
    /// The snapshot published last, if any was.
    pub latest: Option<SnapshotModel>,
    /// The number of snapshots published, which is the sequence number of
    /// the latest. It stays at the largest number that it can hold once it
    /// has reached it.
    pub sequence: u64,
}

/// The place after a snapshot has been published: the snapshot has taken the
/// place of the one before it, and has the next sequence number.
pub open spec fn published(slot: SlotModel, snapshot: SnapshotModel) -> SlotModel {
    SlotModel { latest: Some(snapshot), sequence: slot.sequence.saturating_add(1) }
}

/// The place after each of the snapshots has been published, in their order.
pub open spec fn published_all(slot: SlotModel, snapshots: Seq<SnapshotModel>) -> SlotModel
    decreases snapshots.len(),
{
    if snapshots.len() == 0 {
        slot
    } else {
        published(published_all(slot, snapshots.drop_last()), snapshots.last())
    }
}

/// Whatever was published, and in whatever state the place was before: the
/// place holds the snapshot that was published last and no other, and its
/// sequence number is that of the last, which none published before
/// exceeds.
pub proof fn lemma_slot_holds_latest(slot: SlotModel, snapshots: Seq<SnapshotModel>)
    requires
        snapshots.len() > 0,
    ensures
        published_all(slot, snapshots).latest == Some(snapshots.last()),
        forall|earlier: int|
            0 <= earlier <= snapshots.len() ==> (#[trigger] published_all(
                slot,
                snapshots.take(earlier),
            )).sequence <= published_all(slot, snapshots).sequence,
        slot.sequence + snapshots.len() <= u64::MAX ==> published_all(slot, snapshots).sequence
            == slot.sequence + snapshots.len(),
{
    assert forall|earlier: int| 0 <= earlier <= snapshots.len() implies (#[trigger] published_all(
        slot,
        snapshots.take(earlier),
    )).sequence <= published_all(slot, snapshots).sequence by {
        lemma_sequence_grows(slot, snapshots, earlier);
    }
    lemma_sequence_counts(slot, snapshots);
}

proof fn lemma_sequence_grows(slot: SlotModel, snapshots: Seq<SnapshotModel>, earlier: int)
    requires
        0 <= earlier <= snapshots.len(),
    ensures
        published_all(slot, snapshots.take(earlier)).sequence <= published_all(
            slot,
            snapshots,
        ).sequence,
    decreases snapshots.len(),
{
    if earlier == snapshots.len() {
        assert(snapshots.take(earlier) =~= snapshots);
    } else {
        assert(snapshots.drop_last().take(earlier) =~= snapshots.take(earlier));
        lemma_sequence_grows(slot, snapshots.drop_last(), earlier);
    }
}

proof fn lemma_sequence_counts(slot: SlotModel, snapshots: Seq<SnapshotModel>)
    ensures
        slot.sequence + snapshots.len() <= u64::MAX ==> published_all(slot, snapshots).sequence
            == slot.sequence + snapshots.len(),
    decreases snapshots.len(),
{
    if snapshots.len() > 0 {
        lemma_sequence_counts(slot, snapshots.drop_last());
    }
}

/// The place where the scheduler leaves the snapshot of each displayed frame
/// for the render worker. It holds one snapshot: a newer one takes the place
/// of the older one.
pub struct SnapshotSlot {
    latest: Option<Snapshot>,
    sequence: u64,
}

impl View for SnapshotSlot {
    type V = SlotModel;

    closed spec fn view(&self) -> SlotModel {
        SlotModel {
            latest: match self.latest {
                Some(snapshot) => Some(snapshot@),
                None => None,
            },
            sequence: self.sequence,
        }
    }
}

impl SnapshotSlot {
    /// A place in which no snapshot has been left yet.
    pub fn new() -> (slot: SnapshotSlot)
        ensures
            slot@ == (SlotModel { latest: None, sequence: 0 }),
    {
        SnapshotSlot { latest: None, sequence: 0 }
    }

    /// Leaves a snapshot, which takes the place of the one before it, and
    /// hands back its sequence number.
    pub fn publish(&mut self, snapshot: Snapshot) -> (sequence: u64)
        ensures
            final(self)@ == published(old(self)@, snapshot@),
            sequence == final(self)@.sequence,
    {
        self.sequence = self.sequence.saturating_add(1);
        self.latest = Some(snapshot);
        self.sequence
    }

    /// The snapshot that was published last, if any was.
    pub fn latest(&self) -> (latest: Option<&Snapshot>)
        ensures
            match latest {
                Some(snapshot) => self@.latest == Some(snapshot@),
                None => self@.latest is None,
            },
    {
        self.latest.as_ref()
    }

    /// The sequence number of the snapshot that was published last.
    pub fn sequence(&self) -> (sequence: u64)
        ensures
            sequence == self@.sequence,
    {
        self.sequence
    }
}

/// What the render worker does when it wakes.
#[derive(Clone, Copy, Debug, PartialEq, Eq)]
pub enum WorkerAction {
    /// Leave the loop and end the thread.
    Exit,
    /// Take the lock of the frame buffer, repaint, and release the lock.
    Repaint,
}

/// The render worker as the contracts see it.
pub struct WorkerModel {
    /// The sequence number of the snapshot that the worker painted last.
    pub painted: u64,
    /// Whether the worker has left its loop.
    pub exited: bool,
}

/// The render worker.
pub struct RenderWorker {
    painted: u64,
    exited: bool,
}

impl View for RenderWorker {
    type V = WorkerModel;

    closed spec fn view(&self) -> WorkerModel {
        WorkerModel { painted: self.painted, exited: self.exited }
    }
}

impl RenderWorker {
    /// A worker that has painted nothing yet.
    pub fn new() -> (worker: RenderWorker)
        ensures
            worker@ == (WorkerModel { painted: 0, exited: false }),
    {
        RenderWorker { painted: 0, exited: false }
    }

    /// The sequence number of the snapshot that the worker painted last.
    pub fn painted(&self) -> (painted: u64)
        ensures
            painted == self@.painted,
    {
        self.painted
    }

    /// Whether the worker has left its loop.
    pub fn exited(&self) -> (exited: bool)
        ensures
            exited == self@.exited,
    {
        self.exited
    }

    /// What the worker does now that it has woken: it leaves its loop where
    /// shutdown has been asked for, or where it has left the loop before,
    /// and repaints otherwise.
    pub fn on_wake(&mut self, shutdown: bool) -> (action: WorkerAction)
        ensures
            final(self)@ == (WorkerModel {
                exited: old(self)@.exited || shutdown,
                ..old(self)@
            }),
            action == if old(self)@.exited || shutdown {
                WorkerAction::Exit
            } else {
                WorkerAction::Repaint
            },
    {
        if shutdown {
            self.exited = true;
        }
        if self.exited {
            WorkerAction::Exit
        } else {
            WorkerAction::Repaint
        }
    }

    /// Paints the frame buffer from the snapshot that was published last,
    /// and from no other. Where none was published yet, or where the frame
    /// buffer is not the screen of the core, the frame buffer stays as it
    /// is.
    pub fn repaint(
        &mut self,
        slot: &SnapshotSlot,
        frame: &mut FrameBuffer,
        assets: &Assets,
    ) -> (result: Result<(), RenderError>)
        ensures
            final(self)@.exited == old(self)@.exited,
            match slot@.latest {
                Some(snapshot) => if is_core_screen(old(frame)@) {
                    &&& result is Ok
                    &&& final(self)@.painted == slot@.sequence
                    &&& final(frame)@ == (FrameModel {
                        data: rendered(snapshot, assets@.image, assets@.sprite),
                        ..old(frame)@
                    })
                } else {
                    &&& result == Err::<(), RenderError>(RenderError::FrameMismatch)
                    &&& final(self)@.painted == old(self)@.painted
                    &&& final(frame)@ == old(frame)@
                },
                None => {
                    &&& result is Ok
                    &&& final(self)@.painted == old(self)@.painted
                    &&& final(frame)@ == old(frame)@
                },
            },
    {
        match slot.latest() {
            Some(snapshot) => {
                match render_video(snapshot, frame, assets) {
                    Ok(_) => {
                        self.painted = slot.sequence();
                        Ok(())
                    },
                    Err(error) => Err(error),
                }
            },
            None => Ok(()),
        }
    }
}

} // verus!
