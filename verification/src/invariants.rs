use crate::checkpoint::{CheckpointView, InputView, QueueView};
use crate::signatory::{SignatorySetView, ValidatorView};
use vstd::prelude::*;

verus! {

impl CheckpointView {
    /// Whether a checkpoint may have become `self` from `before`: its status
    /// has not gone back, and a complete checkpoint is as it was.
    pub open spec fn follows(self, before: CheckpointView) -> bool {
        &&& self.status.rank() >= before.status.rank()
        &&& before.status is Complete ==> self == before
    }
}

impl QueueView {
    /// The lifecycle rule of the window: the newest checkpoint is being
    /// built, and every checkpoint but the two newest is complete.
    pub open spec fn lifecycle_ok(self) -> bool {
        &&& self.window.len() >= 1 ==> self.newest().status is Building
        &&& forall|i: int| 0 <= i < self.window.len() - 2 ==> self.window[i].status is Complete
    }

    /// The number of checkpoints that a push evicts.
    pub open spec fn evicted_by_push(self) -> int {
        if self.window.len() + 1 > self.capacity {
            1
        } else {
            0
        }
    }

    /// Whether every checkpoint is complete but the newest and the one that
    /// a push evicts.
    pub open spec fn ready_to_push(self) -> bool {
        forall|i: int|
            self.evicted_by_push() <= i < self.window.len() - 1
                ==> self.window[i].status is Complete
    }

    /// Whether every checkpoint that both queues retain has in `self` moved
    /// on from what it is in `before`.
    pub open spec fn follows(self, before: QueueView) -> bool {
        forall|index: u32|
            before.retains(index) && self.retains(index) ==> self.at(index).follows(
                #[trigger] before.at(index),
            )
    }

    /// The queue after one push for each of the validator lists, in turn. A
    /// push that fails leaves the queue as it is.
    pub open spec fn push_building_all(self, steps: Seq<Seq<ValidatorView>>) -> QueueView
        decreases steps.len(),
    {
        if steps.len() == 0 {
            self
        } else {
            let earlier = self.push_building_all(steps.drop_last());
            match earlier.push_building(steps.last()) {
                Ok(next) => next,
                Err(_) => earlier,
            }
        }
    }
}

/// A push keeps what holds of every queue.
pub proof fn lemma_push_keeps_wf(queue: QueueView, sigset: SignatorySetView)
    requires
        queue.wf(),
        queue.window.len() == 0 || queue.index < u32::MAX,
    ensures
        queue.push(sigset).wf(),
{
}

/// A push moves the global index on by one, except for the first push,
/// which leaves it: the index never goes back and grows by at most one.
pub proof fn lemma_push_moves_index(queue: QueueView, validators: Seq<ValidatorView>)
    requires
        queue.window.len() == 0 || queue.index < u32::MAX,
    ensures
        match queue.push_building(validators) {
            Ok(next) => {
                &&& queue.index <= next.index <= queue.index + 1
                &&& queue.window.len() == 0 ==> next.index == queue.index
                &&& queue.window.len() > 0 ==> next.index == queue.index + 1
            },
            Err(_) => true,
        },
{
}

/// Over any number of pushes the global index never goes back, and it
/// grows by at most the number of pushes.
pub proof fn lemma_pushes_move_index(queue: QueueView, steps: Seq<Seq<ValidatorView>>)
    requires
        queue.index + steps.len() <= u32::MAX,
    ensures
        queue.index <= queue.push_building_all(steps).index <= queue.index + steps.len(),
    decreases steps.len(),
{
    if steps.len() > 0 {
        lemma_pushes_move_index(queue, steps.drop_last());
        lemma_push_moves_index(queue.push_building_all(steps.drop_last()), steps.last());
    }
}

/// A global index that is retained and its place in the window give each
/// other back, and the place lies inside the window.
pub proof fn lemma_index_round_trip(queue: QueueView, index: u32)
    requires
        queue.wf(),
        queue.retains(index),
    ensures
        0 <= queue.position(index) < queue.window.len(),
        queue.index_at(queue.position(index)) == index,
        queue.window[queue.position(index)] == queue.at(index),
{
}

/// Every place in the window belongs to exactly one retained global index.
pub proof fn lemma_position_round_trip(queue: QueueView, position: int)
    requires
        queue.wf(),
        0 <= position < queue.window.len(),
    ensures
        0 <= queue.index_at(position) <= u32::MAX,
        queue.retains(queue.index_at(position) as u32),
        queue.position(queue.index_at(position) as u32) == position,
{
}

/// The retained global indices are those from `index + 1 - len` to
/// `index`.
pub proof fn lemma_retained_range(queue: QueueView, index: u32)
    ensures
        queue.retains(index) <==> queue.index + 1 - queue.window.len() <= index <= queue.index,
{
}

/// Under the lifecycle rule at most one checkpoint is being signed, and it
/// is the second-newest.
pub proof fn lemma_one_signing(queue: QueueView, i: int, j: int)
    requires
        queue.lifecycle_ok(),
        0 <= i < queue.window.len(),
        0 <= j < queue.window.len(),
        queue.window[i].status is Signing,
        queue.window[j].status is Signing,
    ensures
        i == j,
        i == queue.window.len() - 2,
        queue.has_signing(),
{
}

/// Under the lifecycle rule the complete checkpoints at the front are all
/// but the newest, or all but the two newest.
pub proof fn lemma_completed_prefix(queue: QueueView, count: int)
    requires
        queue.lifecycle_ok(),
        queue.is_completed_len(count),
    ensures
        queue.window.len() <= 1 ==> count == 0,
        queue.window.len() >= 2 ==> count == if queue.second().status is Complete {
            queue.window.len() - 1
        } else {
            queue.window.len() - 2
        },
{
}

/// The lifecycle rule holds after a push exactly where every checkpoint
/// that stays behind the two newest is complete: the checkpoint that was
/// the newest may be in any state.
pub proof fn lemma_push_keeps_lifecycle(queue: QueueView, sigset: SignatorySetView)
    requires
        queue.wf(),
    ensures
        queue.push(sigset).lifecycle_ok() <==> queue.ready_to_push(),
{
    let next = queue.push(sigset);
    let evicted = queue.evicted_by_push();
    if next.lifecycle_ok() {
        assert forall|i: int| evicted <= i < queue.window.len() - 1 implies queue.window[i].status
            is Complete by {
            assert(next.window[i - evicted] == queue.window[i]);
        }
    }
}

/// The host's step keeps the lifecycle rule.
pub proof fn lemma_maybe_advance_keeps_lifecycle(queue: QueueView, validators: Seq<ValidatorView>)
    requires
        queue.lifecycle_ok(),
    ensures
        match queue.maybe_advance(validators) {
            Ok(next) => next.lifecycle_ok(),
            Err(_) => true,
        },
{
}

/// A signature keeps the lifecycle rule.
pub proof fn lemma_signature_keeps_lifecycle(
    queue: QueueView,
    pubkey: Seq<u8>,
    signature: Seq<u8>,
    valid: bool,
)
    requires
        queue.lifecycle_ok(),
    ensures
        match queue.apply_signature(pubkey, signature, valid) {
            Ok(next) => next.lifecycle_ok(),
            Err(_) => true,
        },
{
}

/// A push leaves every checkpoint that stays in the window as it was.
pub proof fn lemma_push_changes_no_checkpoint(queue: QueueView, sigset: SignatorySetView)
    requires
        queue.wf(),
        queue.window.len() == 0 || queue.index < u32::MAX,
    ensures
        forall|index: u32|
            queue.retains(index) && queue.push(sigset).retains(index) ==> queue.push(sigset).at(
                index,
            ) == #[trigger] queue.at(index),
        queue.push(sigset).follows(queue),
{
}

/// The host's step leaves every checkpoint as it was.
pub proof fn lemma_maybe_advance_follows(queue: QueueView, validators: Seq<ValidatorView>)
    requires
        queue.wf(),
    ensures
        match queue.maybe_advance(validators) {
            Ok(next) => next.follows(queue),
            Err(_) => true,
        },
{
}

/// A signature changes only the checkpoint that is being signed and the
/// newest one. It moves no status back and leaves every complete
/// checkpoint as it was, with one exception: where it completes a
/// checkpoint while the newest one is complete already, that one gets the
/// reserve input all the same.
pub proof fn lemma_signature_follows(
    queue: QueueView,
    pubkey: Seq<u8>,
    signature: Seq<u8>,
    valid: bool,
)
    requires
        queue.wf(),
    ensures
        match queue.apply_signature(pubkey, signature, valid) {
            Ok(next) => {
                &&& next.follows(queue) <==> !(queue.newest().status is Complete
                    && next.second().status is Complete)
                &&& queue.lifecycle_ok() ==> next.follows(queue)
                &&& next.index == queue.index
                &&& next.window.len() == queue.window.len()
                &&& forall|i: int|
                    0 <= i < queue.window.len() - 2 ==> next.window[i] == queue.window[i]
            },
            Err(_) => true,
        },
{
    match queue.apply_signature(pubkey, signature, valid) {
        Ok(next) => {
            if queue.newest().status is Complete && next.second().status is Complete {
                assert(queue.retains(queue.index));
                assert(next.at(queue.index).inputs.len() == queue.at(queue.index).inputs.len() + 1);
                assert(!next.at(queue.index).follows(queue.at(queue.index)));
            }
        },
        Err(_) => {},
    }
}

/// A signature that is taken completes the checkpoint exactly when the
/// weight that has signed, with it, is at least 70 percent of the whole
/// weight: otherwise the checkpoint is still being signed.
pub proof fn lemma_quorum_completes(
    queue: QueueView,
    pubkey: Seq<u8>,
    signature: Seq<u8>,
    valid: bool,
)
    requires
        queue.apply_signature(pubkey, signature, valid) is Ok,
    ensures
        ({
            let next = queue.apply_signature(pubkey, signature, valid)->Ok_0;
            let sig = next.second().sig;
            &&& queue.second().status is Signing
            &&& sig == queue.second().sig.with_signature(pubkey, signature)
            &&& next.second().status is Complete <==> sig.signed_weight() * 100
                >= sig.total_weight() * 70
            &&& !(next.second().status is Complete) ==> next.second().status is Signing
            &&& next.second().inputs == queue.second().inputs
            &&& next.second().outputs == queue.second().outputs
            &&& next.second().sigset == queue.second().sigset
        }),
{
}

/// When a signature completes a checkpoint, the newest checkpoint gets one
/// new input, behind those it has, that spends output 0; otherwise the
/// newest checkpoint is as it was.
pub proof fn lemma_reserve_chaining(
    queue: QueueView,
    pubkey: Seq<u8>,
    signature: Seq<u8>,
    valid: bool,
)
    requires
        queue.apply_signature(pubkey, signature, valid) is Ok,
    ensures
        ({
            let next = queue.apply_signature(pubkey, signature, valid)->Ok_0;
            if next.second().status is Complete {
                &&& next.newest().inputs == queue.newest().inputs.push(InputView::reserve())
                &&& next.newest().inputs.len() == queue.newest().inputs.len() + 1
                &&& next.newest().inputs.last().vout == 0
                &&& next.newest() == (CheckpointView {
                    inputs: next.newest().inputs,
                    ..queue.newest()
                })
            } else {
                next.newest() == queue.newest()
            }
        }),
{
}

} // verus!
