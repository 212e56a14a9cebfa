use crate::error::Error;
use crate::keys::{zero_hash, Pubkey, Signature};
use crate::signatory::{
    derive_signatories, SignatorySet, SignatorySetView, ValidatorContext, ValidatorView,
};
use crate::threshold_sig::{signature_valid, ThresholdSig, ThresholdSigView};
use vstd::prelude::*;

verus! {

/// Where a checkpoint stands in its life: it is built, then signed, then
/// complete.
#[derive(Debug, Clone, Copy, PartialEq, Eq, Structural)]
pub enum CheckpointStatus {
    Building,
    Signing,
    Complete,
}

impl Default for CheckpointStatus {
    fn default() -> (status: CheckpointStatus)
        ensures
            status == CheckpointStatus::Building,
    {
        CheckpointStatus::Building
    }
}

impl CheckpointStatus {
    /// How far the status is along the life of a checkpoint.
    pub open spec fn rank(self) -> nat {
        match self {
            CheckpointStatus::Building => 0,
            CheckpointStatus::Signing => 1,
            CheckpointStatus::Complete => 2,
        }
    }
}

/// An output of an earlier transaction that a checkpoint's transaction
/// spends.
#[derive(Debug, PartialEq, Eq)]
pub struct Input {
    pub txid: [u8; 32],
    pub vout: u32,
    pub script_pubkey: (),
    pub sig: ThresholdSig,
}

/// What an input holds.
pub struct InputView {
    pub txid: Seq<u8>,
    pub vout: u32,
    pub sig: ThresholdSigView,
}

impl View for Input {
    type V = InputView;

    open spec fn view(&self) -> InputView {
        InputView { txid: self.txid@, vout: self.vout, sig: self.sig@ }
    }
}

impl InputView {
    /// The input that carries the reserve of a completed checkpoint forward:
    /// it spends output 0, and neither the transaction id nor the signers
    /// are filled in yet.
    pub open spec fn reserve() -> InputView {
        InputView { txid: zero_hash(), vout: 0, sig: ThresholdSigView::empty() }
    }
}

impl Default for Input {
    fn default() -> (input: Input)
        ensures
            input@ == InputView::reserve(),
    {
        let input = Input { txid: [0u8; 32], vout: 0, script_pubkey: (), sig: ThresholdSig::new() };
        assert(input.txid@ =~= zero_hash());
        input
    }
}

/// An output that a checkpoint's transaction pays.
#[derive(Debug, PartialEq, Eq)]
pub struct Output {
    pub amount: u64,
    pub script: Vec<u8>,
}

/// What an output holds.
pub struct OutputView {
    pub amount: u64,
    pub script: Seq<u8>,
}

impl View for Output {
    type V = OutputView;

    open spec fn view(&self) -> OutputView {
        OutputView { amount: self.amount, script: self.script@ }
    }
}

impl Default for Output {
    fn default() -> (output: Output)
        ensures
            output@ == (OutputView { amount: 0, script: Seq::empty() }),
    {
        Output { amount: 0, script: Vec::new() }
    }
}

/// One transaction that moves the custodied funds on, with the signatory
/// set that signs it.
#[derive(Debug, PartialEq, Eq)]
pub struct Checkpoint {
    pub status: CheckpointStatus,
    pub inputs: Vec<Input>,
    pub outputs: Vec<Output>,
    pub sig: ThresholdSig,
    pub sigset: SignatorySet,
}

/// What a checkpoint holds.
pub struct CheckpointView {
    pub status: CheckpointStatus,
    pub inputs: Seq<InputView>,
    pub outputs: Seq<OutputView>,
    pub sig: ThresholdSigView,
    pub sigset: SignatorySetView,
}

impl View for Checkpoint {
    type V = CheckpointView;

    open spec fn view(&self) -> CheckpointView {
        CheckpointView {
            status: self.status,
            inputs: self.inputs@.map_values(|input: Input| input@),
            outputs: self.outputs@.map_values(|output: Output| output@),
            sig: self.sig@,
            sigset: self.sigset@,
        }
    }
}

impl CheckpointView {
    /// The checkpoint that a queue starts to build for a signatory set: no
    /// inputs, no outputs, and no member of the set has signed.
    pub open spec fn building(sigset: SignatorySetView) -> CheckpointView {
        CheckpointView {
            status: CheckpointStatus::Building,
            inputs: Seq::empty(),
            outputs: Seq::empty(),
            sig: ThresholdSigView::from_signatories(sigset.signatories),
            sigset,
        }
    }
}

impl Checkpoint {
    /// An empty checkpoint in the building state that the members of
    /// `sigset` are to sign.
    pub fn new(sigset: SignatorySet) -> (checkpoint: Checkpoint)
        ensures
            checkpoint@ == CheckpointView::building(sigset@),
    {
        let sig = ThresholdSig::from_sigset(&sigset);
        let checkpoint = Checkpoint {
            status: CheckpointStatus::Building,
            inputs: Vec::new(),
            outputs: Vec::new(),
            sig,
            sigset,
        };
        assert(checkpoint@.inputs =~= Seq::empty());
        assert(checkpoint@.outputs =~= Seq::empty());
        checkpoint
    }
}

impl Default for Checkpoint {
    fn default() -> (checkpoint: Checkpoint)
        ensures
            checkpoint@ == CheckpointView::building(
                SignatorySetView { index: 0, signatories: Seq::empty() },
            ),
    {
        Checkpoint::new(SignatorySet::new(0))
    }
}

/// A read-only handle to a checkpoint that is complete.
#[derive(Debug)]
pub struct CompletedCheckpoint<'a>(pub &'a Checkpoint);

/// A read-only handle to the checkpoint that is being signed.
#[derive(Debug)]
pub struct SigningCheckpoint<'a>(pub &'a Checkpoint);

/// An exclusive handle to the checkpoint that is being signed.
#[derive(Debug)]
pub struct SigningCheckpointMut<'a>(pub &'a mut Checkpoint);

/// A read-only handle to the newest checkpoint.
#[derive(Debug)]
pub struct BuildingCheckpoint<'a>(pub &'a Checkpoint);

/// An exclusive handle to the newest checkpoint.
#[derive(Debug)]
pub struct BuildingCheckpointMut<'a>(pub &'a mut Checkpoint);

/// The newest checkpoints, addressed by a global index that grows by one
/// with each checkpoint after the first. Only the newest `capacity`
/// checkpoints are kept.
#[derive(Debug)]
pub struct CheckpointQueue {
    queue: Vec<Checkpoint>,
    index: u32,
    capacity: usize,
}

/// What a queue holds.
pub struct QueueView {
    /// The retained checkpoints, oldest first.
    pub window: Seq<CheckpointView>,
    /// The global index of the newest checkpoint.
    pub index: u32,
    /// The largest number of checkpoints that are retained.
    pub capacity: usize,
}

impl QueueView {
    /// What holds of every queue: the window is within the capacity, and no
    /// longer than the number of checkpoints that were ever pushed.
    pub open spec fn wf(self) -> bool {
        &&& self.window.len() <= self.capacity
        &&& self.window.len() <= self.index + 1
    }

    /// The global index of the oldest retained checkpoint.
    pub open spec fn start(self) -> int {
        self.index + 1 - self.window.len()
    }

    /// Whether the checkpoint with this global index is retained.
    pub open spec fn retains(self, index: u32) -> bool {
        self.start() <= index <= self.index
    }

    /// The place in the window of the checkpoint with this global index.
    pub open spec fn position(self, index: u32) -> int {
        index - self.start()
    }

    /// The global index of the checkpoint at this place in the window.
    pub open spec fn index_at(self, position: int) -> int {
        self.start() + position
    }

    /// The checkpoint with this global index.
    pub open spec fn at(self, index: u32) -> CheckpointView {
        self.window[self.position(index)]
    }

    /// Whether the first `count` checkpoints are the complete ones that
    /// come before the first checkpoint that is not complete.
    pub open spec fn is_completed_len(self, count: int) -> bool {
        &&& 0 <= count <= self.window.len()
        &&& forall|i: int| 0 <= i < count ==> self.window[i].status is Complete
        &&& count < self.window.len() ==> !(self.window[count].status is Complete)
    }

    /// Whether the second-newest checkpoint is being signed.
    pub open spec fn has_signing(self) -> bool {
        self.window.len() >= 2 && self.window[self.window.len() - 2].status is Signing
    }

    /// The second-newest checkpoint.
    pub open spec fn second(self) -> CheckpointView {
        self.window[self.window.len() - 2]
    }

    /// The newest checkpoint.
    pub open spec fn newest(self) -> CheckpointView {
        self.window.last()
    }

    /// The queue after a checkpoint for `sigset` was pushed: the global
    /// index moves on unless the window was empty, and the oldest
    /// checkpoint leaves where the window would exceed the capacity.
    pub open spec fn push(self, sigset: SignatorySetView) -> QueueView {
        let grown = self.window.push(CheckpointView::building(sigset));
        QueueView {
            window: if grown.len() > self.capacity {
                grown.drop_first()
            } else {
                grown
            },
            index: if self.window.len() == 0 {
                self.index
            } else {
                (self.index + 1) as u32
            },
            capacity: self.capacity,
        }
    }

    /// The signatory set that the validators give for the next checkpoint:
    /// it is derived for the index of the newest checkpoint so far.
    pub open spec fn next_sigset(self, validators: Seq<ValidatorView>) -> Option<SignatorySetView> {
        match derive_signatories(validators, self.index) {
            Some(signatories) => Some(SignatorySetView { index: self.index, signatories }),
            None => None,
        }
    }

    /// What pushing a checkpoint for the validators does.
    pub open spec fn push_building(self, validators: Seq<ValidatorView>) -> Result<
        QueueView,
        Error,
    > {
        match self.next_sigset(validators) {
            Some(sigset) => Ok(self.push(sigset)),
            None => Err(Error::KeyDerivation),
        }
    }

    /// What a step of the host does: an empty queue gets its first
    /// checkpoint once the validators give a signatory set with a member.
    pub open spec fn maybe_advance(self, validators: Seq<ValidatorView>) -> Result<
        QueueView,
        Error,
    > {
        if self.window.len() > 0 {
            Ok(self)
        } else {
            match self.next_sigset(validators) {
                Some(sigset) => if sigset.signatories.len() == 0 {
                    Ok(self)
                } else {
                    Ok(self.push(sigset))
                },
                None => Err(Error::KeyDerivation),
            }
        }
    }

    /// What a signature does that was found valid or not: it is taken by the
    /// checkpoint that is being signed. With a quorum that checkpoint is
    /// complete, and the newest checkpoint gets the input that carries the
    /// reserve forward.
    pub open spec fn apply_signature(self, pubkey: Seq<u8>, signature: Seq<u8>, valid: bool) -> Result<
        QueueView,
        Error,
    > {
        if !self.has_signing() {
            Err(Error::NoCheckpointToSign)
        } else if !self.second().sig.accepts(pubkey, valid) {
            Err(Error::SignatureRejected)
        } else {
            let n = self.window.len() as int;
            let sig = self.second().sig.with_signature(pubkey, signature);
            if sig.done() {
                let completed = CheckpointView {
                    status: CheckpointStatus::Complete,
                    sig,
                    ..self.second()
                };
                let building = CheckpointView {
                    inputs: self.newest().inputs.push(InputView::reserve()),
                    ..self.newest()
                };
                Ok(
                    QueueView {
                        window: self.window.update(n - 2, completed).update(n - 1, building),
                        ..self
                    },
                )
            } else {
                Ok(
                    QueueView {
                        window: self.window.update(n - 2, CheckpointView { sig, ..self.second() }),
                        ..self
                    },
                )
            }
        }
    }
}

/// Replacing one checkpoint replaces its view and no other.
proof fn lemma_update_view(queue: Seq<Checkpoint>, position: int, checkpoint: Checkpoint)
    requires
        0 <= position < queue.len(),
    ensures
        queue.update(position, checkpoint).map_values(|c: Checkpoint| c@) == queue.map_values(
            |c: Checkpoint| c@,
        ).update(position, checkpoint@),
{
    assert(queue.update(position, checkpoint).map_values(|c: Checkpoint| c@) =~= queue.map_values(
        |c: Checkpoint| c@,
    ).update(position, checkpoint@));
}

impl View for CheckpointQueue {
    type V = QueueView;

    closed spec fn view(&self) -> QueueView {
        QueueView {
            window: self.queue@.map_values(|c: Checkpoint| c@),
            index: self.index,
            capacity: self.capacity,
        }
    }
}

impl CheckpointQueue {
    #[verifier::type_invariant]
    spec fn type_inv(&self) -> bool {
        self@.wf()
    }

    /// An empty queue that retains at most `capacity` checkpoints. The
    /// first checkpoint pushed gets the global index 0.
    pub fn new(capacity: usize) -> (queue: CheckpointQueue)
        ensures
            queue@ == (QueueView { window: Seq::empty(), index: 0, capacity }),
    {
        let queue = CheckpointQueue { queue: Vec::new(), index: 0, capacity };
        assert(queue@.window =~= Seq::empty());
        queue
    }

    /// The number of retained checkpoints.
    pub fn len(&self) -> (count: usize)
        ensures
            count == self@.window.len(),
            self@.wf(),
    {
        proof {
            use_type_invariant(self);
        }
        self.queue.len()
    }

    /// The largest number of checkpoints that are retained.
    pub fn capacity(&self) -> (capacity: usize)
        ensures
            capacity == self@.capacity,
    {
        self.capacity
    }

    /// The place in the window of the checkpoint with the global index
    /// `index`.
    pub fn get_deque_index(&self, index: u32) -> (result: Result<u32, Error>)
        ensures
            self@.wf(),
            match result {
                Ok(position) => self@.retains(index) && position == self@.position(index),
                Err(e) => !self@.retains(index) && e == Error::IndexOutOfBounds,
            },
    {
        proof {
            use_type_invariant(self);
        }
        let len = self.queue.len();
        if len == 0 {
            return Err(Error::IndexOutOfBounds);
        }
        let start: u32 = self.index - ((len - 1) as u32);
        if index > self.index || index < start {
            Err(Error::IndexOutOfBounds)
        } else {
            Ok(index - start)
        }
    }

    /// The checkpoint with the global index `index`.
    pub fn get(&self, index: u32) -> (result: Result<&Checkpoint, Error>)
        ensures
            self@.wf(),
            match result {
                Ok(checkpoint) => self@.retains(index) && checkpoint@ == self@.at(index),
                Err(e) => !self@.retains(index) && e == Error::IndexOutOfBounds,
            },
    {
        let position = self.get_deque_index(index)?;
        Ok(&self.queue[position as usize])
    }

    /// An exclusive handle to the checkpoint with the global index `index`.
    /// What the caller writes through it replaces that checkpoint and
    /// nothing else.
    pub fn get_mut(&mut self, index: u32) -> (result: Result<&mut Checkpoint, Error>)
        ensures
            old(self)@.wf(),
            match result {
                Ok(checkpoint) => {
                    &&& old(self)@.retains(index)
                    &&& checkpoint@ == old(self)@.at(index)
                    &&& final(self)@ == (QueueView {
                        window: old(self)@.window.update(
                            old(self)@.position(index),
                            final(checkpoint)@,
                        ),
                        ..old(self)@
                    })
                },
                Err(e) => {
                    &&& !old(self)@.retains(index)
                    &&& e == Error::IndexOutOfBounds
                    &&& final(self)@ == old(self)@
                },
            },
    {
        let position = self.get_deque_index(index)?;
        let ghost before = self.queue@;
        let checkpoint = &mut self.queue[position as usize];
        proof {
            lemma_update_view(before, position as int, *final(checkpoint));
        }
        Ok(checkpoint)
    }

    /// The global index of the newest checkpoint.
    pub fn index(&self) -> (index: u32)
        ensures
            index == self@.index,
    {
        self.index
    }

    /// Every retained checkpoint with its global index, newest first.
    pub fn all(&self) -> (result: Result<Vec<(u32, &Checkpoint)>, Error>)
        ensures
            self@.wf(),
            result is Ok,
            result->Ok_0@.len() == self@.window.len(),
            forall|i: int|
                0 <= i < self@.window.len() ==> {
                    &&& (#[trigger] result->Ok_0@[i]).0 == self@.index - i
                    &&& result->Ok_0@[i].1@ == self@.window[self@.window.len() - 1 - i]
                },
    {
        let len = self.len();
        let mut out: Vec<(u32, &Checkpoint)> = Vec::with_capacity(len);
        let mut i: usize = 0;
        while i < len
            invariant
                self@.wf(),
                len == self@.window.len(),
                i <= len,
                out@.len() == i,
                forall|j: int|
                    0 <= j < i ==> {
                        &&& (#[trigger] out@[j]).0 == self@.index - j
                        &&& out@[j].1@ == self@.window[len - 1 - j]
                    },
            decreases len - i,
        {
            let index: u32 = self.index() - (i as u32);
            let checkpoint = self.get(index)?;
            out.push((index, checkpoint));
            i += 1;
        }
        Ok(out)
    }

    /// The complete checkpoints at the front of the window, oldest first,
    /// up to the first checkpoint that is not complete.
    pub fn completed(&self) -> (result: Result<Vec<CompletedCheckpoint<'_>>, Error>)
        ensures
            result is Ok,
            self@.is_completed_len(result->Ok_0@.len() as int),
            forall|i: int|
                0 <= i < result->Ok_0@.len() ==> (#[trigger] result->Ok_0@[i]).0@ == self@.window[i],
    {
        let mut out: Vec<CompletedCheckpoint<'_>> = Vec::new();
        let mut i: usize = 0;
        while i < self.queue.len()
            invariant
                i <= self.queue.len(),
                out@.len() == i,
                forall|j: int| 0 <= j < i ==> self@.window[j].status is Complete,
                forall|j: int| 0 <= j < i ==> (#[trigger] out@[j]).0@ == self@.window[j],
            decreases self.queue.len() - i,
        {
            let checkpoint = &self.queue[i];
            match checkpoint.status {
                CheckpointStatus::Complete => {},
                _ => {
                    return Ok(out);
                },
            }
            out.push(CompletedCheckpoint(checkpoint));
            i += 1;
        }
        Ok(out)
    }

    /// The checkpoint that is being signed, if there is one: the
    /// second-newest checkpoint, where its status is `Signing`.
    pub fn signing(&self) -> (result: Result<Option<SigningCheckpoint<'_>>, Error>)
        ensures
            self@.wf(),
            result is Ok,
            match result->Ok_0 {
                Some(signing) => self@.has_signing() && signing.0@ == self@.second(),
                None => !self@.has_signing(),
            },
    {
        if self.len() < 2 {
            return Ok(None);
        }
        let second = self.get(self.index - 1)?;
        match second.status {
            CheckpointStatus::Signing => Ok(Some(SigningCheckpoint(second))),
            _ => Ok(None),
        }
    }

    /// An exclusive handle to the checkpoint that is being signed, if there
    /// is one.
    pub fn signing_mut(&mut self) -> (result: Result<Option<SigningCheckpointMut<'_>>, Error>)
        ensures
            old(self)@.wf(),
            result is Ok,
            match result->Ok_0 {
                Some(signing) => {
                    &&& old(self)@.has_signing()
                    &&& signing.0@ == old(self)@.second()
                    &&& final(self)@ == (QueueView {
                        window: old(self)@.window.update(
                            old(self)@.window.len() - 2,
                            final(signing.0)@,
                        ),
                        ..old(self)@
                    })
                },
                None => !old(self)@.has_signing() && final(self)@ == old(self)@,
            },
    {
        if self.len() < 2 {
            return Ok(None);
        }
        match self.get(self.index - 1)?.status {
            CheckpointStatus::Signing => {},
            _ => {
                return Ok(None);
            },
        }
        let second = self.get_mut(self.index - 1)?;
        Ok(Some(SigningCheckpointMut(second)))
    }

    /// The newest checkpoint.
    pub fn building(&self) -> (result: Result<BuildingCheckpoint<'_>, Error>)
        ensures
            self@.wf(),
            match result {
                Ok(building) => self@.window.len() > 0 && building.0@ == self@.newest(),
                Err(e) => self@.window.len() == 0 && e == Error::IndexOutOfBounds,
            },
    {
        let last = self.get(self.index)?;
        Ok(BuildingCheckpoint(last))
    }

    /// An exclusive handle to the newest checkpoint.
    pub fn building_mut(&mut self) -> (result: Result<BuildingCheckpointMut<'_>, Error>)
        ensures
            old(self)@.wf(),
            match result {
                Ok(building) => {
                    &&& old(self)@.window.len() > 0
                    &&& building.0@ == old(self)@.newest()
                    &&& final(self)@ == (QueueView {
                        window: old(self)@.window.update(
                            old(self)@.window.len() - 1,
                            final(building.0)@,
                        ),
                        ..old(self)@
                    })
                },
                Err(e) => {
                    &&& old(self)@.window.len() == 0
                    &&& e == Error::IndexOutOfBounds
                    &&& final(self)@ == old(self)@
                },
            },
    {
        let last = self.get_mut(self.index)?;
        Ok(BuildingCheckpointMut(last))
    }

    /// A copy of the signatory set of the newest checkpoint.
    pub fn active_sigset(&self) -> (result: Result<SignatorySet, Error>)
        ensures
            match result {
                Ok(sigset) => self@.window.len() > 0 && sigset@ == self@.newest().sigset,
                Err(e) => self@.window.len() == 0 && e == Error::IndexOutOfBounds,
            },
    {
        Ok(self.building()?.0.sigset.clone())
    }

    /// Pushes a checkpoint in the building state for `sigset`.
    pub fn push(&mut self, sigset: SignatorySet)
        requires
            old(self)@.window.len() == 0 || old(self)@.index < u32::MAX,
        ensures
            final(self)@ == old(self)@.push(sigset@),
            final(self)@.wf(),
    {
        proof {
            use_type_invariant(&*self);
        }
        let ghost before = self.queue@;
        let checkpoint = Checkpoint::new(sigset);
        let len = self.queue.len();
        if len > 0 {
            self.index = self.index + 1;
        }
        if self.capacity > 0 {
            let mut queue: Vec<Checkpoint> = Vec::new();
            core::mem::swap(&mut self.queue, &mut queue);
            if len == self.capacity {
                queue.remove(0);
            }
            queue.push(checkpoint);
            self.queue = queue;
        }
        proof {
            let view = |c: Checkpoint| c@;
            let grown = before.push(checkpoint);
            assert(grown.map_values(view) =~= before.map_values(view).push(checkpoint@));
            if old(self)@.capacity == 0 {
                assert(before.map_values(view) =~= grown.map_values(view).drop_first());
            } else if len == old(self)@.capacity {
                assert(self.queue@ =~= grown.drop_first());
                assert(grown.drop_first().map_values(view) =~= grown.map_values(view).drop_first());
            } else {
                assert(self.queue@ =~= grown);
            }
        }
    }

    /// Pushes a checkpoint in the building state whose signatory set the
    /// validators give for the index of the newest checkpoint so far. The
    /// queue is left as it is where a registered key has no child key at
    /// that index.
    pub fn push_building(&mut self, sig_keys: &ValidatorContext) -> (result: Result<(), Error>)
        requires
            old(self)@.window.len() == 0 || old(self)@.index < u32::MAX,
        ensures
            final(self)@.wf(),
            match old(self)@.push_building(sig_keys@) {
                Ok(next) => result is Ok && final(self)@ == next,
                Err(e) => result == Err::<(), Error>(e) && final(self)@ == old(self)@,
            },
    {
        proof {
            use_type_invariant(&*self);
        }
        let index = self.index;
        match SignatorySet::from_validator_ctx(index, sig_keys) {
            Ok(sigset) => {
                self.push(sigset);
                Ok(())
            },
            Err(e) => Err(e),
        }
    }

    /// The step that the host takes once per block: gives an empty queue
    /// its first checkpoint as soon as the validators give a signatory set
    /// with a member. A queue that holds a checkpoint is left as it is.
    pub fn maybe_advance(&mut self, sig_keys: &ValidatorContext) -> (result: Result<(), Error>)
        ensures
            final(self)@.wf(),
            match old(self)@.maybe_advance(sig_keys@) {
                Ok(next) => result is Ok && final(self)@ == next,
                Err(e) => result == Err::<(), Error>(e) && final(self)@ == old(self)@,
            },
    {
        proof {
            use_type_invariant(&*self);
        }
        if self.queue.len() == 0 {
            let sigset = SignatorySet::from_validator_ctx(self.index, sig_keys)?;
            if sigset.len() == 0 {
                return Ok(());
            }
            self.push(sigset);
        }
        Ok(())
    }

    /// Takes a signature for the checkpoint that is being signed, where
    /// `valid` tells whether it is a valid signature of that checkpoint's
    /// message under `pubkey`. With a quorum the checkpoint is complete and
    /// the newest checkpoint gets the reserve input. A signature that is
    /// not taken leaves the queue as it is.
    pub fn apply_signature(&mut self, pubkey: Pubkey, sig: Signature, valid: bool) -> (result: Result<
        (),
        Error,
    >)
        ensures
            final(self)@.wf(),
            match old(self)@.apply_signature(pubkey@, sig@, valid) {
                Ok(next) => result is Ok && final(self)@ == next,
                Err(e) => result == Err::<(), Error>(e) && final(self)@ == old(self)@,
            },
    {
        proof {
            use_type_invariant(&*self);
        }
        let signing = match self.signing_mut()? {
            Some(signing) => signing,
            None => {
                return Err(Error::NoCheckpointToSign);
            },
        };
        match signing.0.sig.record(pubkey, sig, valid) {
            Ok(()) => {},
            Err(e) => {
                proof {
                    assert(self@.window =~= old(self)@.window);
                }
                return Err(e);
            },
        }
        if signing.0.sig.done() {
            signing.0.status = CheckpointStatus::Complete;
            let building = self.building_mut()?;
            building.0.inputs.push(Input::default());
            proof {
                assert(building.0@.inputs =~= old(self)@.newest().inputs.push(InputView::reserve()));
            }
        }
        proof {
            use_type_invariant(&*self);
            assert(self@.window =~= old(self)@.apply_signature(pubkey@, sig@, valid)->Ok_0.window);
        }
        Ok(())
    }

    /// Takes the signature of one signer for the checkpoint that is being
    /// signed, once it has verified under `pubkey` for that checkpoint's
    /// message.
    pub fn sign_checkpoint(&mut self, pubkey: Pubkey, sig: Signature) -> (result: Result<(), Error>)
        ensures
            final(self)@.wf(),
            match old(self)@.apply_signature(
                pubkey@,
                sig@,
                signature_valid(old(self)@.second().sig.message, pubkey@, sig@),
            ) {
                Ok(next) => result is Ok && final(self)@ == next,
                Err(e) => result == Err::<(), Error>(e) && final(self)@ == old(self)@,
            },
    {
        let valid = match self.signing()? {
            Some(signing) => signing.0.sig.verify(&pubkey, &sig),
            None => {
                return Err(Error::NoCheckpointToSign);
            },
        };
        self.apply_signature(pubkey, sig, valid)
    }
}

} // verus!
