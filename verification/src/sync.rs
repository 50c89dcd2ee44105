use vstd::prelude::*;
use vstd::arithmetic::div_mod::{
    lemma_add_mod_noop_right, lemma_mod_add_multiples_vanish, lemma_mod_bound,
    lemma_mod_equivalence, lemma_small_mod,
};
use crate::index::SlotIndex;
use crate::resource::{fence_resources, semaphore_resources, FrameSlot, Resource};

verus! {

/// What the host knows of a fence.
#[derive(Clone, Copy, Debug, PartialEq, Eq, Structural)]
pub enum FenceState {
    /// Signaled: a wait returns at once.
    Signaled,
    /// Armed by a submission: a wait returns once the device has retired
    /// that submission.
    InFlight,
    /// Reset and not armed again: nothing will signal it, a wait would not
    /// return.
    Unsignaled,
}

/// Why a sync set refused a request.
#[derive(Clone, Copy, Debug, PartialEq, Eq, Structural)]
pub enum SyncError {
    /// The set has no such slot.
    OutOfRange,
    /// The fence was reset and no submission has armed it since.
    NeverSignaled,
    /// The fence has not been reset since it was last signaled or armed.
    NotReset,
}

/// One entry in the record a sync set keeps of its fences.
pub enum SyncOp {
    /// The fence of this slot was waited on and reset.
    WaitedAndReset(int),
    /// A submission armed the fence of this slot.
    Armed(int),
}

/// Whether the last entry of `history` about `slot` is a reset: the fence
/// is then unsignaled with nothing under way that would signal it.
pub open spec fn unarmed(history: Seq<SyncOp>, slot: int) -> bool
    decreases history.len(),
{
    if history.len() == 0 {
        false
    } else {
        match history.last() {
            SyncOp::WaitedAndReset(s) if s == slot => true,
            SyncOp::Armed(s) if s == slot => false,
            _ => unarmed(history.drop_last(), slot),
        }
    }
}

/// Whether every entry of `history` was in order when it was made: a fence
/// is waited on only while something has signaled it or will, and armed
/// only after a reset.
pub open spec fn well_paced(history: Seq<SyncOp>) -> bool
    decreases history.len(),
{
    if history.len() == 0 {
        true
    } else {
        &&& well_paced(history.drop_last())
        &&& match history.last() {
            SyncOp::WaitedAndReset(s) => !unarmed(history.drop_last(), s),
            SyncOp::Armed(s) => unarmed(history.drop_last(), s),
        }
    }
}

/// A sync set as contracts see it.
pub struct SyncModel {
    pub slots: Seq<FrameSlot>,
    /// The state of each slot's fence.
    pub states: Seq<FenceState>,
    /// The slot the next frame gets.
    pub current: int,
    /// Every reset and every arming so far, oldest first.
    pub history: Seq<SyncOp>,
}

impl SyncModel {
    pub open spec fn count(self) -> int {
        self.slots.len() as int
    }

    pub open spec fn wf(self) -> bool {
        &&& self.slots.len() > 0
        &&& self.states.len() == self.slots.len()
        &&& 0 <= self.current < self.slots.len()
        &&& well_paced(self.history)
        &&& forall|s: int|
            0 <= s < self.slots.len() ==> ((#[trigger] self.states[s]) is Unsignaled <==> unarmed(
                self.history,
                s,
            ))
    }

    /// The set as it is made from freshly created primitives: every fence
    /// signaled, the cursor on the first slot, nothing recorded.
    pub open spec fn fresh(
        image_available: Seq<ash::vk::Semaphore>,
        render_finished: Seq<ash::vk::Semaphore>,
        fences: Seq<ash::vk::Fence>,
    ) -> SyncModel {
        SyncModel {
            slots: Seq::new(
                fences.len(),
                |i: int|
                    FrameSlot {
                        image_available: image_available[i],
                        render_finished: render_finished[i],
                        in_flight: fences[i],
                    },
            ),
            states: Seq::new(fences.len(), |i: int| FenceState::Signaled),
            current: 0,
            history: Seq::empty(),
        }
    }

    /// The set after one `advance`.
    pub open spec fn advanced(self) -> SyncModel {
        SyncModel { current: (self.current + 1) % self.count(), ..self }
    }

    /// The set after `k` calls of `advance`.
    pub open spec fn advanced_by(self, k: nat) -> SyncModel
        decreases k,
    {
        if k == 0 {
            self
        } else {
            self.advanced_by((k - 1) as nat).advanced()
        }
    }

    /// Whether one of the next `count` calls of `advance` hands out `slot`.
    pub open spec fn round_reaches(self, slot: int) -> bool {
        exists|i: nat| i < self.count() && (#[trigger] self.advanced_by(i)).current == slot
    }

    /// Whether a wait on the fence of `slot` returns at once.
    pub open spec fn ready(self, slot: int) -> bool {
        0 <= slot < self.count() && self.states[slot] is Signaled
    }

    /// Whether a wait on the fence of `slot` returns at all.
    pub open spec fn can_wait(self, slot: int) -> bool {
        0 <= slot < self.count() && !(self.states[slot] is Unsignaled)
    }

    /// The set after the fence of `slot` was waited on and reset.
    pub open spec fn waited(self, slot: int) -> SyncModel {
        SyncModel {
            states: self.states.update(slot, FenceState::Unsignaled),
            history: self.history.push(SyncOp::WaitedAndReset(slot)),
            ..self
        }
    }

    /// What a request to record a wait on the fence of `slot` comes to.
    pub open spec fn wait_outcome(self, slot: SlotIndex) -> Result<(), SyncError> {
        if slot.0 >= self.count() {
            Err(SyncError::OutOfRange)
        } else if self.states[slot.0 as int] is Unsignaled {
            Err(SyncError::NeverSignaled)
        } else {
            Ok(())
        }
    }

    /// What a request to record the arming of the fence of `slot` comes
    /// to.
    pub open spec fn arm_outcome(self, slot: SlotIndex) -> Result<(), SyncError> {
        if slot.0 >= self.count() {
            Err(SyncError::OutOfRange)
        } else if !(self.states[slot.0 as int] is Unsignaled) {
            Err(SyncError::NotReset)
        } else {
            Ok(())
        }
    }

    /// Whether a submission may take the fence of `slot`.
    pub open spec fn can_arm(self, slot: int) -> bool {
        0 <= slot < self.count() && self.states[slot] is Unsignaled
    }

    /// The set after a submission armed the fence of `slot`.
    pub open spec fn armed(self, slot: int) -> SyncModel {
        SyncModel {
            states: self.states.update(slot, FenceState::InFlight),
            history: self.history.push(SyncOp::Armed(slot)),
            ..self
        }
    }

    /// Whether no submission is under way.
    pub open spec fn idle(self) -> bool {
        forall|s: int| 0 <= s < self.states.len() ==> !((#[trigger] self.states[s]) is InFlight)
    }

    /// The set once the device has drained: what was in flight has
    /// signaled its fence.
    pub open spec fn drained(self) -> SyncModel {
        SyncModel {
            states: Seq::new(
                self.states.len(),
                |s: int|
                    if self.states[s] is InFlight {
                        FenceState::Signaled
                    } else {
                        self.states[s]
                    },
            ),
            ..self
        }
    }

    /// The image-available semaphores, by slot.
    pub open spec fn image_available(self) -> Seq<ash::vk::Semaphore> {
        Seq::new(self.slots.len(), |i: int| self.slots[i].image_available)
    }

    /// The render-finished semaphores, by slot.
    pub open spec fn render_finished(self) -> Seq<ash::vk::Semaphore> {
        Seq::new(self.slots.len(), |i: int| self.slots[i].render_finished)
    }

    /// The in-flight fences, by slot.
    pub open spec fn fences(self) -> Seq<ash::vk::Fence> {
        Seq::new(self.slots.len(), |i: int| self.slots[i].in_flight)
    }

    /// The primitives of the set in the order they were created: every
    /// image-available semaphore, every render-finished semaphore, every
    /// fence.
    pub open spec fn creation_order(self) -> Seq<Resource> {
        semaphore_resources(self.image_available()) + semaphore_resources(self.render_finished())
            + fence_resources(self.fences())
    }
}

/// The frame synchronization set: one slot of primitives per swapchain
/// image, the state of each slot's fence, and the cursor of the rotation.
pub struct FrameSyncSet {
    slots: Vec<FrameSlot>,
    states: Vec<FenceState>,
    current: usize,
    history: Ghost<Seq<SyncOp>>,
}

impl View for FrameSyncSet {
    type V = SyncModel;

    closed spec fn view(&self) -> SyncModel {
        SyncModel {
            slots: self.slots@,
            states: self.states@,
            current: self.current as int,
            history: self.history@,
        }
    }
}

impl FrameSyncSet {
    pub open spec fn wf(&self) -> bool {
        self@.wf()
    }

    /// Makes the set from primitives the host has just created, slot `i`
    /// from the `i`-th of each kind. The fences have to be created signaled
    /// and are taken to be so. Refuses kinds of different number, and none
    /// at all.
    pub fn new(
        image_available: Vec<ash::vk::Semaphore>,
        render_finished: Vec<ash::vk::Semaphore>,
        fences: Vec<ash::vk::Fence>,
    ) -> (set: Option<FrameSyncSet>)
        ensures
            set is Some <==> 0 < fences.len() == image_available.len() == render_finished.len(),
            set matches Some(s) ==> s.wf() && s@ == SyncModel::fresh(
                image_available@,
                render_finished@,
                fences@,
            ),
    {
        let count: usize = fences.len();
        if count == 0 || image_available.len() != count || render_finished.len() != count {
            return None;
        }
        let mut slots: Vec<FrameSlot> = Vec::new();
        let mut states: Vec<FenceState> = Vec::new();
        let mut i: usize = 0;
        while i < count
            invariant
                count == fences.len() == image_available.len() == render_finished.len(),
                0 <= i <= count,
                slots.len() == i,
                states.len() == i,
                forall|j: int|
                    0 <= j < i ==> #[trigger] slots[j] == (FrameSlot {
                        image_available: image_available[j],
                        render_finished: render_finished[j],
                        in_flight: fences[j],
                    }),
                forall|j: int| 0 <= j < i ==> #[trigger] states[j] == FenceState::Signaled,
            decreases count - i,
        {
            slots.push(
                FrameSlot {
                    image_available: image_available[i],
                    render_finished: render_finished[i],
                    in_flight: fences[i],
                },
            );
            states.push(FenceState::Signaled);
            i += 1;
        }
        let set = FrameSyncSet { slots, states, current: 0, history: Ghost(Seq::empty()) };
        proof {
            let fresh = SyncModel::fresh(image_available@, render_finished@, fences@);
            assert(set@.slots =~= fresh.slots);
            assert(set@.states =~= fresh.states);
            lemma_fresh_set_is_signaled(image_available@, render_finished@, fences@);
        }
        Some(set)
    }

    /// The number of slots, which is the number of swapchain images.
    pub fn len(&self) -> (count: usize)
        ensures
            count == self@.count(),
    {
        self.slots.len()
    }

    /// The slot the next `advance` hands out.
    pub fn current(&self) -> (slot: SlotIndex)
        ensures
            slot.0 == self@.current,
    {
        SlotIndex(self.current)
    }

    /// The primitives of `slot`.
    pub fn slot(&self, slot: SlotIndex) -> (primitives: Option<FrameSlot>)
        ensures
            primitives == if slot.0 < self@.count() {
                Some(self@.slots[slot.0 as int])
            } else {
                None
            },
    {
        if slot.0 < self.slots.len() {
            Some(self.slots[slot.0])
        } else {
            None
        }
    }

    /// The state of the fence of `slot`.
    pub fn fence_state(&self, slot: SlotIndex) -> (state: Option<FenceState>)
        requires
            self.wf(),
        ensures
            state == if slot.0 < self@.count() {
                Some(self@.states[slot.0 as int])
            } else {
                None
            },
    {
        if slot.0 < self.slots.len() {
            Some(self.states[slot.0])
        } else {
            None
        }
    }

    /// Hands out the current slot and moves the cursor to the next one,
    /// back to the first after the last.
    pub fn advance(&mut self) -> (slot: SlotIndex)
        requires
            old(self).wf(),
        ensures
            final(self).wf(),
            slot.0 == old(self)@.current,
            final(self)@ == old(self)@.advanced(),
    {
        let slot = SlotIndex(self.current);
        assert(self.current < self.slots.len());
        self.current = (self.current + 1) % self.slots.len();
        slot
    }

    /// Records that the host has waited on the fence of `slot` and reset
    /// it. The wait is the backpressure that keeps the host from reusing
    /// what the device still reads. Refused, with nothing recorded, where
    /// the set has no such slot or where nothing would have signaled the
    /// fence.
    pub fn wait_and_reset(&mut self, slot: SlotIndex) -> (done: Result<(), SyncError>)
        requires
            old(self).wf(),
        ensures
            final(self).wf(),
            done == old(self)@.wait_outcome(slot),
            final(self)@ == if done is Ok {
                old(self)@.waited(slot.0 as int)
            } else {
                old(self)@
            },
    {
        if slot.0 >= self.slots.len() {
            return Err(SyncError::OutOfRange);
        }
        match self.states[slot.0] {
            FenceState::Unsignaled => {
                return Err(SyncError::NeverSignaled);
            },
            _ => {},
        }
        self.states[slot.0] = FenceState::Unsignaled;
        self.history = Ghost(self.history@.push(SyncOp::WaitedAndReset(slot.0 as int)));
        proof {
            lemma_waited_keeps_wf(old(self)@, slot.0 as int);
            assert(self@.states =~= old(self)@.waited(slot.0 as int).states);
        }
        Ok(())
    }

    /// Records that a submission armed the fence of `slot`. Refused, with
    /// nothing recorded, where the set has no such slot or where the fence
    /// has not been reset.
    pub fn arm(&mut self, slot: SlotIndex) -> (done: Result<(), SyncError>)
        requires
            old(self).wf(),
        ensures
            final(self).wf(),
            done == old(self)@.arm_outcome(slot),
            final(self)@ == if done is Ok {
                old(self)@.armed(slot.0 as int)
            } else {
                old(self)@
            },
    {
        if slot.0 >= self.slots.len() {
            return Err(SyncError::OutOfRange);
        }
        match self.states[slot.0] {
            FenceState::Unsignaled => {},
            _ => {
                return Err(SyncError::NotReset);
            },
        }
        self.states[slot.0] = FenceState::InFlight;
        self.history = Ghost(self.history@.push(SyncOp::Armed(slot.0 as int)));
        proof {
            lemma_armed_keeps_wf(old(self)@, slot.0 as int);
            assert(self@.states =~= old(self)@.armed(slot.0 as int).states);
        }
        Ok(())
    }

    /// Whether no submission is under way, as far as the set knows.
    pub fn is_idle(&self) -> (idle: bool)
        requires
            self.wf(),
        ensures
            idle == self@.idle(),
    {
        let mut i: usize = 0;
        while i < self.states.len()
            invariant
                0 <= i <= self.states.len(),
                forall|s: int| 0 <= s < i ==> !((#[trigger] self.states@[s]) is InFlight),
            decreases self.states.len() - i,
        {
            match self.states[i] {
                FenceState::InFlight => {
                    return false;
                },
                _ => {},
            }
            i += 1;
        }
        true
    }

    /// Records that the device has drained: whatever was in flight has
    /// retired and signaled its fence.
    pub fn mark_idle(&mut self)
        requires
            old(self).wf(),
        ensures
            final(self).wf(),
            final(self)@ == old(self)@.drained(),
            final(self)@.idle(),
    {
        let mut i: usize = 0;
        while i < self.states.len()
            invariant
                0 <= i <= self.states.len(),
                self.states.len() == old(self).states.len(),
                self.slots == old(self).slots,
                self.current == old(self).current,
                self.history == old(self).history,
                forall|s: int|
                    0 <= s < i ==> #[trigger] self.states@[s] == old(self)@.drained().states[s],
                forall|s: int|
                    i <= s < self.states.len() ==> #[trigger] self.states@[s] == old(
                        self,
                    ).states@[s],
            decreases self.states.len() - i,
        {
            match self.states[i] {
                FenceState::InFlight => {
                    self.states[i] = FenceState::Signaled;
                },
                _ => {},
            }
            i += 1;
        }
        proof {
            assert(self@.states =~= old(self)@.drained().states);
        }
    }

    /// Gives up the set: what the host has to destroy, in the order to
    /// destroy it, the reverse of the order of creation. Only for a set the
    /// device has stopped using.
    pub fn destroy(self) -> (releases: Vec<Resource>)
        requires
            self.wf(),
            self@.idle(),
        ensures
            releases@ == self@.creation_order().reverse(),
    {
        let count: usize = self.slots.len();
        let mut releases: Vec<Resource> = Vec::new();
        let mut i: usize = count;
        while i > 0
            invariant
                count == self.slots.len(),
                0 <= i <= count,
                releases.len() == count - i,
                forall|j: int|
                    0 <= j < count - i ==> #[trigger] releases[j] == Resource::Fence(
                        self.slots[count - 1 - j].in_flight,
                    ),
            decreases i,
        {
            i -= 1;
            releases.push(Resource::Fence(self.slots[i].in_flight));
        }
        i = count;
        while i > 0
            invariant
                count == self.slots.len(),
                0 <= i <= count,
                releases.len() == 2 * count - i,
                forall|j: int|
                    0 <= j < count ==> #[trigger] releases[j] == Resource::Fence(
                        self.slots[count - 1 - j].in_flight,
                    ),
                forall|j: int|
                    count <= j < 2 * count - i ==> #[trigger] releases[j] == Resource::Semaphore(
                        self.slots[2 * count - 1 - j].render_finished,
                    ),
            decreases i,
        {
            i -= 1;
            releases.push(Resource::Semaphore(self.slots[i].render_finished));
        }
        i = count;
        while i > 0
            invariant
                count == self.slots.len(),
                0 <= i <= count,
                releases.len() == 3 * count - i,
                forall|j: int|
                    0 <= j < count ==> #[trigger] releases[j] == Resource::Fence(
                        self.slots[count - 1 - j].in_flight,
                    ),
                forall|j: int|
                    count <= j < 2 * count ==> #[trigger] releases[j] == Resource::Semaphore(
                        self.slots[2 * count - 1 - j].render_finished,
                    ),
                forall|j: int|
                    2 * count <= j < 3 * count - i ==> #[trigger] releases[j]
                        == Resource::Semaphore(self.slots[3 * count - 1 - j].image_available),
            decreases i,
        {
            i -= 1;
            releases.push(Resource::Semaphore(self.slots[i].image_available));
        }
        proof {
            assert(releases@ =~= self@.creation_order().reverse());
        }
        releases
    }
}

/// A set made from fresh primitives is well formed, has one slot for each
/// fence, and every fence in it is signaled: a wait on any slot returns at
/// once.
pub proof fn lemma_fresh_set_is_signaled(
    image_available: Seq<ash::vk::Semaphore>,
    render_finished: Seq<ash::vk::Semaphore>,
    fences: Seq<ash::vk::Fence>,
)
    requires
        fences.len() > 0,
    ensures
        SyncModel::fresh(image_available, render_finished, fences).wf(),
        SyncModel::fresh(image_available, render_finished, fences).count() == fences.len(),
        forall|s: int|
            0 <= s < fences.len() ==> #[trigger] SyncModel::fresh(
                image_available,
                render_finished,
                fences,
            ).ready(s),
{
}

/// Waiting on a fence that something signals keeps the set well formed.
pub proof fn lemma_waited_keeps_wf(set: SyncModel, slot: int)
    requires
        set.wf(),
        set.can_wait(slot),
    ensures
        set.waited(slot).wf(),
{
    let next = set.waited(slot);
    assert(next.history.drop_last() =~= set.history);
    assert forall|s: int| 0 <= s < next.slots.len() implies ((#[trigger] next.states[s])
        is Unsignaled <==> unarmed(next.history, s)) by {
        if s != slot {
            assert(set.states[s] is Unsignaled <==> unarmed(set.history, s));
        }
    }
}

/// A drain keeps the set well formed and leaves nothing in flight.
pub proof fn lemma_drained_keeps_wf(set: SyncModel)
    requires
        set.wf(),
    ensures
        set.drained().wf(),
        set.drained().idle(),
        set.drained().creation_order() == set.creation_order(),
{
    let next = set.drained();
    assert forall|s: int| 0 <= s < next.slots.len() implies ((#[trigger] next.states[s])
        is Unsignaled <==> unarmed(next.history, s)) by {
        assert(set.states[s] is Unsignaled <==> unarmed(set.history, s));
    }
}

/// Arming a fence that was reset keeps the set well formed.
pub proof fn lemma_armed_keeps_wf(set: SyncModel, slot: int)
    requires
        set.wf(),
        set.can_arm(slot),
    ensures
        set.armed(slot).wf(),
{
    let next = set.armed(slot);
    assert(next.history.drop_last() =~= set.history);
    assert(set.states[slot] is Unsignaled <==> unarmed(set.history, slot));
    assert forall|s: int| 0 <= s < next.slots.len() implies ((#[trigger] next.states[s])
        is Unsignaled <==> unarmed(next.history, s)) by {
        if s != slot {
            assert(set.states[s] is Unsignaled <==> unarmed(set.history, s));
        }
    }
}

/// In a record that is in order, no fence is waited on twice without a
/// submission in between that arms it again.
pub proof fn lemma_no_wait_without_rearm(history: Seq<SyncOp>, slot: int, i: int, j: int)
    requires
        well_paced(history),
        0 <= i < j < history.len(),
        history[i] == SyncOp::WaitedAndReset(slot),
        history[j] == SyncOp::WaitedAndReset(slot),
    ensures
        exists|k: int| i < k < j && #[trigger] history[k] == SyncOp::Armed(slot),
    decreases history.len(),
{
    let shorter = history.drop_last();
    if j == history.len() - 1 {
        assert(!unarmed(shorter, slot));
        lemma_reset_then_armed(shorter, slot, i);
        let k = choose|k: int| i < k < shorter.len() && #[trigger] shorter[k] == SyncOp::Armed(slot);
        assert(history[k] == SyncOp::Armed(slot));
    } else {
        lemma_no_wait_without_rearm(shorter, slot, i, j);
        let k = choose|k: int| i < k < j && #[trigger] shorter[k] == SyncOp::Armed(slot);
        assert(history[k] == SyncOp::Armed(slot));
    }
}

/// Where a fence was reset at `i` and is armed or signaled at the end of
/// the record, a submission armed it after `i`.
proof fn lemma_reset_then_armed(history: Seq<SyncOp>, slot: int, i: int)
    requires
        0 <= i < history.len(),
        history[i] == SyncOp::WaitedAndReset(slot),
        !unarmed(history, slot),
    ensures
        exists|k: int| i < k < history.len() && #[trigger] history[k] == SyncOp::Armed(slot),
    decreases history.len(),
{
    let shorter = history.drop_last();
    let last = history.len() - 1;
    if history[last] == SyncOp::Armed(slot) {
        assert(i < last);
    } else {
        assert(i < last) by {
            if i == last {
                assert(unarmed(history, slot));
            }
        }
        assert(!unarmed(shorter, slot));
        lemma_reset_then_armed(shorter, slot, i);
        let k = choose|k: int| i < k < shorter.len() && #[trigger] shorter[k] == SyncOp::Armed(slot);
        assert(history[k] == SyncOp::Armed(slot));
    }
}

/// The `k`-th call of `advance` (counting from zero) hands out the slot
/// `k` places after the cursor, around the rotation.
pub proof fn lemma_advance_cycles(set: SyncModel, k: nat)
    requires
        set.wf(),
    ensures
        set.advanced_by(k).wf(),
        set.advanced_by(k).current == (set.current + k) % set.count(),
        set.advanced_by(k) == (SyncModel { current: set.advanced_by(k).current, ..set }),
    decreases k,
{
    let n = set.count();
    if k == 0 {
        lemma_small_mod(set.current as nat, n as nat);
    } else {
        lemma_advance_cycles(set, (k - 1) as nat);
        let before = set.advanced_by((k - 1) as nat);
        assert(before.count() == n);
        lemma_add_mod_noop_right(1, set.current + k - 1, n);
        lemma_mod_bound(before.current + 1, n);
    }
}

/// `count` calls of `advance` hand out every slot exactly once, in
/// rotation order, and the calls after them repeat the same round.
pub proof fn lemma_advance_visits_each_slot_once(set: SyncModel)
    requires
        set.wf(),
    ensures
        forall|i: nat, j: nat|
            i < j < set.count() ==> (#[trigger] set.advanced_by(i)).current != (
            #[trigger] set.advanced_by(j)).current,
        forall|s: int| 0 <= s < set.count() ==> #[trigger] set.round_reaches(s),
        forall|k: nat|
            (#[trigger] set.advanced_by(k + set.count() as nat)).current == set.advanced_by(
                k,
            ).current,
        forall|k: nat|
            (#[trigger] set.advanced_by(k + 1)).current == (set.advanced_by(k).current + 1)
                % set.count(),
{
    let n = set.count();
    assert forall|i: nat, j: nat| i < j < n implies (#[trigger] set.advanced_by(i)).current != (
    #[trigger] set.advanced_by(j)).current by {
        lemma_advance_cycles(set, i);
        lemma_advance_cycles(set, j);
        if (set.current + i) % n == (set.current + j) % n {
            lemma_mod_equivalence(set.current + j, set.current + i, n);
            lemma_small_mod((j - i) as nat, n as nat);
        }
    }
    assert forall|s: int| 0 <= s < n implies #[trigger] set.round_reaches(s) by {
        let i = ((s - set.current) % n) as nat;
        lemma_mod_bound(s - set.current, n);
        lemma_advance_cycles(set, i);
        lemma_add_mod_noop_right(set.current, s - set.current, n);
        lemma_small_mod(s as nat, n as nat);
        assert(set.advanced_by(i).current == s);
    }
    assert forall|k: nat|
        (#[trigger] set.advanced_by(k + n as nat)).current == set.advanced_by(k).current by {
        lemma_advance_cycles(set, k);
        lemma_advance_cycles(set, k + n as nat);
        lemma_mod_add_multiples_vanish(set.current + k, n);
    }
    assert forall|k: nat|
        (#[trigger] set.advanced_by(k + 1)).current == (set.advanced_by(k).current + 1) % n by {
        lemma_advance_cycles(set, k);
        assert(set.advanced_by((k + 1) as nat) == set.advanced_by(k).advanced());
    }
}

} // verus!
