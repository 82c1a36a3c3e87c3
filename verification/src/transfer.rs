//! How a transmission goes to the controller: which device to talk to, and
//! the order of writes and read-backs.
//!
//! The blocks are written one by one, in their order. After six of them the
//! controller offers a feature report, which has to be read back before the
//! next block is written. A failure ends the transfer.

use vstd::prelude::*;
use crate::report::BLOCK_COUNT;

verus! {

/// The feature report that polls a device: report id 0 and the poll marker.
pub fn poll_report() -> (report: [u8; 3])
    ensures
        report@ == seq![0u8, 0x04u8, 0x18u8],
{
    let report = [0x00, 0x04, 0x18];
    assert(report@ =~= seq![0u8, 0x04u8, 0x18u8]);
    report
}

/// The positions of the devices with the wanted ids in a list of devices,
/// in the order of the list. Each device is given by its product id and its
/// vendor id.
pub fn matching_devices(devices: &Vec<(u16, u16)>, pid: u16, vid: u16) -> (found: Vec<usize>)
    ensures
        forall|n: int| 0 <= n < found@.len() ==> 0 <= #[trigger] found@[n] < devices@.len(),
        forall|n: int| 0 <= n < found@.len() ==> devices@[#[trigger] found@[n] as int] == (pid, vid),
        forall|m: int, n: int| 0 <= m < n < found@.len() ==> found@[m] < found@[n],
        forall|i: int|
            0 <= i < devices@.len() && #[trigger] devices@[i] == (pid, vid) ==> found@.contains(
                i as usize,
            ),
{
    let mut found: Vec<usize> = Vec::new();
    let mut i: usize = 0;
    while i < devices.len()
        invariant
            i <= devices@.len(),
            forall|n: int| 0 <= n < found@.len() ==> 0 <= #[trigger] found@[n] < i,
            forall|n: int|
                0 <= n < found@.len() ==> devices@[#[trigger] found@[n] as int] == (pid, vid),
            forall|m: int, n: int| 0 <= m < n < found@.len() ==> found@[m] < found@[n],
            forall|k: int|
                0 <= k < i && #[trigger] devices@[k] == (pid, vid) ==> found@.contains(k as usize),
        decreases devices@.len() - i,
    {
        let (product_id, vendor_id) = devices[i];
        if product_id == pid && vendor_id == vid {
            let ghost before = found@;
            found.push(i);
            proof {
                assert(found@[before.len() as int] == i);
                assert forall|k: int|
                    0 <= k < i + 1 && #[trigger] devices@[k] == (pid, vid) implies found@.contains(
                    k as usize,
                ) by {
                    if k < i {
                        let n = before.index_of(k as usize);
                        assert(found@[n] == k as usize);
                    }
                }
            }
        }
        i += 1;
    }
    found
}

/// Whether a feature report has to be read back after the given block.
pub open spec fn spec_needs_read_back(block: int) -> bool {
    block == 0 || block == 1 || block == 3 || block == 4 || block == 23 || block == 25
}

/// Whether a feature report has to be read back after the given block.
pub fn needs_read_back(block: usize) -> (needed: bool)
    ensures
        needed == spec_needs_read_back(block as int),
{
    block == 0 || block == 1 || block == 3 || block == 4 || block == 23 || block == 25
}

/// The blocks in the order of their transmission, each with the answer to
/// whether a feature report is read back after it.
pub fn transmission_plan() -> (plan: Vec<(usize, bool)>)
    ensures
        plan@.len() == BLOCK_COUNT,
        forall|block: int|
            0 <= block < BLOCK_COUNT ==> #[trigger] plan@[block] == (
                block as usize,
                spec_needs_read_back(block),
            ),
{
    let mut plan: Vec<(usize, bool)> = Vec::new();
    let mut block: usize = 0;
    while block < BLOCK_COUNT
        invariant
            block <= BLOCK_COUNT,
            plan@.len() == block,
            forall|b: int|
                0 <= b < block ==> #[trigger] plan@[b] == (b as usize, spec_needs_read_back(b)),
        decreases BLOCK_COUNT - block,
    {
        plan.push((block, needs_read_back(block)));
        block += 1;
    }
    plan
}

/// What a transfer does next.
#[derive(Clone, Copy, Debug, PartialEq, Eq, Structural)]
pub enum Step {
    /// Write the block with this number.
    Write(usize),
    /// Read back the feature report that follows the block with this number.
    ReadBack(usize),
    /// Every block was written: the transfer is complete.
    Finished,
    /// The transfer failed at the block with this number and goes no further.
    Aborted(usize),
}

impl Step {
    /// The first step of a transfer: the write of block 0.
    pub open spec fn spec_first() -> Step {
        Step::Write(0)
    }

    /// The step that follows the work on `block`: the write of the next
    /// block, or the end of the transfer behind the last one.
    pub open spec fn after(block: usize) -> Step {
        if block < BLOCK_COUNT - 1 {
            Step::Write((block + 1) as usize)
        } else {
            Step::Finished
        }
    }

    /// The step that follows this one, given whether this one succeeded.
    pub open spec fn spec_next(self, succeeded: bool) -> Step {
        match self {
            Step::Write(block) => if !succeeded {
                Step::Aborted(block)
            } else if spec_needs_read_back(block as int) {
                Step::ReadBack(block)
            } else {
                Step::after(block)
            },
            Step::ReadBack(block) => if !succeeded {
                Step::Aborted(block)
            } else {
                Step::after(block)
            },
            Step::Finished => Step::Finished,
            Step::Aborted(block) => Step::Aborted(block),
        }
    }

    /// Whether there is work left to do at this step.
    pub open spec fn pending(self) -> bool {
        self is Write || self is ReadBack
    }

    /// An upper bound on the number of steps that a transfer still takes
    /// from this step on.
    pub open spec fn steps_left(self) -> nat {
        match self {
            Step::Write(block) => if block < BLOCK_COUNT {
                (2 * (BLOCK_COUNT - block)) as nat
            } else {
                1
            },
            Step::ReadBack(block) => if block < BLOCK_COUNT {
                (2 * (BLOCK_COUNT - block) - 1) as nat
            } else {
                1
            },
            Step::Finished => 0,
            Step::Aborted(_) => 0,
        }
    }

    /// The first step of a transfer: the write of block 0.
    #[verifier::when_used_as_spec(spec_first)]
    pub fn first() -> (step: Step)
        ensures
            step == Step::spec_first(),
    {
        Step::Write(0)
    }

    /// The step that follows this one, given whether this one succeeded.
    #[verifier::when_used_as_spec(spec_next)]
    pub fn next(self, succeeded: bool) -> (step: Step)
        ensures
            step == self.spec_next(succeeded),
    {
        match self {
            Step::Write(block) => {
                if !succeeded {
                    Step::Aborted(block)
                } else if needs_read_back(block) {
                    Step::ReadBack(block)
                } else if block < BLOCK_COUNT - 1 {
                    Step::Write(block + 1)
                } else {
                    Step::Finished
                }
            },
            Step::ReadBack(block) => {
                if !succeeded {
                    Step::Aborted(block)
                } else if block < BLOCK_COUNT - 1 {
                    Step::Write(block + 1)
                } else {
                    Step::Finished
                }
            },
            Step::Finished => Step::Finished,
            Step::Aborted(block) => Step::Aborted(block),
        }
    }

    /// Every step brings a transfer closer to its end, so a transfer ends
    /// after 52 steps at most.
    pub proof fn lemma_next_makes_progress(self, succeeded: bool)
        requires
            self.pending(),
        ensures
            self.spec_next(succeeded).steps_left() < self.steps_left(),
            Step::spec_first().steps_left() == 52,
    {
    }

    /// A failure ends the transfer at once, at the block it happened at; an
    /// ended transfer stays as it is.
    pub proof fn lemma_failure_aborts(self)
        ensures
            self matches Step::Write(block) ==> self.spec_next(false) == Step::Aborted(block),
            self matches Step::ReadBack(block) ==> self.spec_next(false) == Step::Aborted(block),
            !self.pending() ==> self.spec_next(true) == self && self.spec_next(false) == self,
    {
    }
}

/// The step that a transfer is at after `n` steps that all succeeded.
pub open spec fn undisturbed(n: nat) -> Step
    decreases n,
{
    if n == 0 {
        Step::spec_first()
    } else {
        undisturbed((n - 1) as nat).spec_next(true)
    }
}

/// The number of read-backs that come before the write of `block`.
pub open spec fn read_backs_before(block: int) -> int
    decreases block,
{
    if block <= 0 {
        0
    } else if spec_needs_read_back(block - 1) {
        read_backs_before(block - 1) + 1
    } else {
        read_backs_before(block - 1)
    }
}

/// A transfer in which nothing fails writes every block, in the order of the
/// block numbers: block `b` is written after the `b` writes and the
/// read-backs that precede it.
pub proof fn lemma_every_block_written(block: int)
    requires
        0 <= block < BLOCK_COUNT,
    ensures
        0 <= read_backs_before(block) <= block,
        undisturbed((block + read_backs_before(block)) as nat) == Step::Write(block as usize),
    decreases block,
{
    if block > 0 {
        let prev = block - 1;
        lemma_every_block_written(prev);
        let at = (prev + read_backs_before(prev)) as nat;
        assert(undisturbed(at) == Step::Write(prev as usize));
        assert(undisturbed(at + 1) == undisturbed(at).spec_next(true));
        if spec_needs_read_back(prev) {
            assert(undisturbed(at + 1) == Step::ReadBack(prev as usize));
            assert(undisturbed(at + 2) == undisturbed(at + 1).spec_next(true));
        }
    }
}

/// A transfer in which nothing fails is complete after 32 steps: 26 writes
/// and 6 read-backs.
pub proof fn lemma_undisturbed_finishes()
    ensures
        read_backs_before(BLOCK_COUNT as int) == 6,
        undisturbed(32) == Step::Finished,
{
    reveal_with_fuel(read_backs_before, 27);
    lemma_every_block_written(25);
    assert(read_backs_before(25) == 5);
    assert(undisturbed(30) == Step::Write(25));
    assert(undisturbed(31) == undisturbed(30).spec_next(true));
    assert(undisturbed(32) == undisturbed(31).spec_next(true));
}

} // verus!
