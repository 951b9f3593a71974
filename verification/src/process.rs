//! The process-block driver's bookkeeping: per-stream configuration,
//! silence flags, allocation-free buffer reuse, and the full null-input
//! drive sequence with its best-effort teardown.
//!
//! The realtime path must not allocate and must issue exactly one process
//! call per block; everything decidable over plain values — what to
//! allocate, which step to make next, how a failure reroutes into teardown
//! — is stated and proved here, while the embedding application only
//! performs the dispatch calls and owns the sample memory.

use vstd::prelude::*;

use crate::abi::K_RESULT_OK;
use crate::lifecycle::{
    lifecycle_after, lifecycle_step, plan_runs_to, spec_teardown_ops, teardown_ops,
    LifecycleOp, LifecycleState,
};
use crate::HostError;

verus! {

/// Processing mode: realtime streaming.
pub const PROCESS_MODE_REALTIME: i32 = 0;

/// Processing mode: prefetch (offline look-ahead).
pub const PROCESS_MODE_PREFETCH: i32 = 1;

/// Symbolic sample-size code for 32-bit float samples.
pub const SYMBOLIC_SAMPLE_32: i32 = 0;

/// Symbolic sample-size code for 64-bit float samples.
pub const SYMBOLIC_SAMPLE_64: i32 = 1;

/// Sample width of a processing path.
#[derive(Copy, Clone, PartialEq, Eq, Structural, Debug)]
pub enum SampleWidth {
    Width32,
    Width64,
}

/// The symbolic sample-size code the interface standard assigns to a width.
pub fn symbolic_sample_size(w: SampleWidth) -> (r: i32)
    ensures
        w is Width32 ==> r == SYMBOLIC_SAMPLE_32,
        w is Width64 ==> r == SYMBOLIC_SAMPLE_64,
{
    match w {
        SampleWidth::Width32 => SYMBOLIC_SAMPLE_32,
        SampleWidth::Width64 => SYMBOLIC_SAMPLE_64,
    }
}

/// Per-stream configuration stated over plain values: mode, sample rate in
/// hertz, maximum block size in frames, sample width, and option flags.
/// The embedding application converts this verbatim into the fixed-layout
/// setup record the instance expects.
#[derive(Copy, Clone, PartialEq, Eq, Structural, Debug)]
pub struct ProcessSetupModel {
    pub process_mode: i32,
    pub sample_rate_hz: u32,
    pub max_samples_per_block: u32,
    pub width: SampleWidth,
    pub flags: i32,
}

/// The configuration a null-input drive uses: realtime mode, the given
/// rate, block size, and width, and no option flags.
pub fn null_process_setup(sample_rate_hz: u32, frames: u32, width: SampleWidth) -> (r:
    ProcessSetupModel)
    ensures
        r.process_mode == PROCESS_MODE_REALTIME,
        r.sample_rate_hz == sample_rate_hz,
        r.max_samples_per_block == frames,
        r.width == width,
        r.flags == 0,
{
    ProcessSetupModel {
        process_mode: PROCESS_MODE_REALTIME,
        sample_rate_hz,
        max_samples_per_block: frames,
        width,
        flags: 0,
    }
}

/// Silence flags with one bit per addressable channel.
///
/// Bit `c` is set exactly for the channels `c < channels` when all
/// channels are addressable; the mask holds 64 bits, so for a channel
/// count of 64 or more no channel is flagged silent — flagging only some
/// would falsely silence the channels the mask cannot address.
pub fn silence_flags(channels: u32) -> (r: u64)
    ensures
        channels >= 64 ==> r == 0,
        channels < 64 ==> r == (1u64 << channels as u64) - 1,
        forall|c: u64|
            c < 64 ==> #[trigger] ((r >> c) & 1) == (if c < channels && channels < 64 {
                1u64
            } else {
                0u64
            }),
{
    if channels >= 64 {
        proof {
            assert forall|c: u64| c < 64 implies ((0u64 >> c) & 1) == 0u64 by {
                assert((0u64 >> c) & 1 == 0u64) by (bit_vector);
            }
        }
        0
    } else {
        let sh = channels as u64;
        proof {
            assert(1u64 << sh >= 1) by (bit_vector)
                requires
                    sh < 64,
            ;
        }
        let r = (1u64 << sh) - 1;
        proof {
            assert forall|c: u64| c < 64 implies ((r >> c) & 1) == (if c < sh {
                1u64
            } else {
                0u64
            }) by {
                assert((r >> c) & 1 == (if c < sh {
                    1u64
                } else {
                    0u64
                })) by (bit_vector)
                    requires
                        sh < 64,
                        c < 64,
                        r == (1u64 << sh) - 1,
                ;
            }
        }
        r
    }
}

/// Shape of the pre-allocated output buffers: how many channel buffers,
/// each of how many frames.
#[derive(Copy, Clone, PartialEq, Eq, Structural, Debug)]
pub struct BlockShape {
    pub channels: u32,
    pub frames: u32,
}

/// Allocation bookkeeping for the realtime path.  Sample memory is
/// allocated once up front for a shape and reused for every further block
/// of that shape, so steady-state streaming allocates nothing.
pub struct BufferPlan {
    pub shape: Option<BlockShape>,
}

/// Whether preparing `shape` on `plan` must allocate: only when the plan
/// does not already hold buffers of exactly that shape.
pub open spec fn prepare_allocates(plan: BufferPlan, shape: BlockShape) -> bool {
    plan.shape != Some(shape)
}

impl BufferPlan {
    /// A plan holding no buffers yet.
    pub fn new() -> (r: Self)
        ensures
            r.shape is None,
    {
        BufferPlan { shape: None }
    }

    /// Decides whether buffers must be (re)allocated for a block of
    /// `shape`; afterwards the plan holds buffers of exactly that shape.
    pub fn prepare(&mut self, shape: BlockShape) -> (alloc_needed: bool)
        ensures
            alloc_needed == prepare_allocates(*old(self), shape),
            final(self).shape == Some(shape),
    {
        let need = match &self.shape {
            Some(s) => !(s.channels == shape.channels && s.frames == shape.frames),
            None => true,
        };
        self.shape = Some(shape);
        need
    }
}

/// How many of the blocks of `shapes`, driven in order from `plan`, would
/// allocate.
pub open spec fn alloc_count(plan: BufferPlan, shapes: Seq<BlockShape>) -> int
    decreases shapes.len(),
{
    if shapes.len() == 0 {
        0int
    } else {
        (if prepare_allocates(plan, shapes[0]) {
            1int
        } else {
            0int
        }) + alloc_count(BufferPlan { shape: Some(shapes[0]) }, shapes.drop_first())
    }
}

/// Law: a run of blocks of one common shape allocates at most once — at
/// the first block — and not at all when the plan already holds buffers of
/// that shape; after the first block the stream is allocation-free.
pub proof fn lemma_steady_state_no_alloc(plan: BufferPlan, shapes: Seq<BlockShape>, s: BlockShape)
    requires
        forall|i: int| 0 <= i < shapes.len() ==> shapes[i] == s,
    ensures
        alloc_count(plan, shapes) <= 1,
        plan.shape == Some(s) ==> alloc_count(plan, shapes) == 0,
    decreases shapes.len(),
{
    if shapes.len() > 0 {
        assert(shapes[0] == s);
        assert forall|i: int| 0 <= i < shapes.drop_first().len() implies shapes.drop_first()[i]
            == s by {
            assert(shapes.drop_first()[i] == shapes[i + 1]);
        }
        lemma_steady_state_no_alloc(BufferPlan { shape: Some(s) }, shapes.drop_first(), s);
    }
}

/// The steps of a full null-input drive, build-up through symmetric
/// shutdown: initialize, configure, activate buses, activate, start
/// processing, process one block, stop processing, deactivate, terminate,
/// release.
pub open spec fn spec_full_drive_plan() -> Seq<LifecycleOp> {
    seq![
        LifecycleOp::Initialize,
        LifecycleOp::SetupProcessing,
        LifecycleOp::ActivateBuses,
        LifecycleOp::SetActive(true),
        LifecycleOp::SetProcessing(true),
        LifecycleOp::Process,
        LifecycleOp::SetProcessing(false),
        LifecycleOp::SetActive(false),
        LifecycleOp::Terminate,
        LifecycleOp::Release,
    ]
}

/// Law: the full drive plan is permitted step by step from a freshly
/// created instance and ends with the instance released.
pub proof fn lemma_full_drive_plan_runs()
    ensures
        plan_runs_to(LifecycleState::Created, spec_full_drive_plan()) == Some(
            LifecycleState::Released,
        ),
{
    let p = spec_full_drive_plan();
    let p1 = p.drop_first();
    let p2 = p1.drop_first();
    let p3 = p2.drop_first();
    let p4 = p3.drop_first();
    let p5 = p4.drop_first();
    crate::lifecycle::lemma_teardown_reaches_released(LifecycleState::ActiveProcessing);
    assert(p5 =~= seq![
        LifecycleOp::Process,
        LifecycleOp::SetProcessing(false),
        LifecycleOp::SetActive(false),
        LifecycleOp::Terminate,
        LifecycleOp::Release,
    ]);
    assert(p5.drop_first() =~= spec_teardown_ops(LifecycleState::ActiveProcessing));
    assert(plan_runs_to(LifecycleState::ActiveProcessing, p5) == Some(LifecycleState::Released));
    assert(plan_runs_to(LifecycleState::ActiveIdle, p4) == Some(LifecycleState::Released));
    assert(plan_runs_to(LifecycleState::Configured, p3) == Some(LifecycleState::Released));
    assert(plan_runs_to(LifecycleState::Configured, p2) == Some(LifecycleState::Released));
    assert(plan_runs_to(LifecycleState::Initialized, p1) == Some(LifecycleState::Released));
    assert(plan_runs_to(LifecycleState::Created, p) == Some(LifecycleState::Released));
}

/// An operation that is part of shutting down rather than building up.  A
/// failed shutdown step is never retried; a failed build-up step makes the
/// driver tear down what was built.
pub open spec fn spec_is_teardown_op(op: LifecycleOp) -> bool {
    op == LifecycleOp::SetProcessing(false) || op == LifecycleOp::SetActive(false) || op
        == LifecycleOp::Terminate || op == LifecycleOp::Release
}

/// Whether `op` is a shutdown step.
pub fn is_teardown_op(op: LifecycleOp) -> (r: bool)
    ensures
        r == spec_is_teardown_op(op),
{
    match op {
        LifecycleOp::SetProcessing(on) => !on,
        LifecycleOp::SetActive(on) => !on,
        LifecycleOp::Terminate => true,
        LifecycleOp::Release => true,
        _ => false,
    }
}

/// Driver of one full null-input drive: it decides the next dispatch call
/// to make, consumes the status codes the embedding application reports,
/// and reroutes into best-effort teardown on the first failure, recording
/// later teardown failures without letting them stop the remaining steps.
pub struct NullDrive {
    /// Operating state the instance has reached.
    pub state: LifecycleState,
    /// The steps still owed, from `next` on.
    pub plan: Vec<LifecycleOp>,
    /// Index of the next step of `plan` to perform.
    pub next: usize,
    /// Whether the driver is in its shutdown phase after a failure.
    pub tearing_down: bool,
    /// Status code of the step that first failed, if any.
    pub first_failure: Option<i32>,
    /// Status codes of shutdown steps that failed; recorded, not escalated.
    pub teardown_failures: Vec<i32>,
}

impl NullDrive {
    /// The driver's invariant: the steps still owed are each permitted in
    /// turn and end with the instance released, and a failure is on record
    /// exactly from the moment the driver turned to teardown.
    pub open spec fn wf(self) -> bool {
        &&& self.next <= self.plan@.len()
        &&& plan_runs_to(self.state, self.plan@.skip(self.next as int)) == Some(
            LifecycleState::Released,
        )
        &&& (!self.tearing_down ==> self.first_failure is None && self.teardown_failures@.len()
            == 0)
        &&& (self.tearing_down ==> self.first_failure is Some)
    }

    /// A driver for a freshly created instance, with the full drive ahead.
    pub fn new() -> (r: Self)
        ensures
            r.wf(),
            r.state == LifecycleState::Created,
            r.plan@ == spec_full_drive_plan(),
            r.next == 0,
            !r.tearing_down,
            r.first_failure is None,
            r.teardown_failures@.len() == 0,
    {
        let plan: Vec<LifecycleOp> = vec![
            LifecycleOp::Initialize,
            LifecycleOp::SetupProcessing,
            LifecycleOp::ActivateBuses,
            LifecycleOp::SetActive(true),
            LifecycleOp::SetProcessing(true),
            LifecycleOp::Process,
            LifecycleOp::SetProcessing(false),
            LifecycleOp::SetActive(false),
            LifecycleOp::Terminate,
            LifecycleOp::Release,
        ];
        proof {
            assert(plan@ =~= spec_full_drive_plan());
            lemma_full_drive_plan_runs();
            assert(plan@.skip(0) =~= plan@);
        }
        NullDrive {
            state: LifecycleState::Created,
            plan,
            next: 0,
            tearing_down: false,
            first_failure: None,
            teardown_failures: Vec::new(),
        }
    }

    /// The next dispatch call to make, or `None` when the drive is over.
    pub fn next_op(&self) -> (r: Option<LifecycleOp>)
        ensures
            r is Some <==> self.next < self.plan@.len(),
            r matches Some(op) ==> op == self.plan@[self.next as int],
    {
        if self.next < self.plan.len() {
            Some(self.plan[self.next])
        } else {
            None
        }
    }

    /// Consumes the status the pending step's dispatch call returned.
    ///
    /// On success the driver moves to the step's target state and on to the
    /// next step.  The first failure puts the driver into its shutdown
    /// phase: the steps still owed become the teardown owed from where the
    /// drive actually got (a failed shutdown step is not retried).  A
    /// failure during shutdown is recorded and the remaining steps are
    /// still attempted.
    pub fn report(&mut self, status: i32)
        requires
            old(self).wf(),
            old(self).next < old(self).plan@.len(),
        ensures
            final(self).wf(),
            ({
                let op = old(self).plan@[old(self).next as int];
                let target = lifecycle_after(old(self).state, op);
                &&& (status == K_RESULT_OK ==> *final(self) == NullDrive {
                    state: target,
                    next: (old(self).next + 1) as usize,
                    ..*old(self)
                })
                &&& (status != K_RESULT_OK && !old(self).tearing_down ==> {
                    &&& final(self).tearing_down
                    &&& final(self).first_failure == Some(status)
                    &&& final(self).next == 0
                    &&& final(self).state == (if spec_is_teardown_op(op) {
                        target
                    } else {
                        old(self).state
                    })
                    &&& final(self).plan@ == spec_teardown_ops(final(self).state)
                    &&& final(self).teardown_failures == old(self).teardown_failures
                })
                &&& (status != K_RESULT_OK && old(self).tearing_down ==> *final(self) == NullDrive {
                    state: target,
                    next: (old(self).next + 1) as usize,
                    teardown_failures: final(self).teardown_failures,
                    ..*old(self)
                } && final(self).teardown_failures@ == old(self).teardown_failures@.push(status))
            }),
    {
        let plan_len = self.plan.len();
        let op = self.plan[self.next];
        proof {
            assert(self.next < plan_len);
            assert(self.plan@.skip(self.next as int)[0] == op);
            assert(self.plan@.skip(self.next as int).drop_first() =~= self.plan@.skip(
                self.next as int + 1,
            ));
        }
        let target = match lifecycle_step(self.state, op) {
            Some(t) => t,
            None => {
                proof {
                    assert(false);
                }
                self.state
            },
        };
        if status == K_RESULT_OK {
            self.state = target;
            self.next = self.next + 1;
        } else if !self.tearing_down {
            self.first_failure = Some(status);
            self.tearing_down = true;
            if is_teardown_op(op) {
                self.state = target;
            }
            self.plan = teardown_ops(self.state);
            self.next = 0;
            proof {
                crate::lifecycle::lemma_teardown_reaches_released(self.state);
                assert(self.plan@.skip(0) =~= self.plan@);
            }
        } else {
            self.teardown_failures.push(status);
            self.state = target;
            self.next = self.next + 1;
        }
    }

    /// When the drive is over the instance has been released.
    pub proof fn lemma_done_released(self)
        requires
            self.wf(),
            self.next == self.plan@.len(),
        ensures
            self.state == LifecycleState::Released,
    {
        assert(self.plan@.skip(self.next as int) =~= Seq::<LifecycleOp>::empty());
    }

    /// The drive's overall outcome: success, or the first failure's raw
    /// status code.  Meaningful once the drive is over.
    pub fn result(&self) -> (r: Result<(), HostError>)
        ensures
            self.first_failure matches Some(c) ==> (r matches Err(e) && e matches HostError::TErr(
                code,
            ) && code == c),
            self.first_failure is None ==> r is Ok,
    {
        match self.first_failure {
            Some(c) => Err(HostError::TErr(c)),
            None => Ok(()),
        }
    }
}

} // verus!
