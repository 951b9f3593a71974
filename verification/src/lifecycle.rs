//! The instance lifecycle state machine.
//!
//! An instance is driven from creation through initialization,
//! configuration, activation, and processing, and back down again; the
//! transitions are strictly ordered.  A driver that fails partway through
//! the build-up must still attempt every later teardown step in reverse
//! order, recording teardown failures without letting them stop the rest:
//! a loaded binary's destructor correctness typically depends on seeing a
//! complete, symmetric shutdown sequence.
//!
//! The embedding application performs the actual dispatch call for each
//! step and reports the status code back; every decision about ordering,
//! failure handling, and teardown lives here and is verified.

use vstd::prelude::*;

use crate::abi::K_RESULT_OK;
use crate::HostError;

verus! {

/// Operating state of an instance, from creation to release.
#[derive(Copy, Clone, PartialEq, Eq, Structural, Debug)]
pub enum LifecycleState {
    Created,
    Initialized,
    Configured,
    ActiveIdle,
    ActiveProcessing,
    Terminated,
    Released,
}

/// One lifecycle transition the host can ask of an instance.
#[derive(Copy, Clone, PartialEq, Eq, Structural, Debug)]
pub enum LifecycleOp {
    Initialize,
    SetupProcessing,
    ActivateBuses,
    SetActive(bool),
    SetProcessing(bool),
    Process,
    Terminate,
    Release,
}

/// The transition table: the state an operation leads to, or `None` when
/// the operation is not permitted in the given state (an ordering
/// violation, treated as a host programming error).
pub open spec fn lifecycle_next(s: LifecycleState, op: LifecycleOp) -> Option<LifecycleState> {
    match op {
        LifecycleOp::Initialize => if s is Created {
            Some(LifecycleState::Initialized)
        } else {
            None
        },
        LifecycleOp::SetupProcessing => if s is Initialized {
            Some(LifecycleState::Configured)
        } else {
            None
        },
        LifecycleOp::ActivateBuses => if s is Configured {
            Some(LifecycleState::Configured)
        } else {
            None
        },
        LifecycleOp::SetActive(on) => if on {
            if s is Configured {
                Some(LifecycleState::ActiveIdle)
            } else {
                None
            }
        } else {
            if s is ActiveIdle {
                Some(LifecycleState::Configured)
            } else {
                None
            }
        },
        LifecycleOp::SetProcessing(on) => if on {
            if s is ActiveIdle {
                Some(LifecycleState::ActiveProcessing)
            } else {
                None
            }
        } else {
            if s is ActiveProcessing {
                Some(LifecycleState::ActiveIdle)
            } else {
                None
            }
        },
        LifecycleOp::Process => if s is ActiveProcessing {
            Some(LifecycleState::ActiveProcessing)
        } else {
            None
        },
        LifecycleOp::Terminate => if s is Created || s is Initialized || s is Configured {
            Some(LifecycleState::Terminated)
        } else {
            None
        },
        LifecycleOp::Release => if !(s is Released) {
            Some(LifecycleState::Released)
        } else {
            None
        },
    }
}

/// The state an allowed operation leads to; the state itself when the
/// operation is not allowed.
pub open spec fn lifecycle_after(s: LifecycleState, op: LifecycleOp) -> LifecycleState {
    match lifecycle_next(s, op) {
        Some(t) => t,
        None => s,
    }
}

/// Computes the transition table entry for one state and operation.
pub fn lifecycle_step(s: LifecycleState, op: LifecycleOp) -> (r: Option<LifecycleState>)
    ensures
        r == lifecycle_next(s, op),
{
    match op {
        LifecycleOp::Initialize => if matches!(s, LifecycleState::Created) {
            Some(LifecycleState::Initialized)
        } else {
            None
        },
        LifecycleOp::SetupProcessing => if matches!(s, LifecycleState::Initialized) {
            Some(LifecycleState::Configured)
        } else {
            None
        },
        LifecycleOp::ActivateBuses => if matches!(s, LifecycleState::Configured) {
            Some(LifecycleState::Configured)
        } else {
            None
        },
        LifecycleOp::SetActive(on) => if on {
            if matches!(s, LifecycleState::Configured) {
                Some(LifecycleState::ActiveIdle)
            } else {
                None
            }
        } else {
            if matches!(s, LifecycleState::ActiveIdle) {
                Some(LifecycleState::Configured)
            } else {
                None
            }
        },
        LifecycleOp::SetProcessing(on) => if on {
            if matches!(s, LifecycleState::ActiveIdle) {
                Some(LifecycleState::ActiveProcessing)
            } else {
                None
            }
        } else {
            if matches!(s, LifecycleState::ActiveProcessing) {
                Some(LifecycleState::ActiveIdle)
            } else {
                None
            }
        },
        LifecycleOp::Process => if matches!(s, LifecycleState::ActiveProcessing) {
            Some(LifecycleState::ActiveProcessing)
        } else {
            None
        },
        LifecycleOp::Terminate => if matches!(
            s,
            LifecycleState::Created | LifecycleState::Initialized | LifecycleState::Configured,
        ) {
            Some(LifecycleState::Terminated)
        } else {
            None
        },
        LifecycleOp::Release => if !matches!(s, LifecycleState::Released) {
            Some(LifecycleState::Released)
        } else {
            None
        },
    }
}

/// The state a run of operations leads to when every step is permitted in
/// turn, or `None` when some step is an ordering violation.
pub open spec fn plan_runs_to(s: LifecycleState, ops: Seq<LifecycleOp>) -> Option<LifecycleState>
    decreases ops.len(),
{
    if ops.len() == 0 {
        Some(s)
    } else {
        match lifecycle_next(s, ops[0]) {
            Some(t) => plan_runs_to(t, ops.drop_first()),
            None => None,
        }
    }
}

/// The teardown steps still owed from a state, in reverse build-up order:
/// disable processing, deactivate, terminate, release.
pub open spec fn spec_teardown_ops(s: LifecycleState) -> Seq<LifecycleOp> {
    match s {
        LifecycleState::ActiveProcessing => seq![
            LifecycleOp::SetProcessing(false),
            LifecycleOp::SetActive(false),
            LifecycleOp::Terminate,
            LifecycleOp::Release,
        ],
        LifecycleState::ActiveIdle => seq![
            LifecycleOp::SetActive(false),
            LifecycleOp::Terminate,
            LifecycleOp::Release,
        ],
        LifecycleState::Created | LifecycleState::Initialized | LifecycleState::Configured => seq![
            LifecycleOp::Terminate,
            LifecycleOp::Release,
        ],
        LifecycleState::Terminated => seq![LifecycleOp::Release],
        LifecycleState::Released => Seq::empty(),
    }
}

/// Returns the teardown steps still owed from `s`.
pub fn teardown_ops(s: LifecycleState) -> (r: Vec<LifecycleOp>)
    ensures
        r@ == spec_teardown_ops(s),
{
    let r: Vec<LifecycleOp> = match s {
        LifecycleState::ActiveProcessing => vec![
            LifecycleOp::SetProcessing(false),
            LifecycleOp::SetActive(false),
            LifecycleOp::Terminate,
            LifecycleOp::Release,
        ],
        LifecycleState::ActiveIdle => vec![
            LifecycleOp::SetActive(false),
            LifecycleOp::Terminate,
            LifecycleOp::Release,
        ],
        LifecycleState::Created | LifecycleState::Initialized | LifecycleState::Configured => vec![
            LifecycleOp::Terminate,
            LifecycleOp::Release,
        ],
        LifecycleState::Terminated => vec![LifecycleOp::Release],
        LifecycleState::Released => Vec::new(),
    };
    proof {
        assert(r@ =~= spec_teardown_ops(s));
    }
    r
}

/// Law: from every state, the owed teardown steps are each permitted in
/// turn and end with the instance released.
pub proof fn lemma_teardown_reaches_released(s: LifecycleState)
    ensures
        plan_runs_to(s, spec_teardown_ops(s)) == Some(LifecycleState::Released),
{
    let e = Seq::<LifecycleOp>::empty();
    let rel = seq![LifecycleOp::Release];
    assert(rel.drop_first() =~= e);
    let term = seq![LifecycleOp::Terminate, LifecycleOp::Release];
    assert(term.drop_first() =~= rel);
    let deact = seq![LifecycleOp::SetActive(false), LifecycleOp::Terminate, LifecycleOp::Release];
    assert(deact.drop_first() =~= term);
    let stop = seq![
        LifecycleOp::SetProcessing(false),
        LifecycleOp::SetActive(false),
        LifecycleOp::Terminate,
        LifecycleOp::Release,
    ];
    assert(stop.drop_first() =~= deact);
    assert(plan_runs_to(LifecycleState::Released, e) == Some(LifecycleState::Released));
    assert(plan_runs_to(LifecycleState::Terminated, rel) == Some(LifecycleState::Released));
    match s {
        LifecycleState::ActiveProcessing => {
            assert(plan_runs_to(LifecycleState::Configured, term) == Some(
                LifecycleState::Released,
            ));
            assert(plan_runs_to(LifecycleState::ActiveIdle, deact) == Some(
                LifecycleState::Released,
            ));
            assert(plan_runs_to(s, stop) == Some(LifecycleState::Released));
        },
        LifecycleState::ActiveIdle => {
            assert(plan_runs_to(LifecycleState::Configured, term) == Some(
                LifecycleState::Released,
            ));
            assert(plan_runs_to(s, deact) == Some(LifecycleState::Released));
        },
        LifecycleState::Created | LifecycleState::Initialized | LifecycleState::Configured => {
            assert(plan_runs_to(s, term) == Some(LifecycleState::Released));
        },
        LifecycleState::Terminated => {},
        LifecycleState::Released => {},
    }
}

/// Decides what a factory's create call yielded.  Creation succeeds only
/// when the status reports success and the returned object pointer is
/// non-null; the new object's reference is then already held.  Any other
/// outcome surfaces the raw status code.
pub fn classify_created(status: i32, got_null: bool) -> (r: Result<(), HostError>)
    ensures
        r is Ok <==> status == K_RESULT_OK && !got_null,
        !(status == K_RESULT_OK && !got_null) ==> (r matches Err(e) && e matches HostError::TErr(c)
            && c == status),
{
    if status != K_RESULT_OK || got_null {
        Err(HostError::TErr(status))
    } else {
        Ok(())
    }
}

/// Decides what an identity query yielded.  The query succeeds only when
/// the status reports success and the output slot was filled with a
/// non-null pointer (one reference acquired on the same object); any other
/// outcome means the capability is not exposed.
pub fn classify_queried(status: i32, got_null: bool) -> (r: Result<(), HostError>)
    ensures
        r is Ok <==> status == K_RESULT_OK && !got_null,
        !(status == K_RESULT_OK && !got_null) ==> (r matches Err(e)
            && e matches HostError::NoInterface),
{
    if status != K_RESULT_OK || got_null {
        Err(HostError::NoInterface)
    } else {
        Ok(())
    }
}

/// Host-side record of one instance's operating state.
///
/// The embedding application makes the dispatch call for a transition and
/// feeds the status code back through [`Lifecycle::advance`]; the machine
/// refuses out-of-order transitions by precondition, as the interface
/// contract treats ordering violations as host programming errors.
pub struct Lifecycle {
    pub state: LifecycleState,
}

impl Lifecycle {
    /// A freshly created instance.
    pub fn new() -> (r: Self)
        ensures
            r.state == LifecycleState::Created,
    {
        Lifecycle { state: LifecycleState::Created }
    }

    /// Records the outcome of one transition's dispatch call.  On success
    /// the machine moves to the transition's target state; on failure it
    /// stays where it was and surfaces the raw status code.
    pub fn advance(&mut self, op: LifecycleOp, status: i32) -> (r: Result<(), HostError>)
        requires
            lifecycle_next(old(self).state, op) is Some,
        ensures
            status == K_RESULT_OK ==> r is Ok && final(self).state == lifecycle_after(
                old(self).state,
                op,
            ),
            status != K_RESULT_OK ==> (r matches Err(e) && e matches HostError::TErr(c) && c
                == status) && final(self).state == old(self).state,
    {
        if status == K_RESULT_OK {
            let target = match lifecycle_step(self.state, op) {
                Some(t) => t,
                None => self.state,
            };
            self.state = target;
            Ok(())
        } else {
            Err(HostError::TErr(status))
        }
    }
}

} // verus!
