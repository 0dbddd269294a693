//! The execution oracle protocol.
//!
//! One oracle run drives a program through the target machine's
//! create → load → execute → destroy lifecycle and classifies the outcome.
//! The target itself is an opaque foreign component, so the protocol is a
//! state machine: the state names the lifecycle operation the driver must
//! perform next, and `oracle_step` consumes the outcome the driver reports
//! back. Every accepted run destroys exactly as many instances as it creates,
//! on every path, the early load-rejection path included.

use vstd::prelude::*;

verus! {

/// A recoverable failure of one oracle run.
#[derive(Clone, Debug, PartialEq, Eq)]
pub enum OracleError {
    /// The target's own validator refused the program; carries the
    /// validator's message.
    LoadRejected(String),
    /// The target's run-time reported a non-zero completion status; the
    /// output value is not to be trusted.
    ExecutionFailed,
}

/// The protocol position of one oracle run. Each non-final state names the
/// lifecycle operation the driver performs next.
#[derive(Debug, PartialEq, Eq)]
pub enum OracleState {
    /// Create one machine instance.
    AwaitCreate,
    /// Load the program's raw bytes into the instance.
    AwaitLoad,
    /// Execute the loaded program against a scratch region.
    AwaitExec,
    /// Destroy the instance; the verdict is already settled.
    AwaitDestroy(Result<u64, OracleError>),
    /// The run is over and the instance is gone.
    Complete(Result<u64, OracleError>),
}

/// What the driver reports back after performing the requested operation.
#[derive(Clone, Debug, PartialEq, Eq)]
pub enum OracleEvent {
    /// The instance was created.
    CreateDone,
    /// Load returned `status`; `message` is the validator's message, valid
    /// only when `status` is negative.
    LoadDone { status: i32, message: String },
    /// Execute returned `status`; `value` is the machine's result register,
    /// valid only when `status` is zero.
    ExecDone { status: i32, value: u64 },
    /// The instance was destroyed.
    DestroyDone,
}

/// The fixed size, in bytes, of the scratch memory region handed to the
/// target's execute entry point.
pub const STACK_SIZE: usize = 8092;

/// Allocates the zero-initialized scratch region that serves as the
/// program's addressable context/stack during one execution. The region is
/// owned solely by the run that allocated it.
pub fn scratch_region() -> (v: Vec<u8>)
    ensures
        v@.len() == STACK_SIZE,
        forall|i: int| 0 <= i < v@.len() ==> v@[i] == 0u8,
{
    let mut v: Vec<u8> = Vec::new();
    let mut i: usize = 0;
    while i < STACK_SIZE
        invariant
            i <= STACK_SIZE,
            v@.len() == i,
            forall|k: int| 0 <= k < i ==> v@[k] == 0u8,
        decreases STACK_SIZE - i,
    {
        v.push(0);
        i += 1;
    }
    v
}

/// The protocol's transition function. A negative load status settles the
/// verdict as `LoadRejected` and still routes through destruction; a
/// non-zero execution status settles it as `ExecutionFailed`; in either
/// final path the instance is destroyed before the run completes. An event
/// the state does not expect changes nothing.
pub open spec fn oracle_step_spec(s: OracleState, e: OracleEvent) -> OracleState {
    match (s, e) {
        (OracleState::AwaitCreate, OracleEvent::CreateDone) => OracleState::AwaitLoad,
        (OracleState::AwaitLoad, OracleEvent::LoadDone { status, message }) => if status < 0 {
            OracleState::AwaitDestroy(Err(OracleError::LoadRejected(message)))
        } else {
            OracleState::AwaitExec
        },
        (OracleState::AwaitExec, OracleEvent::ExecDone { status, value }) => if status == 0 {
            OracleState::AwaitDestroy(Ok(value))
        } else {
            OracleState::AwaitDestroy(Err(OracleError::ExecutionFailed))
        },
        (OracleState::AwaitDestroy(v), OracleEvent::DestroyDone) => OracleState::Complete(v),
        (other, _) => other,
    }
}

/// Whether `e` is the event the protocol expects in state `s`.
pub open spec fn oracle_expects(s: OracleState, e: OracleEvent) -> bool {
    match (s, e) {
        (OracleState::AwaitCreate, OracleEvent::CreateDone) => true,
        (OracleState::AwaitLoad, OracleEvent::LoadDone { .. }) => true,
        (OracleState::AwaitExec, OracleEvent::ExecDone { .. }) => true,
        (OracleState::AwaitDestroy(_), OracleEvent::DestroyDone) => true,
        (_, _) => false,
    }
}

/// Advances one oracle run by the event the driver reports.
pub fn oracle_step(s: OracleState, e: OracleEvent) -> (t: OracleState)
    ensures
        t == oracle_step_spec(s, e),
{
    match (s, e) {
        (OracleState::AwaitCreate, OracleEvent::CreateDone) => OracleState::AwaitLoad,
        (OracleState::AwaitLoad, OracleEvent::LoadDone { status, message }) => {
            if status < 0 {
                OracleState::AwaitDestroy(Err(OracleError::LoadRejected(message)))
            } else {
                OracleState::AwaitExec
            }
        },
        (OracleState::AwaitExec, OracleEvent::ExecDone { status, value }) => {
            if status == 0 {
                OracleState::AwaitDestroy(Ok(value))
            } else {
                OracleState::AwaitDestroy(Err(OracleError::ExecutionFailed))
            }
        },
        (OracleState::AwaitDestroy(v), OracleEvent::DestroyDone) => OracleState::Complete(v),
        (other, _) => other,
    }
}

/// The state reached by folding the events of a run over the protocol.
pub open spec fn run_steps(s: OracleState, events: Seq<OracleEvent>) -> OracleState
    decreases events.len(),
{
    if events.len() == 0 {
        s
    } else {
        run_steps(oracle_step_spec(s, events[0]), events.drop_first())
    }
}

/// Whether every event of the run is the one its state expects.
pub open spec fn valid_run_from(s: OracleState, events: Seq<OracleEvent>) -> bool
    decreases events.len(),
{
    events.len() == 0 || (oracle_expects(s, events[0]) && valid_run_from(
        oracle_step_spec(s, events[0]),
        events.drop_first(),
    ))
}

/// How many create acknowledgements the run contains.
pub open spec fn count_creates(events: Seq<OracleEvent>) -> int
    decreases events.len(),
{
    if events.len() == 0 {
        0
    } else {
        (if events[0] is CreateDone {
            1int
        } else {
            0int
        }) + count_creates(events.drop_first())
    }
}

/// How many destroy acknowledgements the run contains.
pub open spec fn count_destroys(events: Seq<OracleEvent>) -> int
    decreases events.len(),
{
    if events.len() == 0 {
        0
    } else {
        (if events[0] is DestroyDone {
            1int
        } else {
            0int
        }) + count_destroys(events.drop_first())
    }
}

/// How many destroys the state still owes: one from creation until the
/// instance is gone, zero before creation and after completion.
pub open spec fn pending_destroys(s: OracleState) -> int {
    match s {
        OracleState::AwaitCreate => 0,
        OracleState::AwaitLoad => 1,
        OracleState::AwaitExec => 1,
        OracleState::AwaitDestroy(_) => 1,
        OracleState::Complete(_) => 0,
    }
}

/// Along any expected run, the surplus of creates over destroys equals the
/// change in the destroys the state owes.
proof fn lemma_balance(s: OracleState, events: Seq<OracleEvent>)
    requires
        valid_run_from(s, events),
    ensures
        count_creates(events) - count_destroys(events) == pending_destroys(run_steps(s, events))
            - pending_destroys(s),
    decreases events.len(),
{
    if events.len() > 0 {
        lemma_balance(oracle_step_spec(s, events[0]), events.drop_first());
    }
}

/// Oracle resource law: an expected event sequence that carries one run from
/// before creation to completion acknowledges exactly as many destroys as
/// creates.
pub proof fn lemma_oracle_create_destroy_balanced(events: Seq<OracleEvent>)
    requires
        valid_run_from(OracleState::AwaitCreate, events),
        run_steps(OracleState::AwaitCreate, events) is Complete,
    ensures
        count_creates(events) == count_destroys(events),
{
    lemma_balance(OracleState::AwaitCreate, events);
}

/// Whether each event sequence is a complete oracle run of its own.
pub open spec fn all_complete_runs(runs: Seq<Seq<OracleEvent>>) -> bool {
    forall|i: int|
        0 <= i < runs.len() ==> valid_run_from(OracleState::AwaitCreate, #[trigger] runs[i])
            && run_steps(OracleState::AwaitCreate, runs[i]) is Complete
}

/// Total create acknowledgements over a sequence of runs.
pub open spec fn total_creates(runs: Seq<Seq<OracleEvent>>) -> int
    decreases runs.len(),
{
    if runs.len() == 0 {
        0
    } else {
        count_creates(runs[0]) + total_creates(runs.drop_first())
    }
}

/// Total destroy acknowledgements over a sequence of runs.
pub open spec fn total_destroys(runs: Seq<Seq<OracleEvent>>) -> int
    decreases runs.len(),
{
    if runs.len() == 0 {
        0
    } else {
        count_destroys(runs[0]) + total_destroys(runs.drop_first())
    }
}

/// Oracle resource law over a whole fuzzing session: across any sequence of
/// complete oracle runs, destroys equal creates in total.
pub proof fn lemma_oracle_runs_balanced(runs: Seq<Seq<OracleEvent>>)
    requires
        all_complete_runs(runs),
    ensures
        total_creates(runs) == total_destroys(runs),
    decreases runs.len(),
{
    if runs.len() > 0 {
        lemma_oracle_create_destroy_balanced(runs[0]);
        assert forall|i: int| 0 <= i < runs.drop_first().len() implies valid_run_from(
            OracleState::AwaitCreate,
            #[trigger] runs.drop_first()[i],
        ) && run_steps(OracleState::AwaitCreate, runs.drop_first()[i]) is Complete by {
            assert(runs.drop_first()[i] == runs[i + 1]);
        }
        lemma_oracle_runs_balanced(runs.drop_first());
    }
}

} // verus!

