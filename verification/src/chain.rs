//! Chain-level laws. A chain is the nested ownership of stages: each
//! `Runnable` exclusively owns its successor, the head is what the task
//! driver holds, and control signals walk it head to tail.

use vstd::prelude::*;

use crate::runnable::{Lifecycle, Runnable, StartupError};
use crate::sink::SinkRunnable;
use crate::window_assigner_runnable::WindowAssignerRunnable;

verus! {

/// Lifecycle ordering, witnessed on a three-stage chain head → middle →
/// tail: when the middle stage cannot open (its assigner is misconfigured)
/// while the tail can, every outcome the `open` contract permits has the
/// tail opened, the middle stage unopened with its error surfaced, and the
/// head unopened. Only successor-first propagation — a stage opens its chain
/// tail before declaring itself open — leaves the chain in such a state.
pub proof fn lemma_open_successor_first(
    pre: WindowAssignerRunnable<WindowAssignerRunnable<SinkRunnable>>,
    post: WindowAssignerRunnable<WindowAssignerRunnable<SinkRunnable>>,
    r: Result<(), StartupError>,
)
    requires
        pre.chain_in(Lifecycle::Created),
        pre.assigner.valid(),
        !pre.next_runnable->0.assigner.valid(),
        post.same_config(&pre),
        r is Ok <==> pre.open_ok(),
        r is Ok ==> post.chain_in(Lifecycle::Opened),
        r is Err ==> post.open_failed() && r->Err_0 == pre.open_error(),
    ensures
        r is Err,
        r->Err_0 == (StartupError::InvalidWindowConfig {
            operator_id: pre.next_runnable->0.operator_id,
        }),
        post.lifecycle() is Created,
        post.next_runnable->0.lifecycle() is Created,
        post.next_runnable->0.next_runnable->0.lifecycle() is Opened,
{
}

/// Teardown fail-fast: a stage reports a successful close only when its
/// whole chain of successors closes successfully, so a close failure in a
/// successor prevents any stage above it from reporting success.
pub proof fn lemma_close_failure_propagates<R: Runnable>(head: WindowAssignerRunnable<R>)
    requires
        head.next_runnable is Some,
        !head.next_runnable->0.close_ok(),
    ensures
        !head.close_ok(),
{
}

} // verus!
