use vstd::prelude::*;

use crate::element::{CheckpointId, Element, ElementModel, OperatorId};

verus! {

/// Lifecycle of one chain stage: created, then opened (running), then
/// closed. Dispatch and checkpoint signals are valid only while the stage is
/// opened; driving a stage outside its state is a programming error, which
/// the contracts below rule out for verified callers.
#[derive(Clone, Copy, PartialEq, Eq, Structural, Debug)]
pub enum Lifecycle {
    Created,
    Opened,
    Closed,
}

/// Read-only environment handed to every stage at open time: the identity of
/// the task that owns the chain.
#[derive(Clone, Copy, PartialEq, Eq, Structural, Debug)]
pub struct RunnableContext {
    pub task_id: u64,
}

/// A stage failed to initialize; fatal to task startup, surfaced to the task
/// supervisor, never retried inside this core.
#[derive(Clone, Copy, PartialEq, Eq, Structural, Debug)]
pub enum StartupError {
    /// The stage's window-assigner parameters are invalid.
    InvalidWindowConfig { operator_id: OperatorId },
}

/// A stage failed to release its resources at close time. The first failure
/// in the chain is surfaced and teardown stops there (fail-fast).
#[derive(Clone, Copy, PartialEq, Eq, Structural, Debug)]
pub enum TeardownError {
    CloseFailed { operator_id: OperatorId },
}

/// The uniform chain-node contract every operator stage implements:
/// lifecycle, per-element dispatch, and the checkpoint signal, each forwarded
/// to the stage's exclusively owned successor, head to tail, synchronously.
///
/// `open` propagates successor-first: a stage opens its chain tail before
/// declaring itself open, so downstream resources exist before upstream
/// elements can be pushed into them. `close` runs this stage's own cleanup
/// and then propagates, surfacing the first failure. `run` transforms the
/// element and hands it on; what ultimately reaches the terminal collaborator
/// is recorded by `collected`.
pub trait Runnable: Sized {
    /// Lifecycle state of this stage alone.
    spec fn lifecycle(&self) -> Lifecycle;

    /// This stage and every successor are in state `state`.
    spec fn chain_in(&self, state: Lifecycle) -> bool;

    /// The configuration (identity, policy, chain shape) of the two stage
    /// states is the same; every operation of this contract preserves it.
    spec fn same_config(&self, other: &Self) -> bool;

    /// Whether `open` will succeed: a function of the configuration alone.
    spec fn open_ok(&self) -> bool;

    /// The error `open` reports when it fails: the first failure in
    /// successor-first order.
    spec fn open_error(&self) -> StartupError;

    /// Post-state of a failed `open`: this stage has not declared itself
    /// open, while the successors that could open are open (the witness of
    /// successor-first propagation).
    spec fn open_failed(&self) -> bool;

    /// Whether `close` will succeed: a function of the configuration alone.
    spec fn close_ok(&self) -> bool;

    /// Everything this chain has handed to the terminal collaborator so far,
    /// in order.
    spec fn collected(&self) -> Seq<ElementModel>;

    /// What dispatching `element` into this stage appends at the terminal
    /// end of the chain.
    spec fn run_out(&self, element: ElementModel) -> Seq<ElementModel>;

    /// Machine-limit precondition of dispatch: every window bound assigned
    /// along the chain fits the timestamp domain.
    spec fn run_pre(&self, element: ElementModel) -> bool;

    /// Initializes the chain from this stage down, successor-first. Fails
    /// with the first startup error and then leaves this stage (and every
    /// stage above the failure) unopened.
    fn open(&mut self, context: &RunnableContext) -> (r: Result<(), StartupError>)
        requires
            old(self).chain_in(Lifecycle::Created),
        ensures
            final(self).same_config(old(self)),
            final(self).open_ok() == old(self).open_ok(),
            final(self).close_ok() == old(self).close_ok(),
            final(self).collected() == old(self).collected(),
            r is Ok <==> old(self).open_ok(),
            r is Ok ==> final(self).chain_in(Lifecycle::Opened),
            r is Err ==> final(self).open_failed() && r->Err_0 == old(self).open_error(),
    ;

    /// Dispatches one element: transforms or inspects it, then forwards it to
    /// the successor. What reaches the terminal collaborator grows by exactly
    /// `run_out(element)`.
    fn run(&mut self, element: Element)
        requires
            old(self).chain_in(Lifecycle::Opened),
            old(self).open_ok(),
            old(self).run_pre(element@),
        ensures
            final(self).same_config(old(self)),
            final(self).open_ok() == old(self).open_ok(),
            final(self).close_ok() == old(self).close_ok(),
            final(self).chain_in(Lifecycle::Opened),
            final(self).collected() == old(self).collected() + old(self).run_out(element@),
    ;

    /// Tears the chain down from this stage: own cleanup first, then the
    /// successor. The first failure is surfaced and stops propagation.
    fn close(&mut self) -> (r: Result<(), TeardownError>)
        requires
            old(self).chain_in(Lifecycle::Opened),
        ensures
            final(self).same_config(old(self)),
            final(self).open_ok() == old(self).open_ok(),
            final(self).close_ok() == old(self).close_ok(),
            final(self).collected() == old(self).collected(),
            final(self).lifecycle() is Closed,
            r is Ok <==> old(self).close_ok(),
            r is Ok ==> final(self).chain_in(Lifecycle::Closed),
    ;

    /// Notifies the stage that checkpoint `checkpoint_id` is passing through
    /// and propagates the signal to the successor. The barrier element itself
    /// travels separately through `run`, like any other element.
    fn checkpoint(&mut self, checkpoint_id: CheckpointId)
        requires
            old(self).chain_in(Lifecycle::Opened),
        ensures
            final(self).same_config(old(self)),
            final(self).open_ok() == old(self).open_ok(),
            final(self).close_ok() == old(self).close_ok(),
            final(self).chain_in(Lifecycle::Opened),
            final(self).collected() == old(self).collected(),
    ;
}

} // verus!
