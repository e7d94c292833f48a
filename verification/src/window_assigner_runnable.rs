use vstd::prelude::*;

use crate::assigner::{WindowAssigner, WindowAssignerContext};
use crate::element::{CheckpointId, Element, ElementModel, OperatorId};
use crate::runnable::{Lifecycle, Runnable, RunnableContext, StartupError, TeardownError};

verus! {

/// The element as a window-assignment stage forwards it: records and
/// watermarks carry the windows assigned to their timestamp, every other
/// variant passes through untouched.
pub open spec fn annotated(assigner: WindowAssigner, element: ElementModel) -> ElementModel {
    match element {
        ElementModel::Record { timestamp, payload, windows: _ } => (ElementModel::Record {
            timestamp,
            payload,
            windows: assigner.windows_of(timestamp),
        }),
        ElementModel::Watermark { timestamp, windows: _ } => (ElementModel::Watermark {
            timestamp,
            windows: assigner.windows_of(timestamp),
        }),
        ElementModel::Barrier { .. } => element,
    }
}

/// The machine-limit side condition for annotating one element: the windows
/// assigned to its timestamp have representable bounds. Barriers carry no
/// timestamp and need nothing.
pub open spec fn annotation_fits(assigner: WindowAssigner, element: ElementModel) -> bool {
    match element {
        ElementModel::Record { timestamp, .. } => assigner.windows_fit(timestamp),
        ElementModel::Watermark { timestamp, .. } => assigner.windows_fit(timestamp),
        ElementModel::Barrier { .. } => true,
    }
}

/// Non-mutation of identity: annotating an element changes only its
/// windows. A record keeps its timestamp and payload and its windows become
/// exactly the assigner's output for that timestamp; a watermark keeps its
/// timestamp the same way.
pub proof fn lemma_annotation_preserves_identity(assigner: WindowAssigner, element: ElementModel)
    ensures
        element matches ElementModel::Record { timestamp, payload, .. } ==> annotated(
            assigner,
            element,
        ) == (ElementModel::Record {
            timestamp,
            payload,
            windows: assigner.windows_of(timestamp),
        }),
        element matches ElementModel::Watermark { timestamp, .. } ==> annotated(assigner, element)
            == (ElementModel::Watermark { timestamp, windows: assigner.windows_of(timestamp) }),
{
}

/// Fallthrough: a barrier passes through a window-assignment stage
/// unmodified and uninspected.
pub proof fn lemma_barrier_fallthrough(assigner: WindowAssigner, element: ElementModel)
    requires
        element is Barrier,
    ensures
        annotated(assigner, element) == element,
{
}

/// The chain stage that tags every record and watermark with the windows its
/// timestamp belongs to, using the configured assignment policy, and then
/// forwards the same element — identical in timestamp and payload, only
/// annotated — to its successor. Barriers fall through untouched. The stage
/// holds no snapshot-able state, so the checkpoint signal is only forwarded.
pub struct WindowAssignerRunnable<R: Runnable> {
    pub operator_id: OperatorId,
    pub assigner: WindowAssigner,
    pub next_runnable: Option<R>,
    pub state: Lifecycle,
}

impl<R: Runnable> WindowAssignerRunnable<R> {
    /// A fresh window-assignment stage in the created state.
    pub fn new(operator_id: OperatorId, assigner: WindowAssigner, next_runnable: Option<R>) -> (r:
        Self)
        ensures
            r.operator_id == operator_id,
            r.assigner == assigner,
            r.next_runnable == next_runnable,
            r.lifecycle() is Created,
    {
        WindowAssignerRunnable { operator_id, assigner, next_runnable, state: Lifecycle::Created }
    }

    /// Rewires the successor; used only while the chain is being built, never
    /// during dispatch.
    pub fn set_next_runnable(&mut self, next_runnable: Option<R>)
        requires
            old(self).lifecycle() is Created,
        ensures
            final(self).operator_id == old(self).operator_id,
            final(self).assigner == old(self).assigner,
            final(self).next_runnable == next_runnable,
            final(self).lifecycle() is Created,
    {
        self.next_runnable = next_runnable;
    }
}

impl<R: Runnable> Runnable for WindowAssignerRunnable<R> {
    open spec fn lifecycle(&self) -> Lifecycle {
        self.state
    }

    open spec fn chain_in(&self, state: Lifecycle) -> bool {
        &&& self.state == state
        &&& self.next_runnable is Some
        &&& self.next_runnable->0.chain_in(state)
    }

    open spec fn same_config(&self, other: &Self) -> bool {
        &&& self.operator_id == other.operator_id
        &&& self.assigner == other.assigner
        &&& self.next_runnable is Some <==> other.next_runnable is Some
        &&& self.next_runnable is Some ==> self.next_runnable->0.same_config(
            &other.next_runnable->0,
        )
    }

    open spec fn open_ok(&self) -> bool {
        &&& self.assigner.valid()
        &&& self.next_runnable is Some
        &&& self.next_runnable->0.open_ok()
    }

    open spec fn open_error(&self) -> StartupError {
        if self.next_runnable is Some && !self.next_runnable->0.open_ok() {
            self.next_runnable->0.open_error()
        } else {
            StartupError::InvalidWindowConfig { operator_id: self.operator_id }
        }
    }

    open spec fn open_failed(&self) -> bool {
        &&& self.state is Created
        &&& self.next_runnable is Some
        &&& if self.next_runnable->0.open_ok() {
            self.next_runnable->0.chain_in(Lifecycle::Opened)
        } else {
            self.next_runnable->0.open_failed()
        }
    }

    open spec fn close_ok(&self) -> bool {
        &&& self.next_runnable is Some
        &&& self.next_runnable->0.close_ok()
    }

    open spec fn collected(&self) -> Seq<ElementModel> {
        if self.next_runnable is Some {
            self.next_runnable->0.collected()
        } else {
            Seq::empty()
        }
    }

    open spec fn run_out(&self, element: ElementModel) -> Seq<ElementModel> {
        if self.next_runnable is Some {
            self.next_runnable->0.run_out(annotated(self.assigner, element))
        } else {
            Seq::empty()
        }
    }

    open spec fn run_pre(&self, element: ElementModel) -> bool {
        &&& annotation_fits(self.assigner, element)
        &&& self.next_runnable is Some ==> self.next_runnable->0.run_pre(
            annotated(self.assigner, element),
        )
    }

    fn open(&mut self, context: &RunnableContext) -> (r: Result<(), StartupError>) {
        let valid = self.assigner.is_valid();
        match &mut self.next_runnable {
            Some(next) => {
                let res = next.open(context);
                match res {
                    Ok(()) => {
                        if valid {
                            self.state = Lifecycle::Opened;
                            Ok(())
                        } else {
                            Err(StartupError::InvalidWindowConfig { operator_id: self.operator_id })
                        }
                    }
                    Err(e) => Err(e),
                }
            }
            None => vstd::pervasive::unreached(),
        }
    }

    fn run(&mut self, element: Element) {
        let ghost e0 = element@;
        let element = match element {
            Element::Record(mut record) => {
                let windows = self.assigner.assign_windows(
                    record.timestamp,
                    WindowAssignerContext {  },
                );
                record.set_location_windows(windows);
                Element::Record(record)
            }
            Element::Watermark(mut watermark) => {
                let windows = self.assigner.assign_windows(
                    watermark.timestamp,
                    WindowAssignerContext {  },
                );
                watermark.set_location_windows(windows);
                Element::Watermark(watermark)
            }
            Element::Barrier(barrier) => Element::Barrier(barrier),
        };
        proof {
            assert(element@ == annotated(self.assigner, e0));
        }
        match &mut self.next_runnable {
            Some(next) => next.run(element),
            None => {
                proof {
                    assert(false);
                }
            }
        }
    }

    fn close(&mut self) -> (r: Result<(), TeardownError>) {
        self.state = Lifecycle::Closed;
        match &mut self.next_runnable {
            Some(next) => next.close(),
            None => vstd::pervasive::unreached(),
        }
    }

    fn checkpoint(&mut self, checkpoint_id: CheckpointId) {
        match &mut self.next_runnable {
            Some(next) => next.checkpoint(checkpoint_id),
            None => {
                proof {
                    assert(false);
                }
            }
        }
    }
}

} // verus!
