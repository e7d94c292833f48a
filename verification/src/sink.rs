use vstd::prelude::*;

use crate::element::{CheckpointId, Element, ElementModel, OperatorId};
use crate::runnable::{Lifecycle, Runnable, RunnableContext, StartupError, TeardownError};

verus! {

/// The terminal stage of a chain: it buffers every element it receives, in
/// arrival order, for the external sink/shuffle collaborator to drain. It
/// owns no successor and no external resource, so opening and closing never
/// fail and the checkpoint signal ends here.
pub struct SinkRunnable {
    pub operator_id: OperatorId,
    pub state: Lifecycle,
    pub collected_elements: Vec<Element>,
}

impl SinkRunnable {
    /// A fresh terminal stage in the created state, with nothing collected.
    pub fn new(operator_id: OperatorId) -> (r: SinkRunnable)
        ensures
            r.operator_id == operator_id,
            r.lifecycle() is Created,
            r.collected() == Seq::<ElementModel>::empty(),
    {
        let collected_elements: Vec<Element> = Vec::new();
        proof {
            assert(collected_elements.deep_view() =~= Seq::<ElementModel>::empty());
        }
        SinkRunnable { operator_id, state: Lifecycle::Created, collected_elements }
    }
}

impl Runnable for SinkRunnable {
    open spec fn lifecycle(&self) -> Lifecycle {
        self.state
    }

    open spec fn chain_in(&self, state: Lifecycle) -> bool {
        self.state == state
    }

    open spec fn same_config(&self, other: &Self) -> bool {
        self.operator_id == other.operator_id
    }

    open spec fn open_ok(&self) -> bool {
        true
    }

    open spec fn open_error(&self) -> StartupError {
        StartupError::InvalidWindowConfig { operator_id: self.operator_id }
    }

    open spec fn open_failed(&self) -> bool {
        false
    }

    open spec fn close_ok(&self) -> bool {
        true
    }

    open spec fn collected(&self) -> Seq<ElementModel> {
        self.collected_elements.deep_view()
    }

    open spec fn run_out(&self, element: ElementModel) -> Seq<ElementModel> {
        seq![element]
    }

    open spec fn run_pre(&self, element: ElementModel) -> bool {
        true
    }

    fn open(&mut self, _context: &RunnableContext) -> (r: Result<(), StartupError>) {
        self.state = Lifecycle::Opened;
        Ok(())
    }

    fn run(&mut self, element: Element) {
        let ghost before = self.collected_elements.deep_view();
        let ghost e = element@;
        self.collected_elements.push(element);
        proof {
            assert(self.collected_elements.deep_view() =~= before + seq![e]);
        }
    }

    fn close(&mut self) -> (r: Result<(), TeardownError>) {
        self.state = Lifecycle::Closed;
        Ok(())
    }

    fn checkpoint(&mut self, _checkpoint_id: CheckpointId) {
    }
}

} // verus!
