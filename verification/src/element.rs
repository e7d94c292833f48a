use vstd::prelude::*;

use crate::window::{Window, WindowModel};

verus! {

/// Identity of an operator stage; stable for the lifetime of a task graph.
#[derive(Clone, Copy, PartialEq, Eq, Structural, Debug)]
pub struct OperatorId(pub u64);

/// Identity of one checkpoint round; the checkpoint coordinator hands these
/// out in strictly increasing order over the lifetime of a job run.
#[derive(Clone, Copy, PartialEq, Eq, Structural, Debug)]
pub struct CheckpointId(pub u64);

/// Mathematical model of an element flowing through the chain.
pub enum ElementModel {
    Record { timestamp: int, payload: Seq<u8>, windows: Seq<WindowModel> },
    Watermark { timestamp: int, windows: Seq<WindowModel> },
    Barrier { checkpoint_id: int },
}

/// A data record: an event timestamp, an opaque payload row, and the windows
/// assigned to it. `location_windows` is empty until a window-assignment
/// stage has processed the record.
pub struct Record {
    pub timestamp: i64,
    pub payload: Vec<u8>,
    pub location_windows: Vec<Window>,
}

/// A watermark: the assertion that no later record will carry a lower
/// timestamp. It receives window assignment like a record does.
pub struct Watermark {
    pub timestamp: i64,
    pub location_windows: Vec<Window>,
}

/// A checkpoint barrier: a control element marking a checkpoint boundary in
/// the element stream; opaque to the stages beyond routing.
pub struct Barrier {
    pub checkpoint_id: CheckpointId,
}

/// The tagged union flowing through the chain.
pub enum Element {
    Record(Record),
    Watermark(Watermark),
    Barrier(Barrier),
}

impl View for Element {
    type V = ElementModel;

    open spec fn view(&self) -> ElementModel {
        match self {
            Element::Record(r) => ElementModel::Record {
                timestamp: r.timestamp as int,
                payload: r.payload@,
                windows: r.location_windows.deep_view(),
            },
            Element::Watermark(w) => ElementModel::Watermark {
                timestamp: w.timestamp as int,
                windows: w.location_windows.deep_view(),
            },
            Element::Barrier(b) => ElementModel::Barrier {
                checkpoint_id: b.checkpoint_id.0 as int,
            },
        }
    }
}

impl DeepView for Element {
    type V = ElementModel;

    open spec fn deep_view(&self) -> ElementModel {
        self.view()
    }
}

impl Record {
    /// A fresh record, with no windows assigned yet.
    pub fn new(timestamp: i64, payload: Vec<u8>) -> (r: Record)
        ensures
            r.timestamp == timestamp,
            r.payload == payload,
            r.location_windows@ == Seq::<Window>::empty(),
    {
        let location_windows: Vec<Window> = Vec::new();
        proof {
            assert(location_windows@ =~= Seq::<Window>::empty());
        }
        Record { timestamp, payload, location_windows }
    }

    /// Overwrites the assigned windows with `windows`; nothing else of the
    /// record changes.
    pub fn set_location_windows(&mut self, windows: Vec<Window>)
        ensures
            final(self).timestamp == old(self).timestamp,
            final(self).payload == old(self).payload,
            final(self).location_windows == windows,
    {
        self.location_windows = windows;
    }
}

impl Watermark {
    /// A fresh watermark, with no windows assigned yet.
    pub fn new(timestamp: i64) -> (w: Watermark)
        ensures
            w.timestamp == timestamp,
            w.location_windows@ == Seq::<Window>::empty(),
    {
        let location_windows: Vec<Window> = Vec::new();
        proof {
            assert(location_windows@ =~= Seq::<Window>::empty());
        }
        Watermark { timestamp, location_windows }
    }

    /// Overwrites the assigned windows with `windows`; the timestamp does not
    /// change.
    pub fn set_location_windows(&mut self, windows: Vec<Window>)
        ensures
            final(self).timestamp == old(self).timestamp,
            final(self).location_windows == windows,
    {
        self.location_windows = windows;
    }
}

impl Barrier {
    pub fn new(checkpoint_id: CheckpointId) -> (b: Barrier)
        ensures
            b.checkpoint_id == checkpoint_id,
    {
        Barrier { checkpoint_id }
    }
}

} // verus!
