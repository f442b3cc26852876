//! The mutable state of one turn, and the loading of a stored hold.

use vstd::prelude::*;
use crate::data::{copy_memories, hold_opt_v, mems_v, HoldV, MemV, Memory, Hold};
use crate::value::owned;

verus! {

/// Where the conversation stands and what it remembers.
#[derive(Debug)]
pub struct Context {
    pub current: Vec<Memory>,
    pub hold: Option<Hold>,
    pub step: String,
    pub flow: String,
}

/// The state threaded through one turn.
#[derive(Debug)]
pub struct Data {
    pub context: Context,
    /// Variables local to the running step.
    pub step_vars: Vec<Memory>,
    /// Fields of the inbound event.
    pub event: Vec<Memory>,
    pub loop_indexes: Vec<usize>,
    /// Fingerprint of the running flow, recorded in a hold.
    pub flow_hash: String,
}

pub struct DataV {
    pub current: Seq<MemV>,
    pub hold: Option<HoldV>,
    pub step: Seq<char>,
    pub flow: Seq<char>,
    pub step_vars: Seq<MemV>,
    pub event: Seq<MemV>,
    pub loop_indexes: Seq<usize>,
    pub flow_hash: Seq<char>,
}

impl View for Data {
    type V = DataV;

    open spec fn view(&self) -> DataV {
        DataV {
            current: mems_v(self.context.current@),
            hold: hold_opt_v(self.context.hold),
            step: self.context.step@,
            flow: self.context.flow@,
            step_vars: mems_v(self.step_vars@),
            event: mems_v(self.event@),
            loop_indexes: self.loop_indexes@,
            flow_hash: self.flow_hash@,
        }
    }
}

/// The state after a stored hold was offered to it: a hold recorded on
/// another version of the flow is dropped and the flow restarts at "start";
/// a valid one is loaded with its step variables.
pub open spec fn resume_spec(d: DataV, stored: Option<HoldV>, current_hash: Seq<char>) -> DataV {
    match stored {
        None => d,
        Some(h) => if h.flow_hash != current_hash {
            DataV { step: "start"@, hold: None, step_vars: Seq::empty(), ..d }
        } else {
            DataV { hold: Some(HoldV { step_name: d.step, flow_name: d.flow, ..h }), step_vars: h.step_vars, ..d }
        },
    }
}

impl Data {
    /// A fresh turn state at `flow`/`step` with the given memory and event.
    pub fn new(flow: String, step: String, current: Vec<Memory>, event: Vec<Memory>, flow_hash: String) -> (r: Data)
        ensures
            r@ == (DataV {
                current: mems_v(current@),
                hold: None,
                step: step@,
                flow: flow@,
                step_vars: Seq::empty(),
                event: mems_v(event@),
                loop_indexes: Seq::empty(),
                flow_hash: flow_hash@,
            }),
    {
        let r = Data {
            context: Context { current, hold: None, step, flow },
            step_vars: Vec::new(),
            event,
            loop_indexes: Vec::new(),
            flow_hash,
        };
        assert(mems_v(r.step_vars@) =~= Seq::<MemV>::empty());
        assert(r.loop_indexes@ =~= Seq::<usize>::empty());
        r
    }

    /// Offers a stored hold to the turn before it runs; `current_hash` is
    /// the fingerprint of the flow as it stands now.
    pub fn check_for_hold(&mut self, stored: Option<Hold>, current_hash: &String)
        ensures
            final(self)@ == resume_spec(old(self)@, hold_opt_v(stored), current_hash@),
    {
        match stored {
            None => {},
            Some(mut h) => {
                if !h.flow_hash.eq(current_hash) {
                    self.context.step = owned("start");
                    self.context.hold = None;
                    self.step_vars = Vec::new();
                    assert(mems_v(self.step_vars@) =~= Seq::<MemV>::empty());
                } else {
                    self.step_vars = copy_memories(&h.step_vars);
                    h.step_name = self.context.step.clone();
                    h.flow_name = self.context.flow.clone();
                    self.context.hold = Some(h);
                }
            },
        }
    }
}

} // verus!
