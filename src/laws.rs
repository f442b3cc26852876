//! Properties of the interpreter that hold for every input.

use vstd::prelude::*;
use crate::ast::{Block, Expr, Flow, GotoType, GotoValue, InstructionInfo, ObjectType};
use crate::context::{resume_spec, DataV};
use crate::data::{combine_spec, empty_output, forgets, retain_spec, sent, ExitCondition, ForgetMemory, ForgetV, HoldV, MemV, MsgV};
use crate::actions::{action_spec, goto_target, TurnV};
use crate::eval::eval_spec;
use crate::scope::scope_spec;
use crate::turn::{find_block, turn_spec};
use crate::value::{arith_spec, numeric, ArithOp, ErrorKind, ValueV};

verus! {

/// Arithmetic is defined on numbers alone: any other pair of operands is
/// an illegal operation, and a zero divisor makes division and remainder
/// fail with a division by zero.
pub proof fn lemma_arith_errors(op: ArithOp, a: ValueV, b: ValueV)
    ensures
        (numeric(a) is None || numeric(b) is None) ==> arith_spec(op, a, b) == Err::<ValueV, ErrorKind>(ErrorKind::IllegalOperation),
        (numeric(a) is Some && numeric(b) == Some(0int) && (op == ArithOp::Div || op == ArithOp::Rem))
            ==> arith_spec(op, a, b) == Err::<ValueV, ErrorKind>(ErrorKind::DivisionByZero),
{
}

/// A block whose statements are all at top level, numbered in order.
pub open spec fn flat(block: Block) -> bool {
    forall|j: int| 0 <= j < block.commands.len() ==> #[trigger] block.commands[j].1 == (InstructionInfo { index: j as usize, total: 0 })
}

proof fn lemma_resume_from(block: Block, k: int, i: int, t: TurnV)
    requires
        flat(block),
        0 <= i <= k < block.commands.len(),
        t.data.hold is Some,
        t.data.hold->0.index.command_index == k,
        t.out.exit_condition is None,
    ensures
        scope_spec(block, i, t) == scope_spec(block, k + 1, TurnV { data: DataV { hold: None, ..t.data }, ..t }),
    decreases k - i,
{
    assert(block.commands[i].1 == (InstructionInfo { index: i as usize, total: 0 }));
    if i < k {
        lemma_resume_from(block, k, i + 1, t);
    }
}

/// Resuming a block of top-level statements held at statement `k` runs the
/// statements after `k` exactly as a walk of them without a hold would, from
/// the same output: the statements up to `k` add no message, memory or event.
pub proof fn lemma_resume_skips_done(block: Block, k: int, t: TurnV)
    requires
        flat(block),
        0 <= k < block.commands.len(),
        t.data.hold is Some,
        t.data.hold->0.index.command_index == k,
        t.out.exit_condition is None,
    ensures
        scope_spec(block, 0, t) == scope_spec(block, k + 1, TurnV { data: DataV { hold: None, ..t.data }, ..t }),
{
    lemma_resume_from(block, k, 0, t);
}

/// A hold recorded on another version of the flow is not applied: the flow
/// restarts at its "start" step, with no held position and no step
/// variables.
pub proof fn lemma_stale_hold_restarts(d: DataV, h: HoldV, current_hash: Seq<char>)
    requires
        h.flow_hash != current_hash,
    ensures
        resume_spec(d, Some(h), current_hash).hold is None,
        resume_spec(d, Some(h), current_hash).step == "start"@,
        resume_spec(d, Some(h), current_hash).step_vars.len() == 0,
{
}

/// A goto to the step "end" ends the turn: the exit condition is End, and
/// no further statement runs in the block, so no further event is sent.
pub proof fn lemma_goto_end(g: GotoValue, t: TurnV, block: Block, i: int)
    requires
        goto_target(g, t.data) == "end"@,
    ensures
        action_spec(ObjectType::Goto(GotoType::Step(g)), t) is Ok,
        ({
            let t2 = action_spec(ObjectType::Goto(GotoType::Step(g)), t)->Ok_0;
            &&& t2.out.exit_condition == Some(ExitCondition::End)
            &&& t2.sink == sent(t.sink, MsgV::Next { flow: None, step: Some("end"@) })
            &&& scope_spec(block, i, t2) == Ok::<TurnV, (ErrorKind, TurnV)>(t2)
        }),
{
}

/// A step whose statements end with the exit condition End ends the turn:
/// no further step runs, so no further event is sent.
pub proof fn lemma_end_stops_turn(flows: Seq<Flow>, fuel: nat, t: TurnV, b: Block, t2: TurnV)
    requires
        fuel > 0,
        find_block(flows, t.data.flow, t.data.step) == Some(b),
        scope_spec(b, 0, TurnV { out: empty_output(), ..t }) == Ok::<TurnV, (ErrorKind, TurnV)>(t2),
        t2.out.exit_condition == Some(ExitCondition::End),
    ensures
        turn_spec(flows, fuel, t) == Ok::<TurnV, (ErrorKind, TurnV)>(TurnV { out: combine_spec(t.out, t2.out), ..t2 }),
        turn_spec(flows, fuel, t)->Ok_0.sink == t2.sink,
{
}

/// A goto that names a flow and no step lands on that flow's "start" step.
pub proof fn lemma_goto_flow_starts(g: GotoValue, t: TurnV)
    ensures
        action_spec(ObjectType::Goto(GotoType::StepFlow { step: None, flow: Some(g) }), t) is Ok,
        action_spec(ObjectType::Goto(GotoType::StepFlow { step: None, flow: Some(g) }), t)->Ok_0.data.step == "start"@,
        action_spec(ObjectType::Goto(GotoType::StepFlow { step: None, flow: Some(g) }), t)->Ok_0.data.flow == goto_target(g, t.data),
{
    reveal_strlit("start");
    reveal_strlit("end");
    assert("start"@.len() != "end"@.len());
}

/// No memory that a `forget` names is left after it.
pub proof fn lemma_retain_drops(s: Seq<MemV>, f: ForgetV)
    ensures
        forall|j: int| 0 <= j < retain_spec(s, f).len() ==> !forgets(f, #[trigger] retain_spec(s, f)[j].key),
    decreases s.len(),
{
    if s.len() > 0 {
        lemma_retain_drops(s.drop_last(), f);
    }
}

/// `remember k = v` followed by `forget k` sends the Remember event, and
/// leaves no memory delta for `k` in the output nor `k` in the memory.
pub proof fn lemma_remember_then_forget(name: String, e: Expr, f: ForgetMemory, t: TurnV)
    requires
        f@ == ForgetV::Single(name@),
        eval_spec(e, t.data) is Ok,
    ensures
        ({
            let t1 = action_spec(ObjectType::Remember(name, e), t)->Ok_0;
            let t2 = action_spec(ObjectType::Forget(f), t1)->Ok_0;
            &&& t1.sink == sent(t.sink, MsgV::Remember(MemV { key: name@, value: eval_spec(e, t.data)->Ok_0 }))
            &&& forall|j: int| 0 <= j < t2.out.memories.len() ==> (#[trigger] t2.out.memories[j]).key != name@
            &&& forall|j: int| 0 <= j < t2.data.current.len() ==> (#[trigger] t2.data.current[j]).key != name@
        }),
{
    let t1 = action_spec(ObjectType::Remember(name, e), t)->Ok_0;
    lemma_retain_drops(t1.out.memories, f@);
    lemma_retain_drops(t1.data.current, f@);
}

} // verus!
