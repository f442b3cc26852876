//! One turn: running steps and following gotos until the turn ends or
//! suspends.

use vstd::prelude::*;
use crate::actions::{run_matches, turn_of, TurnV};
use crate::ast::{Block, Flow, Step};
use crate::context::{Data, DataV};
use crate::data::{
    combine_spec, empty_output, mems_v, sent, sink_v, ExitCondition, MSG, MemV, Message,
    MessageData, MessageDataV, MessageV, MsgV,
};
use crate::eval::error_at;
use crate::scope::{run_block, scope_spec};
use crate::value::{ErrorInfo, ErrorKind, LitV, Literal, Value, ValueV};

verus! {

/// The flow of a name; where several flows share it, the last one.
pub open spec fn find_flow(flows: Seq<Flow>, name: Seq<char>) -> Option<Flow>
    decreases flows.len(),
{
    if flows.len() == 0 {
        None
    } else if flows.last().name@ == name {
        Some(flows.last())
    } else {
        find_flow(flows.drop_last(), name)
    }
}

/// `find_flow` finds the flow at `i` when no later flow has its name.
pub proof fn lemma_find_last_flow(flows: Seq<Flow>, i: int)
    requires
        0 <= i < flows.len(),
        forall|j: int| i < j < flows.len() ==> (#[trigger] flows[j]).name@ != flows[i].name@,
    ensures
        find_flow(flows, flows[i].name@) == Some(flows[i]),
    decreases flows.len(),
{
    if i < flows.len() - 1 {
        assert(flows.last().name@ != flows[i].name@);
        let rest = flows.drop_last();
        assert(rest[i] == flows[i]);
        assert forall|j: int| i < j < rest.len() implies (#[trigger] rest[j]).name@ != rest[i].name@ by {
            assert(rest[j] == flows[j]);
        }
        lemma_find_last_flow(rest, i);
    }
}

pub open spec fn find_step_spec(steps: Seq<Step>, name: Seq<char>) -> Option<Block>
    decreases steps.len(),
{
    if steps.len() == 0 {
        None
    } else if steps[0].name@ == name {
        Some(steps[0].block)
    } else {
        find_step_spec(steps.subrange(1, steps.len() as int), name)
    }
}

/// The statements of step `step` of flow `flow`; the first flow and step
/// of a name count.
pub open spec fn find_block(flows: Seq<Flow>, flow: Seq<char>, step: Seq<char>) -> Option<Block> {
    match find_flow(flows, flow) {
        Some(f) => find_step_spec(f.steps@, step),
        None => None,
    }
}

/// Errors that end the turn and reach the caller; the others become an
/// error message in the output.
pub open spec fn is_structural(k: ErrorKind) -> bool {
    k == ErrorKind::UnresolvedGoto || k == ErrorKind::StepLimit
}

/// Running steps from where `t` stands, following gotos, at most `fuel`
/// steps. A step whose statements run out ends the turn.
pub open spec fn turn_spec(flows: Seq<Flow>, fuel: nat, t: TurnV) -> Result<TurnV, (ErrorKind, TurnV)>
    decreases fuel,
{
    if fuel == 0 {
        Err((ErrorKind::StepLimit, t))
    } else {
        match find_block(flows, t.data.flow, t.data.step) {
            None => Err((ErrorKind::UnresolvedGoto, t)),
            Some(b) => match scope_spec(b, 0, TurnV { out: empty_output(), ..t }) {
                Err((k, t2)) => Err((k, TurnV { out: combine_spec(t.out, t2.out), ..t2 })),
                Ok(t2) => {
                    let out = combine_spec(t.out, t2.out);
                    match t2.out.exit_condition {
                        Some(ExitCondition::Goto) => turn_spec(
                            flows,
                            (fuel - 1) as nat,
                            TurnV {
                                data: DataV { step_vars: Seq::empty(), hold: None, ..t2.data },
                                out,
                                sink: t2.sink,
                            },
                        ),
                        None => Ok(TurnV { out: MessageDataV { exit_condition: Some(ExitCondition::End), ..out }, ..t2 }),
                        _ => Ok(TurnV { out, ..t2 }),
                    }
                },
            },
        }
    }
}

/// Text of the error message that an evaluation error becomes.
pub open spec fn error_text(k: ErrorKind) -> Seq<char> {
    match k {
        ErrorKind::UnknownMethod => "unknown method"@,
        ErrorKind::IllegalOperation => "illegal operation"@,
        ErrorKind::DivisionByZero => "division by zero"@,
        ErrorKind::BadArguments => "bad arguments"@,
        ErrorKind::ReservedKeywordMisuse => "reserved keyword used as an action"@,
        ErrorKind::UnresolvedGoto => "unresolved goto"@,
        ErrorKind::StepLimit => "too many steps in one turn"@,
    }
}

pub open spec fn error_message(k: ErrorKind) -> MessageV {
    MessageV { content_type: "error"@, text: error_text(k) }
}

fn find_flow_exec<'a>(flows: &'a Vec<Flow>, name: &String) -> (r: Option<&'a Flow>)
    ensures
        r matches Some(f) ==> find_flow(flows@, name@) == Some(*f),
        r is None ==> find_flow(flows@, name@) is None,
{
    let mut i: usize = flows.len();
    assert(flows@.subrange(0, flows@.len() as int) =~= flows@);
    while i > 0
        invariant
            i <= flows.len(),
            find_flow(flows@, name@) == find_flow(flows@.subrange(0, i as int), name@),
        decreases i,
    {
        let ghost pre = flows@.subrange(0, i as int);
        assert(pre.drop_last() =~= flows@.subrange(0, i - 1));
        if flows[i - 1].name.eq(name) {
            return Some(&flows[i - 1]);
        }
        i -= 1;
    }
    None
}

fn find_step_exec<'a>(steps: &'a Vec<Step>, name: &String) -> (r: Option<&'a Block>)
    ensures
        r matches Some(b) ==> find_step_spec(steps@, name@) == Some(*b),
        r is None ==> find_step_spec(steps@, name@) is None,
{
    let mut i: usize = 0;
    assert(steps@.subrange(0, steps@.len() as int) =~= steps@);
    while i < steps.len()
        invariant
            i <= steps.len(),
            find_step_spec(steps@, name@) == find_step_spec(steps@.subrange(i as int, steps@.len() as int), name@),
        decreases steps.len() - i,
    {
        let ghost rest = steps@.subrange(i as int, steps@.len() as int);
        assert(rest.subrange(1, rest.len() as int) =~= steps@.subrange(i + 1, steps@.len() as int));
        if steps[i].name.eq(name) {
            return Some(&steps[i].block);
        }
        i += 1;
    }
    None
}

/// The statements of a step of a flow.
pub fn find_block_exec<'a>(flows: &'a Vec<Flow>, flow: &String, step: &String) -> (r: Option<&'a Block>)
    ensures
        r matches Some(b) ==> find_block(flows@, flow@, step@) == Some(*b),
        r is None ==> find_block(flows@, flow@, step@) is None,
{
    match find_flow_exec(flows, flow) {
        Some(f) => find_step_exec(&f.steps, step),
        None => None,
    }
}

/// Runs steps from the context's current flow and step, following gotos,
/// until the turn ends, suspends, or `max_steps` steps have run; what the
/// steps produce is added to `out`, also where a step fails.
pub fn interpret_step(
    flows: &Vec<Flow>,
    data: &mut Data,
    out: &mut MessageData,
    sender: &mut Option<Vec<MSG>>,
    max_steps: usize,
) -> (r: Result<(), ErrorInfo>)
    ensures
        run_matches(
            turn_spec(flows@, max_steps as nat, turn_of(old(data), old(out)@, old(sender))),
            r,
            final(data)@,
            final(out)@,
            sink_v(*final(sender)),
        ),
{
    let ghost t0 = turn_of(data, out@, sender);
    let mut fuel: usize = max_steps;
    while fuel > 0
        invariant
            t0 == turn_of(old(data), old(out)@, old(sender)),
            turn_spec(flows@, max_steps as nat, t0) == turn_spec(flows@, fuel as nat, turn_of(data, out@, sender)),
        decreases fuel,
    {
        let block = match find_block_exec(flows, &data.context.flow, &data.context.step) {
            Some(b) => b,
            None => return Err(error_at(ErrorKind::UnresolvedGoto)),
        };
        let mut sub = MessageData::new();
        let res = run_block(block, data, &mut sub, sender);
        let exit = sub.exit_condition;
        out.append(sub);
        match res {
            Err(e) => return Err(e),
            Ok(()) => {},
        }
        match exit {
            Some(ExitCondition::Goto) => {
                data.step_vars = Vec::new();
                data.context.hold = None;
                assert(mems_v(data.step_vars@) =~= Seq::<MemV>::empty());
                fuel -= 1;
            },
            None => {
                out.exit_condition = Some(ExitCondition::End);
                return Ok(());
            },
            _ => {
                return Ok(());
            },
        }
    }
    Err(error_at(ErrorKind::StepLimit))
}

fn error_message_exec(k: ErrorKind) -> (r: Message)
    ensures
        r@ == error_message(k),
{
    let text = match k {
        ErrorKind::UnknownMethod => crate::value::owned("unknown method"),
        ErrorKind::IllegalOperation => crate::value::owned("illegal operation"),
        ErrorKind::DivisionByZero => crate::value::owned("division by zero"),
        ErrorKind::BadArguments => crate::value::owned("bad arguments"),
        ErrorKind::ReservedKeywordMisuse => crate::value::owned("reserved keyword used as an action"),
        ErrorKind::UnresolvedGoto => crate::value::owned("unresolved goto"),
        ErrorKind::StepLimit => crate::value::owned("too many steps in one turn"),
    };
    Message { content_type: crate::value::owned("error"), text }
}

/// The output of a turn whose evaluation failed with `k` after producing
/// `out`: the error message is appended, and the turn ends.
pub open spec fn failed_output(out: MessageDataV, k: ErrorKind) -> MessageDataV {
    MessageDataV { messages: out.messages.push(error_message(k)), exit_condition: Some(ExitCondition::End), ..out }
}

/// Runs one turn. An evaluation error becomes an error message, appended
/// to what the turn produced before it, and ends the turn; an unresolved
/// goto or a turn that does not settle within `max_steps` steps is returned
/// to the caller. Either way the state and the events are those at the
/// failure, with the error message sent in the first case.
pub fn run_turn(
    flows: &Vec<Flow>,
    data: &mut Data,
    sender: &mut Option<Vec<MSG>>,
    max_steps: usize,
) -> (r: Result<MessageData, ErrorInfo>)
    ensures
        ({
            let s = turn_spec(flows@, max_steps as nat, turn_of(old(data), empty_output(), old(sender)));
            match s {
                Ok(t) => r is Ok && r->Ok_0@ == t.out && final(data)@ == t.data && sink_v(*final(sender)) == t.sink,
                Err((k, t)) => final(data)@ == t.data && if is_structural(k) {
                    r is Err && r->Err_0.kind == k && sink_v(*final(sender)) == t.sink
                } else {
                    r is Ok && r->Ok_0@ == failed_output(t.out, k)
                        && sink_v(*final(sender)) == sent(t.sink, MsgV::Error(error_message(k)))
                },
            }
        }),
{
    let mut out = MessageData::new();
    match interpret_step(flows, data, &mut out, sender, max_steps) {
        Ok(()) => Ok(out),
        Err(e) => {
            if e.kind == ErrorKind::UnresolvedGoto || e.kind == ErrorKind::StepLimit {
                return Err(e);
            }
            MSG::send(sender, MSG::Error(error_message_exec(e.kind)));
            out.add_message(error_message_exec(e.kind));
            out.exit_condition = Some(ExitCondition::End);
            Ok(out)
        },
    }
}

impl MSG {
    /// The value of a computation; where it failed, an error message is
    /// added to the output and sent, and the value is null.
    pub fn send_error_msg(
        sender: &mut Option<Vec<MSG>>,
        msg_data: &mut MessageData,
        value: Result<Literal, ErrorInfo>,
    ) -> (r: Literal)
        ensures
            match value {
                Ok(l) => r@ == l@ && final(msg_data)@ == old(msg_data)@ && sink_v(*final(sender)) == sink_v(*old(sender)),
                Err(e) => {
                    &&& r@ == (LitV { content_type: "null"@, value: ValueV::Null, interval: e.interval })
                    &&& final(msg_data)@ == (MessageDataV {
                        messages: old(msg_data)@.messages.push(error_message(e.kind)),
                        ..old(msg_data)@
                    })
                    &&& sink_v(*final(sender)) == sent(sink_v(*old(sender)), MsgV::Message(error_message(e.kind)))
                },
            },
    {
        match value {
            Ok(value) => value,
            Err(err) => {
                msg_data.add_message(error_message_exec(err.kind));
                MSG::send(sender, MSG::Message(error_message_exec(err.kind)));
                Literal { content_type: crate::value::owned("null"), primitive: Value::Null, interval: err.interval }
            },
        }
    }
}

} // verus!
