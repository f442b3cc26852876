//! The action dispatcher: what each side-effecting statement does.

use vstd::prelude::*;
use crate::ast::{DoType, Expr, GotoType, GotoValue, ObjectType};
use crate::context::{Data, DataV};
use crate::data::{
    lookup_memory, lookup_spec, put_spec, retain_spec, sent, sink_v, ExitCondition, ForgetMemory,
    MSG, MemV, Memory, Message, MessageData, MessageDataV, MessageV, MsgV,
};
use crate::eval::{error_at, eval_spec, expr_to_literal, get_var, var_spec};
use crate::value::{
    display_spec, path_v, set_path_spec, SegmentV, ErrorInfo, ErrorKind, LitV, Literal,
};

verus! {

/// The state of a turn as the statements see it: the context, the output
/// of the running block, and the events sent so far.
pub struct TurnV {
    pub data: DataV,
    pub out: MessageDataV,
    pub sink: Option<Seq<MsgV>>,
}

/// The message that shows a value.
pub open spec fn text_message(content_type: Seq<char>, l: LitV) -> MessageV {
    MessageV { content_type, text: display_spec(l.value) }
}

/// The name a goto target resolves to.
pub open spec fn goto_target(g: GotoValue, d: DataV) -> Seq<char> {
    match g {
        GotoValue::Name(s) => s@,
        GotoValue::Var(n) => display_spec(var_spec(d, n@).value),
    }
}

pub open spec fn say_spec(content_type: Seq<char>, e: Expr, t: TurnV) -> Result<TurnV, ErrorKind> {
    match eval_spec(e, t.data) {
        Ok(l) => {
            let m = text_message(content_type, l);
            Ok(TurnV {
                out: MessageDataV { messages: t.out.messages.push(m), ..t.out },
                sink: sent(t.sink, MsgV::Message(m)),
                ..t
            })
        },
        Err(k) => Err(k),
    }
}

/// Where a step change lands, and how the running block ends.
pub open spec fn goto_spec(step: Seq<char>, flow: Seq<char>, next: MsgV, t: TurnV) -> TurnV {
    TurnV {
        data: DataV { step, flow, ..t.data },
        out: MessageDataV {
            exit_condition: Some(if step == "end"@ { ExitCondition::End } else { ExitCondition::Goto }),
            ..t.out
        },
        sink: sent(t.sink, next),
    }
}

/// The literal that an update writes: the new value itself, or the
/// variable with the value at `path` replaced.
pub open spec fn updated_spec(var: LitV, path: Seq<SegmentV>, new: LitV) -> Result<LitV, ErrorKind> {
    if path.len() == 0 {
        Ok(new)
    } else {
        match set_path_spec(var.value, path, new.value) {
            Ok(v) => Ok(LitV { value: v, ..var }),
            Err(k) => Err(k),
        }
    }
}

/// What one action does to the turn.
pub open spec fn action_spec(a: ObjectType, t: TurnV) -> Result<TurnV, ErrorKind> {
    let d = t.data;
    match a {
        ObjectType::Say(e) => say_spec("text"@, e, t),
        ObjectType::Debug(e) => say_spec("debug"@, e, t),
        ObjectType::Use(e) => match eval_spec(e, d) {
            Ok(_) => Ok(t),
            Err(k) => Err(k),
        },
        ObjectType::Do(DoType::Exec(e)) => match eval_spec(e, d) {
            Ok(_) => Ok(t),
            Err(k) => Err(k),
        },
        ObjectType::Do(DoType::Update(name, path, e)) => match eval_spec(e, d) {
            Ok(new) => match updated_spec(var_spec(d, name@), path_v(path@), new) {
                Ok(l) => if lookup_spec(d.step_vars, name@) is None && lookup_spec(d.current, name@) is Some {
                    let m = MemV { key: name@, value: l };
                    Ok(TurnV {
                        data: DataV { current: put_spec(d.current, name@, l), ..d },
                        out: MessageDataV { memories: t.out.memories.push(m), ..t.out },
                        sink: sent(t.sink, MsgV::Remember(m)),
                    })
                } else {
                    Ok(TurnV { data: DataV { step_vars: put_spec(d.step_vars, name@, l), ..d }, ..t })
                },
                Err(k) => Err(k),
            },
            Err(k) => Err(k),
        },
        ObjectType::Goto(GotoType::Step(g)) => {
            let s = goto_target(g, d);
            Ok(goto_spec(s, d.flow, MsgV::Next { flow: None, step: Some(s) }, t))
        },
        ObjectType::Goto(GotoType::Flow(g)) => {
            let f = goto_target(g, d);
            Ok(goto_spec("start"@, f, MsgV::Next { flow: Some(f), step: None }, t))
        },
        ObjectType::Goto(GotoType::StepFlow { step, flow }) => {
            let s = match step {
                Some(g) => goto_target(g, d),
                None => "start"@,
            };
            let f = match flow {
                Some(g) => goto_target(g, d),
                None => d.flow,
            };
            let next_flow = if s == "end"@ { None } else { Some(f) };
            Ok(goto_spec(s, f, MsgV::Next { flow: next_flow, step: Some(s) }, t))
        },
        ObjectType::Remember(name, e) => match eval_spec(e, d) {
            Ok(l) => {
                let m = MemV { key: name@, value: l };
                Ok(TurnV {
                    data: DataV { current: put_spec(d.current, name@, l), ..d },
                    out: MessageDataV { memories: t.out.memories.push(m), ..t.out },
                    sink: sent(t.sink, MsgV::Remember(m)),
                })
            },
            Err(k) => Err(k),
        },
        ObjectType::Forget(f) => Ok(TurnV {
            data: DataV { current: retain_spec(d.current, f@), ..d },
            out: MessageDataV { memories: retain_spec(t.out.memories, f@), ..t.out },
            sink: sent(t.sink, MsgV::Forget(f@)),
        }),
        ObjectType::Hold => Err(ErrorKind::ReservedKeywordMisuse),
    }
}

/// Whether an executed result, state and sink are those that the
/// semantics gives.
pub open spec fn outcome_matches(
    s: Result<TurnV, ErrorKind>,
    r: Result<MessageData, ErrorInfo>,
    d: DataV,
    sink: Option<Seq<MsgV>>,
) -> bool {
    match s {
        Ok(t) => r is Ok && r->Ok_0@ == t.out && d == t.data && sink == t.sink,
        Err(k) => r is Err && r->Err_0.kind == k,
    }
}

/// Whether a walk's result, state and sink are those that the semantics
/// gives; where it fails, the state and the sink are those at the failure.
pub open spec fn walk_matches(
    s: Result<TurnV, (ErrorKind, TurnV)>,
    r: Result<MessageData, ErrorInfo>,
    d: DataV,
    sink: Option<Seq<MsgV>>,
) -> bool {
    match s {
        Ok(t) => r is Ok && r->Ok_0@ == t.out && d == t.data && sink == t.sink,
        Err((k, t)) => r is Err && r->Err_0.kind == k && d == t.data && sink == t.sink,
    }
}

/// The same for a walk that accumulates into an output it is given.
pub open spec fn run_matches(
    s: Result<TurnV, (ErrorKind, TurnV)>,
    r: Result<(), ErrorInfo>,
    d: DataV,
    out: MessageDataV,
    sink: Option<Seq<MsgV>>,
) -> bool {
    match s {
        Ok(t) => r is Ok && d == t.data && out == t.out && sink == t.sink,
        Err((k, t)) => r is Err && r->Err_0.kind == k && d == t.data && out == t.out && sink == t.sink,
    }
}

pub open spec fn turn_of(d: &Data, out: MessageDataV, sink: &Option<Vec<MSG>>) -> TurnV {
    TurnV { data: d@, out, sink: sink_v(*sink) }
}

fn to_message(content_type: &str, l: &Literal) -> (r: Message)
    ensures
        r@ == text_message(content_type@, l@),
{
    Message { content_type: crate::value::owned(content_type), text: l.primitive.to_display_string() }
}

fn resolve_goto(g: &GotoValue, data: &Data) -> (r: String)
    ensures
        r@ == goto_target(*g, data@),
{
    match g {
        GotoValue::Name(s) => s.clone(),
        GotoValue::Var(n) => get_var(n, data).primitive.to_display_string(),
    }
}

fn copy_forget(f: &ForgetMemory) -> (r: ForgetMemory)
    ensures
        r@ == f@,
{
    match f {
        ForgetMemory::All => ForgetMemory::All,
        ForgetMemory::Single(k) => ForgetMemory::Single(k.clone()),
        ForgetMemory::List(ks) => {
            let mut out: Vec<String> = Vec::new();
            let mut i: usize = 0;
            while i < ks.len()
                invariant
                    i <= ks.len(),
                    crate::data::strs_v(out@) == crate::data::strs_v(ks@).subrange(0, i as int),
                decreases ks.len() - i,
            {
                let ghost before = out@;
                out.push(ks[i].clone());
                assert(crate::data::strs_v(out@) =~= crate::data::strs_v(before).push(ks@[i as int]@));
                assert(crate::data::strs_v(out@) =~= crate::data::strs_v(ks@).subrange(0, i + 1));
                i += 1;
            }
            assert(crate::data::strs_v(ks@).subrange(0, ks.len() as int) =~= crate::data::strs_v(ks@));
            ForgetMemory::List(out)
        },
    }
}

fn say(content_type: &str, e: &Expr, msg_data: &mut MessageData, data: &Data, sender: &mut Option<Vec<MSG>>) -> (r: Result<(), ErrorInfo>)
    ensures
        match say_spec(content_type@, *e, turn_of(data, old(msg_data)@, old(sender))) {
            Ok(t) => r is Ok && final(msg_data)@ == t.out && sink_v(*final(sender)) == t.sink,
            Err(k) => r is Err && r->Err_0.kind == k && final(msg_data)@ == old(msg_data)@
                && sink_v(*final(sender)) == sink_v(*old(sender)),
        },
{
    let l = expr_to_literal(e, data)?;
    let msg = to_message(content_type, &l);
    MSG::send(sender, MSG::Message(to_message(content_type, &l)));
    msg_data.add_message(msg);
    Ok(())
}

fn goto(step: String, flow: String, next: MSG, msg_data: &mut MessageData, data: &mut Data, sender: &mut Option<Vec<MSG>>)
    ensures
        final(msg_data)@ == goto_spec(step@, flow@, next@, turn_of(old(data), old(msg_data)@, old(sender))).out,
        final(data)@ == goto_spec(step@, flow@, next@, turn_of(old(data), old(msg_data)@, old(sender))).data,
        sink_v(*final(sender)) == goto_spec(step@, flow@, next@, turn_of(old(data), old(msg_data)@, old(sender))).sink,
{
    MSG::send(sender, next);
    let end = crate::value::is_text(&step, "end");
    data.context.step = step;
    data.context.flow = flow;
    msg_data.exit_condition = Some(if end { ExitCondition::End } else { ExitCondition::Goto });
}

/// Executes one action.
pub fn match_actions(
    function: &ObjectType,
    msg_data: MessageData,
    data: &mut Data,
    sender: &mut Option<Vec<MSG>>,
) -> (r: Result<MessageData, ErrorInfo>)
    ensures
        outcome_matches(action_spec(*function, turn_of(old(data), msg_data@, old(sender))), r, final(data)@, sink_v(*final(sender))),
        r is Err ==> final(data)@ == old(data)@ && sink_v(*final(sender)) == sink_v(*old(sender)),
{
    let mut md = msg_data;
    dispatch_action(function, &mut md, data, sender)?;
    Ok(md)
}

/// Executes one action on the output it is given; a failing action leaves
/// the output, the state and the sink as they were.
pub fn dispatch_action(
    function: &ObjectType,
    msg_data: &mut MessageData,
    data: &mut Data,
    sender: &mut Option<Vec<MSG>>,
) -> (r: Result<(), ErrorInfo>)
    ensures
        match action_spec(*function, turn_of(old(data), old(msg_data)@, old(sender))) {
            Ok(t) => r is Ok && final(msg_data)@ == t.out && final(data)@ == t.data && sink_v(*final(sender)) == t.sink,
            Err(k) => r is Err && r->Err_0.kind == k && final(msg_data)@ == old(msg_data)@ && final(data)@ == old(data)@
                && sink_v(*final(sender)) == sink_v(*old(sender)),
        },
{
    match function {
        ObjectType::Say(arg) => say("text", arg, msg_data, data, sender),
        ObjectType::Debug(arg) => say("debug", arg, msg_data, data, sender),
        ObjectType::Use(arg) => {
            expr_to_literal(arg, data)?;
            Ok(())
        },
        ObjectType::Do(DoType::Exec(arg)) => {
            expr_to_literal(arg, data)?;
            Ok(())
        },
        ObjectType::Do(DoType::Update(name, path, new)) => {
            proof {
                assert(path_v(path@).subrange(0, path@.len() as int) =~= path_v(path@));
            }
            let new_lit = expr_to_literal(new, data)?;
            let new_value = if path.len() == 0 {
                new_lit
            } else {
                let var = get_var(name, data);
                match crate::value::set_path(&var.primitive, path, 0, new_lit.primitive) {
                    Ok(v) => Literal { content_type: var.content_type, primitive: v, interval: var.interval },
                    Err(k) => return Err(error_at(k)),
                }
            };
            let in_step = lookup_memory(&data.step_vars, name).is_some();
            let in_memory = lookup_memory(&data.context.current, name).is_some();
            if !in_step && in_memory {
                let m = Memory::new(name.clone(), new_value.duplicate());
                MSG::send(sender, MSG::Remember(m));
                msg_data.add_to_memory(name, new_value.duplicate());
                data.context.current = crate::data::put_memory(&data.context.current, name, new_value);
            } else {
                data.step_vars = crate::data::put_memory(&data.step_vars, name, new_value);
            }
            Ok(())
        },
        ObjectType::Goto(GotoType::Step(g)) => {
            let step = resolve_goto(g, data);
            let next = MSG::Next { flow: None, step: Some(step.clone()) };
            let flow = data.context.flow.clone();
            {
                goto(step, flow, next, msg_data, data, sender);
                Ok(())
            }
        },
        ObjectType::Goto(GotoType::Flow(g)) => {
            let flow = resolve_goto(g, data);
            let next = MSG::Next { flow: Some(flow.clone()), step: None };
            {
                goto(crate::value::owned("start"), flow, next, msg_data, data, sender);
                Ok(())
            }
        },
        ObjectType::Goto(GotoType::StepFlow { step, flow }) => {
            let step = match step {
                Some(g) => resolve_goto(g, data),
                None => crate::value::owned("start"),
            };
            let flow = match flow {
                Some(g) => resolve_goto(g, data),
                None => data.context.flow.clone(),
            };
            let next_flow = if crate::value::is_text(&step, "end") { None } else { Some(flow.clone()) };
            let next = MSG::Next { flow: next_flow, step: Some(step.clone()) };
            {
                goto(step, flow, next, msg_data, data, sender);
                Ok(())
            }
        },
        ObjectType::Remember(name, variable) => {
            let new_value = expr_to_literal(variable, data)?;
            let m = Memory::new(name.clone(), new_value.duplicate());
            msg_data.add_to_memory(name, new_value.duplicate());
            MSG::send(sender, MSG::Remember(m));
            data.context.current = crate::data::put_memory(&data.context.current, name, new_value);
            Ok(())
        },
        ObjectType::Forget(memory) => {
            msg_data.forget(memory);
            data.context.current = crate::data::retain_memories(&data.context.current, memory);
            MSG::send(sender, MSG::Forget(copy_forget(memory)));
            Ok(())
        },
        ObjectType::Hold => Err(error_at(ErrorKind::ReservedKeywordMisuse)),
    }
}

} // verus!
