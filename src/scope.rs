//! The walk over a block's statements, conditionals and loops, with the
//! hold/resume protocol.

use vstd::prelude::*;
use crate::actions::{action_spec, dispatch_action, run_matches, turn_of, walk_matches, TurnV};
use crate::ast::{Block, ForEachStatement, IfStatement, InstructionInfo, ObjectType, Statement};
use crate::context::{Data, DataV};
use crate::data::{
    combine_spec, empty_output, put_spec, sent, sink_v, ExitCondition, Hold, HoldV, IndexInfo,
    IndexV, MSG, MessageData, MessageDataV, MsgV,
};
use crate::eval::{error_at, eval_spec, expr_to_literal, lit_of, make_lit, valid_condition, valid_spec};
use crate::value::{ErrorInfo, ErrorKind, Value, ValueV};

verus! {

/// The continuation that a `hold` at statement `index` records.
pub open spec fn hold_at(d: DataV, index: usize) -> HoldV {
    HoldV {
        index: IndexV { command_index: index, loop_indexes: d.loop_indexes },
        step_vars: d.step_vars,
        step_name: d.step,
        flow_name: d.flow,
        flow_hash: d.flow_hash,
    }
}

/// Whether a resumed walk passes over a statement whose own position and
/// nested statements all come before the hold.
pub open spec fn skipped_by(h: HoldV, info: InstructionInfo) -> bool {
    h.index.command_index > info.index + info.total
}

/// Running the statements of `block` from position `i` on, in the turn
/// `t`. The walk stops once an exit condition is set. While a hold is
/// loaded, statements before it are passed over, and the hold statement
/// itself consumes it: nothing that ran before the suspension runs again.
pub open spec fn scope_spec(block: Block, i: int, t: TurnV) -> Result<TurnV, (ErrorKind, TurnV)>
    decreases block, 0int, block.commands.len() - i,
{
    if i < 0 || i >= block.commands.len() || t.out.exit_condition is Some {
        Ok(t)
    } else {
        let stmt = block.commands[i].0;
        let info = block.commands[i].1;
        if t.data.hold is Some && skipped_by(t.data.hold->0, info) {
            scope_spec(block, i + 1, t)
        } else if t.data.hold is Some && t.data.hold->0.index.command_index == info.index {
            scope_spec(block, i + 1, TurnV { data: DataV { hold: None, ..t.data }, ..t })
        } else {
            match stmt {
                Statement::Action(ObjectType::Hold) => Ok(TurnV {
                    out: MessageDataV { exit_condition: Some(ExitCondition::Hold), ..t.out },
                    sink: sent(t.sink, MsgV::Hold(hold_at(t.data, info.index))),
                    ..t
                }),
                Statement::Action(a) => match action_spec(a, t) {
                    Ok(t2) => scope_spec(block, i + 1, t2),
                    Err(k) => Err((k, t)),
                },
                Statement::If(s) => match if_spec(s, t) {
                    Ok(t2) => scope_spec(block, i + 1, t2),
                    Err(e) => Err(e),
                },
                Statement::ForEach(fe) => match foreach_spec(fe, t) {
                    Ok(t2) => scope_spec(block, i + 1, t2),
                    Err(e) => Err(e),
                },
            }
        }
    }
}

/// The loop-index stack without its top.
pub open spec fn pop_spec(s: Seq<usize>) -> Seq<usize> {
    if s.len() > 0 { s.drop_last() } else { s }
}

/// Where a loop starts: at the iteration that a loaded hold records as its
/// first loop index, which the loop consumes; else at the first item.
pub open spec fn loop_start(d: DataV) -> (usize, DataV) {
    match d.hold {
        Some(h) => if h.index.loop_indexes.len() > 0 {
            (
                h.index.loop_indexes[0],
                DataV {
                    hold: Some(HoldV {
                        index: IndexV { loop_indexes: h.index.loop_indexes.remove(0), ..h.index },
                        ..h
                    }),
                    ..d
                },
            )
        } else {
            (0, d)
        },
        None => (0, d),
    }
}

/// Running a loop: the array is evaluated, the loop's index is pushed on
/// the loop-index stack while the iterations run, and popped after.
pub open spec fn foreach_spec(fe: ForEachStatement, t: TurnV) -> Result<TurnV, (ErrorKind, TurnV)>
    decreases fe, 1int, 0int,
{
    match eval_spec(fe.expr, t.data) {
        Err(k) => Err((k, t)),
        Ok(l) => match l.value {
            ValueV::Array(items) => {
                let (skip, d) = loop_start(t.data);
                let t1 = TurnV { data: DataV { loop_indexes: d.loop_indexes.push(skip), ..d }, ..t };
                match for_iter_spec(fe, items, skip as int, t1) {
                    Ok(t2) => Ok(TurnV { data: DataV { loop_indexes: pop_spec(t2.data.loop_indexes), ..t2.data }, ..t2 }),
                    Err(e) => Err(e),
                }
            },
            _ => Err((ErrorKind::IllegalOperation, t)),
        },
    }
}

/// The state in which iteration `j` of a loop runs.
pub open spec fn iteration_data(fe: ForEachStatement, items: Seq<ValueV>, j: int, d: DataV) -> DataV {
    let with_item = put_spec(d.step_vars, fe.ident@, lit_of(items[j]));
    DataV {
        step_vars: match fe.index {
            Some(ix) => put_spec(with_item, ix@, lit_of(ValueV::Int(j as i64))),
            None => with_item,
        },
        loop_indexes: pop_spec(d.loop_indexes).push(j as usize),
        ..d
    }
}

/// Iterations `j` and on of a loop; one that sets an exit condition is the
/// last.
pub open spec fn for_iter_spec(fe: ForEachStatement, items: Seq<ValueV>, j: int, t: TurnV) -> Result<TurnV, (ErrorKind, TurnV)>
    decreases fe, 0int, items.len() - j,
{
    if j < 0 || j >= items.len() {
        Ok(t)
    } else {
        match scope_spec(fe.block, 0, TurnV { data: iteration_data(fe, items, j, t.data), out: empty_output(), sink: t.sink }) {
            Err((k, t2)) => Err((k, TurnV { out: combine_spec(t.out, t2.out), ..t2 })),
            Ok(t2) => {
                let out = combine_spec(t.out, t2.out);
                if t2.out.exit_condition is Some {
                    Ok(TurnV { out, ..t2 })
                } else {
                    for_iter_spec(fe, items, j + 1, TurnV { out, ..t2 })
                }
            },
        }
    }
}

/// Running an if/else chain. While a hold is loaded, the branch that holds
/// it is entered without evaluating the condition again.
pub open spec fn if_spec(s: IfStatement, t: TurnV) -> Result<TurnV, (ErrorKind, TurnV)>
    decreases s, 0int, 0int,
{
    match s {
        IfStatement::IfStmt { cond, consequence, then_branch, last_action_index } => {
            let enter = match t.data.hold {
                Some(h) => h.index.command_index <= last_action_index,
                None => valid_spec(eval_spec(cond, t.data)),
            };
            if enter {
                match scope_spec(consequence, 0, TurnV { out: empty_output(), ..t }) {
                    Ok(t2) => Ok(TurnV { out: combine_spec(t.out, t2.out), ..t2 }),
                    Err((k, t2)) => Err((k, TurnV { out: combine_spec(t.out, t2.out), ..t2 })),
                }
            } else {
                match then_branch {
                    Some(b) => if_spec(*b, t),
                    None => Ok(t),
                }
            }
        },
        IfStatement::ElseStmt(consequence) => match scope_spec(consequence, 0, TurnV { out: empty_output(), ..t }) {
            Ok(t2) => Ok(TurnV { out: combine_spec(t.out, t2.out), ..t2 }),
            Err((k, t2)) => Err((k, TurnV { out: combine_spec(t.out, t2.out), ..t2 })),
        },
    }
}

fn copy_indexes(v: &Vec<usize>) -> (r: Vec<usize>)
    ensures
        r@ == v@,
{
    let mut out: Vec<usize> = Vec::new();
    let mut i: usize = 0;
    while i < v.len()
        invariant
            i <= v.len(),
            out@ == v@.subrange(0, i as int),
        decreases v.len() - i,
    {
        out.push(v[i]);
        assert(out@ =~= v@.subrange(0, i + 1));
        i += 1;
    }
    assert(v@.subrange(0, v.len() as int) =~= v@);
    out
}

/// Runs the statements of a block.
pub fn interpret_scope(actions: &Block, data: &mut Data, sender: &mut Option<Vec<MSG>>) -> (r: Result<MessageData, ErrorInfo>)
    ensures
        walk_matches(scope_spec(*actions, 0, turn_of(old(data), empty_output(), old(sender))), r, final(data)@, sink_v(*final(sender))),
{
    let mut out = MessageData::new();
    run_block(actions, data, &mut out, sender)?;
    Ok(out)
}

/// Runs the statements of a block, adding what they produce to `out`; where
/// a statement fails, `out` keeps what came before it.
pub fn run_block(actions: &Block, data: &mut Data, out: &mut MessageData, sender: &mut Option<Vec<MSG>>) -> (r: Result<(), ErrorInfo>)
    ensures
        run_matches(
            scope_spec(*actions, 0, turn_of(old(data), old(out)@, old(sender))),
            r,
            final(data)@,
            final(out)@,
            sink_v(*final(sender)),
        ),
    decreases actions, 1int,
{
    let ghost t0 = turn_of(data, out@, sender);
    let mut i: usize = 0;
    while i < actions.commands.len()
        invariant
            i <= actions.commands.len(),
            t0 == turn_of(old(data), old(out)@, old(sender)),
            scope_spec(*actions, 0, t0) == scope_spec(*actions, i as int, turn_of(data, out@, sender)),
        decreases actions.commands.len() - i,
    {
        if out.exit_condition.is_some() {
            return Ok(());
        }
        let cmd = &actions.commands[i];
        let info = cmd.1;
        let mut pass = false;
        match &data.context.hold {
            Some(hold) => {
                let ci = hold.index.command_index;
                if ci > info.index && ci - info.index > info.total {
                    pass = true;
                } else if ci == info.index {
                    data.context.hold = None;
                    pass = true;
                }
            },
            None => {},
        }
        if !pass {
            match &cmd.0 {
                Statement::Action(ObjectType::Hold) => {
                    let hold = Hold {
                        index: IndexInfo { command_index: info.index, loop_indexes: copy_indexes(&data.loop_indexes) },
                        step_vars: crate::data::copy_memories(&data.step_vars),
                        step_name: data.context.step.clone(),
                        flow_name: data.context.flow.clone(),
                        flow_hash: data.flow_hash.clone(),
                    };
                    MSG::send(sender, MSG::Hold(hold));
                    out.exit_condition = Some(ExitCondition::Hold);
                    return Ok(());
                },
                Statement::Action(a) => {
                    dispatch_action(a, out, data, sender)?;
                },
                Statement::If(s) => {
                    run_if(s, out, data, sender)?;
                },
                Statement::ForEach(fe) => {
                    run_loop(fe, out, data, sender)?;
                },
            }
        }
        i += 1;
    }
    Ok(())
}

/// Runs a loop over the items of an array.
pub fn for_loop(
    fe: &ForEachStatement,
    msg_data: MessageData,
    data: &mut Data,
    sender: &mut Option<Vec<MSG>>,
) -> (r: Result<MessageData, ErrorInfo>)
    ensures
        walk_matches(foreach_spec(*fe, turn_of(old(data), msg_data@, old(sender))), r, final(data)@, sink_v(*final(sender))),
{
    let mut md = msg_data;
    run_loop(fe, &mut md, data, sender)?;
    Ok(md)
}

/// Runs a loop, adding what its iterations produce to `out`.
pub fn run_loop(
    fe: &ForEachStatement,
    out: &mut MessageData,
    data: &mut Data,
    sender: &mut Option<Vec<MSG>>,
) -> (r: Result<(), ErrorInfo>)
    ensures
        run_matches(
            foreach_spec(*fe, turn_of(old(data), old(out)@, old(sender))),
            r,
            final(data)@,
            final(out)@,
            sink_v(*final(sender)),
        ),
    decreases fe, 0int,
{
    let ghost t0 = turn_of(data, out@, sender);
    let lit = expr_to_literal(&fe.expr, data)?;
    let items = match lit.primitive {
        Value::Array(items) => items,
        _ => return Err(error_at(ErrorKind::IllegalOperation)),
    };
    let ghost iv = crate::value::values_v(items@, items@.len() as int);
    proof { crate::value::lemma_values_v(items@, items@.len() as int); }
    let mut skip: usize = 0;
    let taken = data.context.hold.take();
    match taken {
        Some(mut h) => {
            if h.index.loop_indexes.len() > 0 {
                skip = h.index.loop_indexes.remove(0);
            }
            data.context.hold = Some(h);
        },
        None => {},
    }
    data.loop_indexes.push(skip);
    let mut j: usize = skip;
    while j < items.len()
        invariant
            t0 == turn_of(old(data), old(out)@, old(sender)),
            iv.len() == items@.len(),
            forall|k: int| 0 <= k < items@.len() ==> iv[k] == items@[k]@,
            foreach_spec(*fe, t0) == match for_iter_spec(*fe, iv, j as int, turn_of(data, out@, sender)) {
                Ok(t2) => Ok(TurnV { data: DataV { loop_indexes: pop_spec(t2.data.loop_indexes), ..t2.data }, ..t2 }),
                Err(e) => Err(e),
            },
        decreases items.len() - j,
    {
        let ghost before = data@;
        let item = make_lit(items[j].duplicate());
        data.step_vars = crate::data::put_memory(&data.step_vars, &fe.ident, item);
        match &fe.index {
            Some(ix) => {
                data.step_vars = crate::data::put_memory(&data.step_vars, ix, make_lit(Value::Int(j as i64)));
            },
            None => {},
        }
        data.loop_indexes.pop();
        data.loop_indexes.push(j);
        assert(data.loop_indexes@ =~= pop_spec(before.loop_indexes).push(j));
        assert(data@ == iteration_data(*fe, iv, j as int, before));
        let mut sub = MessageData::new();
        let res = run_block(&fe.block, data, &mut sub, sender);
        let stop = sub.exit_condition.is_some();
        out.append(sub);
        match res {
            Err(e) => return Err(e),
            Ok(()) => {},
        }
        if stop {
            data.loop_indexes.pop();
            return Ok(());
        }
        j += 1;
    }
    data.loop_indexes.pop();
    Ok(())
}

/// Runs an if/else chain.
pub fn solve_if_statement(
    statement: &IfStatement,
    msg_data: MessageData,
    data: &mut Data,
    sender: &mut Option<Vec<MSG>>,
) -> (r: Result<MessageData, ErrorInfo>)
    ensures
        walk_matches(if_spec(*statement, turn_of(old(data), msg_data@, old(sender))), r, final(data)@, sink_v(*final(sender))),
{
    let mut md = msg_data;
    run_if(statement, &mut md, data, sender)?;
    Ok(md)
}

/// Runs an if/else chain, adding what the branch taken produces to `out`.
pub fn run_if(
    statement: &IfStatement,
    out: &mut MessageData,
    data: &mut Data,
    sender: &mut Option<Vec<MSG>>,
) -> (r: Result<(), ErrorInfo>)
    ensures
        run_matches(
            if_spec(*statement, turn_of(old(data), old(out)@, old(sender))),
            r,
            final(data)@,
            final(out)@,
            sink_v(*final(sender)),
        ),
    decreases statement, 0int,
{
    match statement {
        IfStatement::IfStmt { cond, consequence, then_branch, last_action_index } => {
            let enter = match &data.context.hold {
                Some(hold) => hold.index.command_index <= *last_action_index,
                None => valid_condition(cond, data),
            };
            if enter {
                let mut sub = MessageData::new();
                let res = run_block(consequence, data, &mut sub, sender);
                out.append(sub);
                res
            } else {
                match then_branch {
                    Some(b) => run_if(b, out, data, sender),
                    None => Ok(()),
                }
            }
        },
        IfStatement::ElseStmt(consequence) => {
            let mut sub = MessageData::new();
            let res = run_block(consequence, data, &mut sub, sender);
            out.append(sub);
            res
        },
    }
}

} // verus!
