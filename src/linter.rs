//! Assembling a bot from its parsed flows, listing its steps, and checking
//! that its gotos lead somewhere.

use vstd::prelude::*;
use crate::ast::{Block, Flow, GotoType, GotoValue, IfStatement, ObjectType, Statement, Step};
use crate::turn::{find_block, find_block_exec, find_flow, lemma_find_last_flow};
use crate::value::{is_text, owned};

verus! {

/// A parsed flow with the name it is known by and its source.
#[derive(Debug)]
pub struct FlowToValidate {
    pub flow_name: String,
    pub ast: Flow,
    pub raw_flow: String,
}

impl FlowToValidate {
    /// The flows of a bot, each under the name it was given; where several
    /// share a name, the last of them is the flow that the name reaches.
    pub fn get_bot(flows: Vec<Self>) -> (r: Vec<Flow>)
        ensures
            r@.len() == flows@.len(),
            forall|i: int| 0 <= i < r@.len() ==> (#[trigger] r@[i]).name@ == flows@[i].flow_name@ && r@[i].steps == flows@[i].ast.steps,
            forall|i: int|
                0 <= i < flows@.len() && (forall|j: int| i < j < flows@.len() ==> (#[trigger] flows@[j]).flow_name@ != flows@[i].flow_name@)
                    ==> ((#[trigger] find_flow(r@, flows@[i].flow_name@)) matches Some(f) && f.steps == flows@[i].ast.steps),
    {
        let mut rest = flows;
        let ghost all = rest@;
        let mut out: Vec<Flow> = Vec::new();
        while rest.len() > 0
            invariant
                out@.len() + rest@.len() == all.len(),
                rest@ == all.subrange(out@.len() as int, all.len() as int),
                forall|i: int| 0 <= i < out@.len() ==> (#[trigger] out@[i]).name@ == all[i].flow_name@ && out@[i].steps == all[i].ast.steps,
            decreases rest.len(),
        {
            let f = rest.remove(0);
            let ghost n = out@.len();
            assert(f == all[n as int]);
            out.push(Flow { name: f.flow_name, steps: f.ast.steps });
            assert(rest@ =~= all.subrange(out@.len() as int, all.len() as int));
        }
        assert forall|i: int|
            0 <= i < all.len() && (forall|j: int| i < j < all.len() ==> (#[trigger] all[j]).flow_name@ != all[i].flow_name@)
                implies ((#[trigger] find_flow(out@, all[i].flow_name@)) matches Some(f) && f.steps == all[i].ast.steps) by {
            assert forall|j: int| i < j < out@.len() implies (#[trigger] out@[j]).name@ != out@[i].name@ by {
                assert(all[j].flow_name@ != all[i].flow_name@);
            }
            lemma_find_last_flow(out@, i);
        }
        out
    }
}

pub open spec fn step_names(steps: Seq<Step>) -> Seq<Seq<char>> {
    steps.map_values(|s: Step| s.name@)
}

fn names_of(steps: &Vec<Step>) -> (r: Vec<String>)
    ensures
        r@.map_values(|s: String| s@) == step_names(steps@),
{
    let mut out: Vec<String> = Vec::new();
    let mut i: usize = 0;
    while i < steps.len()
        invariant
            i <= steps.len(),
            out@.map_values(|s: String| s@) == step_names(steps@).subrange(0, i as int),
        decreases steps.len() - i,
    {
        let ghost before = out@;
        out.push(steps[i].name.clone());
        assert(out@.map_values(|s: String| s@) =~= before.map_values(|s: String| s@).push(steps@[i as int].name@));
        assert(out@.map_values(|s: String| s@) =~= step_names(steps@).subrange(0, i + 1));
        i += 1;
    }
    assert(step_names(steps@).subrange(0, steps.len() as int) =~= step_names(steps@));
    out
}

/// Each flow's name with the names of its steps, in order.
pub fn get_steps_from_flow(flows: &Vec<Flow>) -> (r: Vec<(String, Vec<String>)>)
    ensures
        r@.len() == flows@.len(),
        forall|i: int| 0 <= i < r@.len() ==> (#[trigger] r@[i]).0@ == flows@[i].name@
            && r@[i].1@.map_values(|s: String| s@) == step_names(flows@[i].steps@),
{
    let mut out: Vec<(String, Vec<String>)> = Vec::new();
    let mut i: usize = 0;
    while i < flows.len()
        invariant
            i <= flows.len(),
            out@.len() == i,
            forall|j: int| 0 <= j < i ==> (#[trigger] out@[j]).0@ == flows@[j].name@
                && out@[j].1@.map_values(|s: String| s@) == step_names(flows@[j].steps@),
        decreases flows.len() - i,
    {
        out.push((flows[i].name.clone(), names_of(&flows[i].steps)));
        i += 1;
    }
    out
}

/// The step that a goto in flow `cur` leads to, where its target is written
/// as a name: (flow, step). `None` for other actions, for a target read from
/// a variable, and for the step "end".
pub open spec fn static_target(a: ObjectType, cur: Seq<char>) -> Option<(Seq<char>, Seq<char>)> {
    match a {
        ObjectType::Goto(GotoType::Step(GotoValue::Name(n))) => if n@ == "end"@ {
            None
        } else {
            Some((cur, n@))
        },
        ObjectType::Goto(GotoType::Flow(GotoValue::Name(f))) => Some((f@, "start"@)),
        ObjectType::Goto(GotoType::StepFlow { step, flow }) => {
            let s: Option<Seq<char>> = match step {
                None => Some("start"@),
                Some(GotoValue::Name(n)) => Some(n@),
                Some(GotoValue::Var(_)) => None,
            };
            let f: Option<Seq<char>> = match flow {
                None => Some(cur),
                Some(GotoValue::Name(n)) => Some(n@),
                Some(GotoValue::Var(_)) => None,
            };
            match (s, f) {
                (Some(s), Some(f)) => if s == "end"@ { None } else { Some((f, s)) },
                _ => None,
            }
        },
        _ => None,
    }
}

/// The static goto targets of the statements of `b` from position `i` on,
/// nested ones included, in order.
pub open spec fn block_targets(b: Block, i: int, cur: Seq<char>) -> Seq<(Seq<char>, Seq<char>)>
    decreases b, b.commands.len() - i,
{
    if i < 0 || i >= b.commands.len() {
        Seq::empty()
    } else {
        let here = match b.commands[i].0 {
            Statement::Action(a) => match static_target(a, cur) {
                Some(p) => seq![p],
                None => Seq::empty(),
            },
            Statement::If(s) => if_targets(s, cur),
            Statement::ForEach(fe) => block_targets(fe.block, 0, cur),
        };
        here + block_targets(b, i + 1, cur)
    }
}

pub open spec fn if_targets(s: IfStatement, cur: Seq<char>) -> Seq<(Seq<char>, Seq<char>)>
    decreases s, 0int,
{
    match s {
        IfStatement::IfStmt { consequence, then_branch, .. } => block_targets(consequence, 0, cur) + match then_branch {
            Some(b) => if_targets(*b, cur),
            None => Seq::empty(),
        },
        IfStatement::ElseStmt(b) => block_targets(b, 0, cur),
    }
}

/// The targets that name no step of the bot, in order.
pub open spec fn unresolved(flows: Seq<Flow>, ts: Seq<(Seq<char>, Seq<char>)>) -> Seq<(Seq<char>, Seq<char>)>
    decreases ts.len(),
{
    if ts.len() == 0 {
        ts
    } else {
        let r = unresolved(flows, ts.drop_last());
        if find_block(flows, ts.last().0, ts.last().1) is None { r.push(ts.last()) } else { r }
    }
}

/// A goto that leads to no step of the bot.
#[derive(Debug, PartialEq, Eq)]
pub struct LintError {
    pub flow: String,
    pub step: String,
    pub target_flow: String,
    pub target_step: String,
}

pub struct LintV {
    pub flow: Seq<char>,
    pub step: Seq<char>,
    pub target_flow: Seq<char>,
    pub target_step: Seq<char>,
}

impl View for LintError {
    type V = LintV;

    open spec fn view(&self) -> LintV {
        LintV { flow: self.flow@, step: self.step@, target_flow: self.target_flow@, target_step: self.target_step@ }
    }
}

pub open spec fn lints_v(s: Seq<LintError>) -> Seq<LintV> {
    s.map_values(|e: LintError| e@)
}

pub open spec fn pairs_v(s: Seq<(String, String)>) -> Seq<(Seq<char>, Seq<char>)> {
    s.map_values(|p: (String, String)| (p.0@, p.1@))
}

/// An error for each target of a goto in step `step` of flow `flow`.
pub open spec fn lints_for(flow: Seq<char>, step: Seq<char>, ts: Seq<(Seq<char>, Seq<char>)>) -> Seq<LintV> {
    ts.map_values(|t: (Seq<char>, Seq<char>)| LintV { flow, step, target_flow: t.0, target_step: t.1 })
}

/// The errors of the first `k` steps of flow `f`.
pub open spec fn step_errors(flows: Seq<Flow>, f: Flow, k: int) -> Seq<LintV>
    decreases k,
{
    if k <= 0 || k > f.steps@.len() {
        Seq::empty()
    } else {
        let st = f.steps@[k - 1];
        step_errors(flows, f, k - 1) + lints_for(f.name@, st.name@, unresolved(flows, block_targets(st.block, 0, f.name@)))
    }
}

/// The errors of the first `n` flows.
pub open spec fn bot_errors(flows: Seq<Flow>, n: int) -> Seq<LintV>
    decreases n,
{
    if n <= 0 || n > flows.len() {
        Seq::empty()
    } else {
        bot_errors(flows, n - 1) + step_errors(flows, flows[n - 1], flows[n - 1].steps@.len() as int)
    }
}

fn static_target_exec(a: &ObjectType, cur: &String) -> (r: Option<(String, String)>)
    ensures
        match static_target(*a, cur@) {
            Some(p) => r matches Some(x) && x.0@ == p.0 && x.1@ == p.1,
            None => r is None,
        },
{
    match a {
        ObjectType::Goto(GotoType::Step(GotoValue::Name(n))) => if is_text(n, "end") {
            None
        } else {
            Some((cur.clone(), n.clone()))
        },
        ObjectType::Goto(GotoType::Flow(GotoValue::Name(f))) => Some((f.clone(), owned("start"))),
        ObjectType::Goto(GotoType::StepFlow { step, flow }) => {
            let s = match step {
                None => owned("start"),
                Some(GotoValue::Name(n)) => n.clone(),
                Some(GotoValue::Var(_)) => return None,
            };
            let f = match flow {
                None => cur.clone(),
                Some(GotoValue::Name(n)) => n.clone(),
                Some(GotoValue::Var(_)) => return None,
            };
            if is_text(&s, "end") {
                None
            } else {
                Some((f, s))
            }
        },
        _ => None,
    }
}

fn collect_block(b: &Block, cur: &String, out: &mut Vec<(String, String)>)
    ensures
        pairs_v(final(out)@) == pairs_v(old(out)@) + block_targets(*b, 0, cur@),
    decreases b,
{
    let ghost start = pairs_v(out@);
    let mut i: usize = 0;
    while i < b.commands.len()
        invariant
            i <= b.commands.len(),
            start + block_targets(*b, 0, cur@) == pairs_v(out@) + block_targets(*b, i as int, cur@),
        decreases b.commands.len() - i,
    {
        let ghost before = pairs_v(out@);
        let ghost here = match b.commands[i as int].0 {
            Statement::Action(a) => match static_target(a, cur@) {
                Some(p) => seq![p],
                None => Seq::empty(),
            },
            Statement::If(s) => if_targets(s, cur@),
            Statement::ForEach(fe) => block_targets(fe.block, 0, cur@),
        };
        match &b.commands[i].0 {
            Statement::Action(a) => {
                match static_target_exec(a, cur) {
                    Some(p) => {
                        let ghost pv = (p.0@, p.1@);
                        out.push(p);
                        assert(pairs_v(out@) =~= before + seq![pv]);
                    },
                    None => {
                        assert(before + here =~= before);
                    },
                }
            },
            Statement::If(s) => collect_if(s, cur, out),
            Statement::ForEach(fe) => collect_block(&fe.block, cur, out),
        }
        assert(pairs_v(out@) == before + here);
        assert(block_targets(*b, i as int, cur@) == here + block_targets(*b, i + 1, cur@));
        assert(pairs_v(out@) + block_targets(*b, i + 1, cur@) =~= before + block_targets(*b, i as int, cur@));
        i += 1;
    }
    assert(pairs_v(out@) + block_targets(*b, i as int, cur@) =~= pairs_v(out@));
}

fn collect_if(s: &IfStatement, cur: &String, out: &mut Vec<(String, String)>)
    ensures
        pairs_v(final(out)@) == pairs_v(old(out)@) + if_targets(*s, cur@),
    decreases s,
{
    let ghost start = pairs_v(out@);
    match s {
        IfStatement::IfStmt { consequence, then_branch, .. } => {
            collect_block(consequence, cur, out);
            let ghost mid = pairs_v(out@);
            match then_branch {
                Some(b) => collect_if(b, cur, out),
                None => {},
            }
            assert(pairs_v(out@) =~= start + if_targets(*s, cur@));
        },
        IfStatement::ElseStmt(b) => collect_block(b, cur, out),
    }
}

fn unresolved_exec(flows: &Vec<Flow>, ts: &Vec<(String, String)>) -> (r: Vec<(String, String)>)
    ensures
        pairs_v(r@) == unresolved(flows@, pairs_v(ts@)),
{
    let mut out: Vec<(String, String)> = Vec::new();
    let mut i: usize = 0;
    while i < ts.len()
        invariant
            i <= ts.len(),
            pairs_v(out@) == unresolved(flows@, pairs_v(ts@).subrange(0, i as int)),
        decreases ts.len() - i,
    {
        let ghost pre = pairs_v(ts@).subrange(0, i as int);
        assert(pairs_v(ts@).subrange(0, i + 1).drop_last() =~= pre);
        if find_block_exec(flows, &ts[i].0, &ts[i].1).is_none() {
            let ghost before = out@;
            out.push((ts[i].0.clone(), ts[i].1.clone()));
            assert(pairs_v(out@) =~= pairs_v(before).push((ts@[i as int].0@, ts@[i as int].1@)));
        }
        i += 1;
    }
    assert(pairs_v(ts@).subrange(0, ts.len() as int) =~= pairs_v(ts@));
    out
}

/// Checks that every goto whose target is written as a name leads to a
/// step of the bot; the errors come flow by flow, step by step, in the
/// order of the statements.
pub fn validate_bot(flows: &Vec<Flow>) -> (r: Vec<LintError>)
    ensures
        lints_v(r@) == bot_errors(flows@, flows@.len() as int),
{
    let mut out: Vec<LintError> = Vec::new();
    let mut i: usize = 0;
    while i < flows.len()
        invariant
            i <= flows.len(),
            lints_v(out@) == bot_errors(flows@, i as int),
        decreases flows.len() - i,
    {
        let f = &flows[i];
        let ghost flow_start = lints_v(out@);
        let mut k: usize = 0;
        while k < f.steps.len()
            invariant
                i < flows.len(),
                f == flows@[i as int],
                k <= f.steps.len(),
                lints_v(out@) == flow_start + step_errors(flows@, *f, k as int),
            decreases f.steps.len() - k,
        {
            let st = &f.steps[k];
            let mut ts: Vec<(String, String)> = Vec::new();
            collect_block(&st.block, &f.name, &mut ts);
            assert(pairs_v(ts@) =~= block_targets(st.block, 0, f.name@));
            let bad = unresolved_exec(flows, &ts);
            let ghost mapped = lints_for(f.name@, st.name@, pairs_v(bad@));
            let ghost before = lints_v(out@);
            let mut j: usize = 0;
            while j < bad.len()
                invariant
                    j <= bad.len(),
                    mapped == lints_for(f.name@, st.name@, pairs_v(bad@)),
                    mapped.len() == bad@.len(),
                    lints_v(out@) == before + mapped.subrange(0, j as int),
                decreases bad.len() - j,
            {
                let ghost prev = out@;
                out.push(LintError {
                    flow: f.name.clone(),
                    step: st.name.clone(),
                    target_flow: bad[j].0.clone(),
                    target_step: bad[j].1.clone(),
                });
                assert(lints_v(out@) =~= lints_v(prev).push(mapped[j as int]));
                assert(mapped.subrange(0, j + 1) =~= mapped.subrange(0, j as int).push(mapped[j as int]));
                j += 1;
            }
            assert(mapped.subrange(0, bad.len() as int) =~= mapped);
            assert(lints_v(out@) =~= flow_start + step_errors(flows@, *f, k + 1));
            k += 1;
        }
        assert(lints_v(out@) =~= bot_errors(flows@, i + 1));
        i += 1;
    }
    out
}

} // verus!
