use csml_interpreter::ast::{
    Block, DoType, Expr, Flow, ForEachStatement, GotoType, GotoValue, IfStatement, Infix,
    InstructionInfo, ObjectType, Statement, Step,
};
use csml_interpreter::context::Data;
use csml_interpreter::data::{
    ExitCondition, ForgetMemory, Hold, IndexInfo, Memory, MessageData, MSG,
};
use csml_interpreter::actions::match_actions;
use csml_interpreter::eval::{evaluate_condition, expr_to_literal, get_var, valid_condition};
use csml_interpreter::scope::{interpret_scope, solve_if_statement};
use csml_interpreter::turn::run_turn;
use csml_interpreter::linter::{get_steps_from_flow, validate_bot, FlowToValidate, LintError};
use csml_interpreter::value::{
    ArithOp, ErrorInfo, ErrorKind, Interval, Literal, PathSegment, PrimitiveBoolean, Right, Value,
};

fn key(k: &str) -> PathSegment {
    PathSegment::Key(k.to_string())
}

fn s(x: &str) -> String {
    x.to_string()
}

fn lit(v: Value) -> Literal {
    Literal { content_type: s("text"), primitive: v, interval: Interval::new(0, 0) }
}

fn text(x: &str) -> Expr {
    Expr::LitExpr(lit(Value::Str(s(x))))
}

fn say(x: &str) -> Statement {
    Statement::Action(ObjectType::Say(text(x)))
}

fn block(stmts: Vec<Statement>) -> Block {
    let mut commands = Vec::new();
    let mut i = 0usize;
    for st in stmts {
        commands.push((st, InstructionInfo { index: i, total: 0 }));
        i += 1;
    }
    Block { commands }
}

fn mem(k: &str, v: Value) -> Memory {
    Memory::new(s(k), lit(v))
}

fn data_at(flow: &str, step: &str, event: Vec<Memory>) -> Data {
    Data::new(s(flow), s(step), Vec::new(), event, s("hash-1"))
}

fn flow(name: &str, steps: Vec<(&str, Block)>) -> Flow {
    Flow {
        name: s(name),
        steps: steps.into_iter().map(|(n, b)| Step { name: s(n), block: b }).collect(),
    }
}

fn texts(md: &MessageData) -> Vec<String> {
    md.messages.iter().map(|m| m.text.clone()).collect()
}

// ----- values and arithmetic -----

#[test]
fn arithmetic_on_numbers() {
    let r = Value::Int(7).do_add(&Value::Int(5)).unwrap();
    assert!(matches!(r, Value::Int(12)));
    let r = Value::Boolean(true).do_add(&Value::Int(5)).unwrap();
    assert!(matches!(r, Value::Int(6)));
    let r = Value::Boolean(true).do_add(&Value::Boolean(true)).unwrap();
    assert!(matches!(r, Value::Int(2)));
    let r = Value::Int(7).do_sub(&Value::Boolean(true)).unwrap();
    assert!(matches!(r, Value::Int(6)));
    let r = Value::Int(-7).do_mul(&Value::Int(3)).unwrap();
    assert!(matches!(r, Value::Int(-21)));
    let r = Value::Int(-7).do_div(&Value::Int(2)).unwrap();
    assert!(matches!(r, Value::Int(-3)));
    let r = Value::Int(-7).do_rem(&Value::Int(2)).unwrap();
    assert!(matches!(r, Value::Int(-1)));
    let r = Value::Int(12).do_bitand(&Value::Int(10)).unwrap();
    assert!(matches!(r, Value::Int(8)));
    let r = Value::Int(12).do_bitor(&Value::Int(3)).unwrap();
    assert!(matches!(r, Value::Int(15)));
    let r = Value::Int(i64::MIN).do_rem(&Value::Int(-1)).unwrap();
    assert!(matches!(r, Value::Int(0)));
}

#[test]
fn arithmetic_on_other_pairs_is_illegal() {
    assert_eq!(Value::Str(s("a")).do_add(&Value::Int(1)).err(), Some(ErrorKind::IllegalOperation));
    assert_eq!(Value::Null.do_mul(&Value::Int(1)).err(), Some(ErrorKind::IllegalOperation));
    assert_eq!(Value::Int(1).do_sub(&Value::Str(s("b"))).err(), Some(ErrorKind::IllegalOperation));
    assert_eq!(Value::Int(i64::MAX).do_add(&Value::Int(1)).err(), Some(ErrorKind::IllegalOperation));
    assert_eq!(Value::Int(i64::MIN).do_div(&Value::Int(-1)).err(), Some(ErrorKind::IllegalOperation));
}

#[test]
fn division_by_zero_is_an_error() {
    assert_eq!(Value::Int(3).do_div(&Value::Int(0)).err(), Some(ErrorKind::DivisionByZero));
    assert_eq!(Value::Int(3).do_rem(&Value::Int(0)).err(), Some(ErrorKind::DivisionByZero));
    assert_eq!(Value::Boolean(true).do_div(&Value::Boolean(false)).err(), Some(ErrorKind::DivisionByZero));
    assert_eq!(Value::Int(3).arith(ArithOp::Rem, &Value::Boolean(false)).err(), Some(ErrorKind::DivisionByZero));
}

#[test]
fn display_and_methods() {
    assert_eq!(Value::Int(-1204).to_display_string(), "-1204");
    assert_eq!(Value::Int(0).to_display_string(), "0");
    assert_eq!(Value::Int(i64::MIN).to_display_string(), "-9223372036854775808");
    assert_eq!(Value::Boolean(false).to_display_string(), "false");
    assert_eq!(Value::Null.to_display_string(), "null");
    let (v, right) = Value::Boolean(true).dispatch(&s("type_of"), 0).unwrap();
    assert!(matches!(v, Value::Str(ref t) if t == "boolean"));
    assert_eq!(right, Right::Read);
    let (v, _) = Value::Str(s("héllo")).dispatch(&s("length"), 0).unwrap();
    assert!(matches!(v, Value::Int(5)));
    assert_eq!(Value::Int(1).dispatch(&s("length"), 0).err(), Some(ErrorKind::UnknownMethod));
    assert_eq!(Value::Int(1).dispatch(&s("to_string"), 1).err(), Some(ErrorKind::BadArguments));
}

#[test]
fn equality_and_ordering() {
    assert!(Value::Str(s("hi")).equals(&Value::Str(s("hi"))));
    assert!(!Value::Int(1).equals(&Value::Boolean(true)));
    assert_eq!(Value::Int(1).compare(&Value::Int(2)), Some(std::cmp::Ordering::Less));
    assert_eq!(Value::Boolean(true).compare(&Value::Boolean(false)), Some(std::cmp::Ordering::Greater));
    assert_eq!(Value::Int(1).compare(&Value::Str(s("1"))), None);
    assert_eq!(Value::Str(s("abc")).compare(&Value::Str(s("abd"))), Some(std::cmp::Ordering::Less));
    assert_eq!(Value::Str(s("ab")).compare(&Value::Str(s("a"))), Some(std::cmp::Ordering::Greater));
    assert_eq!(Value::Str(s("é")).compare(&Value::Str(s("é"))), Some(std::cmp::Ordering::Equal));
    assert_eq!(Value::Str(s("")).compare(&Value::Str(s("a"))), Some(std::cmp::Ordering::Less));
}

// ----- conditions -----

#[test]
fn conditions_evaluate_and_degrade() {
    let data = data_at("f", "start", vec![mem("text", Value::Str(s("hi")))]);
    let eq = evaluate_condition(&Infix::Equal, &Expr::EventPath(s("text")), &text("hi"), &data).unwrap();
    assert!(matches!(eq.primitive, Value::Boolean(true)));
    let lt = evaluate_condition(
        &Infix::LessThan,
        &Expr::LitExpr(lit(Value::Int(2))),
        &Expr::LitExpr(lit(Value::Int(3))),
        &data,
    )
    .unwrap();
    assert!(matches!(lt.primitive, Value::Boolean(true)));
    let bad = Expr::InfixExpr(
        Infix::Arith(ArithOp::Div),
        Box::new(Expr::LitExpr(lit(Value::Int(1)))),
        Box::new(Expr::LitExpr(lit(Value::Int(0)))),
    );
    assert_eq!(expr_to_literal(&bad, &data).err().map(|e| e.kind), Some(ErrorKind::DivisionByZero));
    assert!(!valid_condition(&bad, &data));
    let not_bad = Expr::InfixExpr(Infix::Not, Box::new(bad), Box::new(text("")));
    assert!(valid_condition(&not_bad, &data));
    let undeclared = get_var(&s("nobody"), &data);
    assert!(matches!(undeclared.primitive, Value::Null));
}

// ----- actions -----

#[test]
fn remember_then_forget_leaves_no_delta() {
    let mut data = data_at("f", "start", Vec::new());
    let mut sink = Some(Vec::new());
    let md = MessageData::new();
    let md = match_actions(&ObjectType::Remember(s("k"), text("v")), md, &mut data, &mut sink).unwrap();
    assert_eq!(md.memories.len(), 1);
    let md = match_actions(&ObjectType::Forget(ForgetMemory::Single(s("k"))), md, &mut data, &mut sink).unwrap();
    assert!(md.memories.iter().all(|m| m.key != "k"));
    assert!(data.context.current.iter().all(|m| m.key != "k"));
    let events = sink.unwrap();
    assert!(matches!(&events[0], MSG::Remember(m) if m.key == "k"));
    assert!(matches!(&events[1], MSG::Forget(ForgetMemory::Single(k)) if k == "k"));
}

#[test]
fn update_writes_where_the_variable_lives() {
    let mut data = data_at("f", "start", Vec::new());
    data.context.current.push(mem("count", Value::Int(1)));
    let mut sink = None;
    let md = match_actions(
        &ObjectType::Do(DoType::Update(s("count"), Vec::new(), Expr::LitExpr(lit(Value::Int(2))))),
        MessageData::new(),
        &mut data,
        &mut sink,
    )
    .unwrap();
    assert_eq!(md.memories.len(), 1);
    assert!(matches!(get_var(&s("count"), &data).primitive, Value::Int(2)));
    let md = match_actions(
        &ObjectType::Do(DoType::Update(s("local"), Vec::new(), text("x"))),
        md,
        &mut data,
        &mut sink,
    )
    .unwrap();
    assert_eq!(md.memories.len(), 1);
    assert_eq!(data.step_vars.len(), 1);
}

#[test]
fn goto_end_ends_the_turn() {
    let mut data = data_at("f", "start", Vec::new());
    let mut sink = Some(Vec::new());
    let md = match_actions(
        &ObjectType::Goto(GotoType::Step(GotoValue::Name(s("end")))),
        MessageData::new(),
        &mut data,
        &mut sink,
    )
    .unwrap();
    assert_eq!(md.exit_condition, Some(ExitCondition::End));
    assert_eq!(data.context.step, "end");
    let events = sink.unwrap();
    assert_eq!(events.len(), 1);
    assert!(matches!(&events[0], MSG::Next { flow: None, step: Some(st) } if st == "end"));
}

#[test]
fn goto_flow_without_step_lands_on_start() {
    let mut data = data_at("f", "other", Vec::new());
    let mut sink = Some(Vec::new());
    let md = match_actions(
        &ObjectType::Goto(GotoType::StepFlow { step: None, flow: Some(GotoValue::Name(s("X"))) }),
        MessageData::new(),
        &mut data,
        &mut sink,
    )
    .unwrap();
    assert_eq!(md.exit_condition, Some(ExitCondition::Goto));
    assert_eq!(data.context.step, "start");
    assert_eq!(data.context.flow, "X");
    let events = sink.unwrap();
    assert!(matches!(&events[0], MSG::Next { flow: Some(f), step: Some(st) } if f == "X" && st == "start"));
}

#[test]
fn hold_is_no_action() {
    let mut data = data_at("f", "start", Vec::new());
    let mut sink = None;
    let r = match_actions(&ObjectType::Hold, MessageData::new(), &mut data, &mut sink);
    assert_eq!(r.err().map(|e| e.kind), Some(ErrorKind::ReservedKeywordMisuse));
}

// ----- blocks, holds and turns -----

fn held_block() -> Block {
    block(vec![say("a"), say("b"), Statement::Action(ObjectType::Hold), say("c"), say("d")])
}

#[test]
fn hold_suspends_the_block() {
    let mut data = data_at("f", "start", Vec::new());
    let mut sink = Some(Vec::new());
    let md = interpret_scope(&held_block(), &mut data, &mut sink).unwrap();
    assert_eq!(texts(&md), vec![s("a"), s("b")]);
    assert_eq!(md.exit_condition, Some(ExitCondition::Hold));
    let events = sink.unwrap();
    assert!(matches!(&events[2], MSG::Hold(h) if h.index.command_index == 2 && h.flow_hash == "hash-1"));
}

#[test]
fn resume_runs_only_what_follows_the_hold() {
    let mut data = data_at("f", "start", Vec::new());
    let hold = Hold {
        index: IndexInfo { command_index: 2, loop_indexes: Vec::new() },
        step_vars: vec![mem("x", Value::Int(4))],
        step_name: s("start"),
        flow_name: s("f"),
        flow_hash: s("hash-1"),
    };
    data.check_for_hold(Some(hold), &s("hash-1"));
    assert!(matches!(get_var(&s("x"), &data).primitive, Value::Int(4)));
    let mut sink = None;
    let md = interpret_scope(&held_block(), &mut data, &mut sink).unwrap();
    assert_eq!(texts(&md), vec![s("c"), s("d")]);
    assert!(data.context.hold.is_none());
}

#[test]
fn stale_hold_restarts_the_flow() {
    let mut data = data_at("f", "ask", Vec::new());
    let hold = Hold {
        index: IndexInfo { command_index: 2, loop_indexes: Vec::new() },
        step_vars: Vec::new(),
        step_name: s("ask"),
        flow_name: s("f"),
        flow_hash: s("hash-0"),
    };
    data.check_for_hold(Some(hold), &s("hash-1"));
    assert!(data.context.hold.is_none());
    assert_eq!(data.context.step, "start");
    let flows = vec![flow("f", vec![("start", held_block())])];
    let mut sink = None;
    let md = run_turn(&flows, &mut data, &mut sink, 10).unwrap();
    assert_eq!(texts(&md), vec![s("a"), s("b")]);
}

#[test]
fn resume_enters_the_held_branch_without_the_condition() {
    // if false { say "in"; hold; say "after" } say "last"
    let inner = Block {
        commands: vec![
            (say("in"), InstructionInfo { index: 1, total: 0 }),
            (Statement::Action(ObjectType::Hold), InstructionInfo { index: 2, total: 0 }),
            (say("after"), InstructionInfo { index: 3, total: 0 }),
        ],
    };
    let cond = IfStatement::IfStmt {
        cond: Expr::LitExpr(lit(Value::Boolean(false))),
        consequence: inner,
        then_branch: None,
        last_action_index: 3,
    };
    let b = Block {
        commands: vec![
            (Statement::If(cond), InstructionInfo { index: 0, total: 3 }),
            (say("last"), InstructionInfo { index: 4, total: 0 }),
        ],
    };
    let mut data = data_at("f", "start", Vec::new());
    let hold = Hold {
        index: IndexInfo { command_index: 2, loop_indexes: Vec::new() },
        step_vars: Vec::new(),
        step_name: s("start"),
        flow_name: s("f"),
        flow_hash: s("hash-1"),
    };
    data.check_for_hold(Some(hold), &s("hash-1"));
    let mut sink = None;
    let md = interpret_scope(&b, &mut data, &mut sink).unwrap();
    assert_eq!(texts(&md), vec![s("after"), s("last")]);
}

fn greeting_flow() -> Flow {
    let cond = IfStatement::IfStmt {
        cond: Expr::InfixExpr(Infix::Equal, Box::new(Expr::EventPath(s("text"))), Box::new(text("hi"))),
        consequence: Block { commands: vec![(say("hello"), InstructionInfo { index: 1, total: 0 })] },
        then_branch: Some(Box::new(IfStatement::ElseStmt(Block {
            commands: vec![(say("?"), InstructionInfo { index: 2, total: 0 })],
        }))),
        last_action_index: 1,
    };
    flow("default", vec![("start", Block { commands: vec![(Statement::If(cond), InstructionInfo { index: 0, total: 2 })] })])
}

#[test]
fn end_to_end_greeting() {
    let flows = vec![greeting_flow()];
    let mut data = data_at("default", "start", vec![mem("text", Value::Str(s("hi")))]);
    let mut sink = Some(Vec::new());
    let md = run_turn(&flows, &mut data, &mut sink, 10).unwrap();
    assert_eq!(md.messages.len(), 1);
    assert_eq!(md.messages[0].content_type, "text");
    assert_eq!(md.messages[0].text, "hello");
    assert_eq!(md.exit_condition, Some(ExitCondition::End));
}

#[test]
fn end_to_end_other_text() {
    let flows = vec![greeting_flow()];
    let mut data = data_at("default", "start", vec![mem("text", Value::Str(s("yo")))]);
    let mut sink = None;
    let md = run_turn(&flows, &mut data, &mut sink, 10).unwrap();
    assert_eq!(texts(&md), vec![s("?")]);
}

#[test]
fn solve_if_takes_the_else_branch() {
    let cond = IfStatement::IfStmt {
        cond: Expr::LitExpr(lit(Value::Int(0))),
        consequence: block(vec![say("yes")]),
        then_branch: Some(Box::new(IfStatement::ElseStmt(block(vec![say("no")])))),
        last_action_index: 0,
    };
    let mut data = data_at("f", "start", Vec::new());
    let mut sink = None;
    let md = solve_if_statement(&cond, MessageData::new(), &mut data, &mut sink).unwrap();
    assert_eq!(texts(&md), vec![s("no")]);
}

#[test]
fn gotos_chain_steps_within_a_turn() {
    let start = block(vec![
        say("one"),
        Statement::Action(ObjectType::Remember(s("seen"), Expr::LitExpr(lit(Value::Boolean(true))))),
        Statement::Action(ObjectType::Goto(GotoType::Step(GotoValue::Name(s("next"))))),
        say("never"),
    ]);
    let next = block(vec![
        say("two"),
        Statement::Action(ObjectType::Goto(GotoType::Flow(GotoValue::Name(s("other"))))),
    ]);
    let other = block(vec![say("three")]);
    let flows = vec![
        flow("main", vec![("start", start), ("next", next)]),
        flow("other", vec![("start", other)]),
    ];
    let mut data = data_at("main", "start", Vec::new());
    let mut sink = Some(Vec::new());
    let md = run_turn(&flows, &mut data, &mut sink, 10).unwrap();
    assert_eq!(texts(&md), vec![s("one"), s("two"), s("three")]);
    assert_eq!(md.memories.len(), 1);
    assert_eq!(md.exit_condition, Some(ExitCondition::End));
    assert_eq!(data.context.flow, "other");
}

#[test]
fn unresolved_goto_is_returned() {
    let flows = vec![flow("main", vec![("start", block(vec![
        Statement::Action(ObjectType::Goto(GotoType::Step(GotoValue::Name(s("missing"))))),
    ]))])];
    let mut data = data_at("main", "start", Vec::new());
    let mut sink = None;
    let r = run_turn(&flows, &mut data, &mut sink, 10);
    assert_eq!(r.err().map(|e| e.kind), Some(ErrorKind::UnresolvedGoto));
}

#[test]
fn endless_gotos_hit_the_step_limit() {
    let flows = vec![flow("main", vec![("start", block(vec![
        Statement::Action(ObjectType::Goto(GotoType::Step(GotoValue::Name(s("start"))))),
    ]))])];
    let mut data = data_at("main", "start", Vec::new());
    let mut sink = None;
    let r = run_turn(&flows, &mut data, &mut sink, 5);
    assert_eq!(r.err().map(|e| e.kind), Some(ErrorKind::StepLimit));
}

#[test]
fn evaluation_error_becomes_a_message() {
    let call = Expr::MethodExpr(Box::new(Expr::LitExpr(lit(Value::Int(1)))), s("shout"));
    let flows = vec![flow("main", vec![("start", block(vec![
        say("before"),
        Statement::Action(ObjectType::Say(call)),
    ]))])];
    let mut data = data_at("main", "start", Vec::new());
    let mut sink = Some(Vec::new());
    let md = run_turn(&flows, &mut data, &mut sink, 5).unwrap();
    assert_eq!(texts(&md), vec![s("before"), s("unknown method")]);
    assert_eq!(md.messages[0].content_type, "text");
    assert_eq!(md.messages[1].content_type, "error");
    assert_eq!(md.exit_condition, Some(ExitCondition::End));
    let events = sink.unwrap();
    assert_eq!(events.len(), 2);
    assert!(matches!(&events[0], MSG::Message(m) if m.text == "before"));
    assert!(matches!(events.last(), Some(MSG::Error(m)) if m.text == "unknown method"));
}

#[test]
fn error_keeps_output_of_earlier_steps_and_memories() {
    let bad = Expr::InfixExpr(
        Infix::Arith(ArithOp::Rem),
        Box::new(Expr::LitExpr(lit(Value::Int(1)))),
        Box::new(Expr::LitExpr(lit(Value::Int(0)))),
    );
    let start = block(vec![
        Statement::Action(ObjectType::Remember(s("k"), text("v"))),
        Statement::Action(ObjectType::Goto(GotoType::Step(GotoValue::Name(s("next"))))),
    ]);
    let inner = IfStatement::IfStmt {
        cond: Expr::LitExpr(lit(Value::Boolean(true))),
        consequence: Block {
            commands: vec![
                (say("inside"), InstructionInfo { index: 1, total: 0 }),
                (Statement::Action(ObjectType::Say(bad)), InstructionInfo { index: 2, total: 0 }),
            ],
        },
        then_branch: None,
        last_action_index: 2,
    };
    let next = Block { commands: vec![(Statement::If(inner), InstructionInfo { index: 0, total: 2 })] };
    let flows = vec![flow("main", vec![("start", start), ("next", next)])];
    let mut data = data_at("main", "start", Vec::new());
    let mut sink = None;
    let md = run_turn(&flows, &mut data, &mut sink, 5).unwrap();
    assert_eq!(texts(&md), vec![s("inside"), s("division by zero")]);
    assert_eq!(md.memories.len(), 1);
    assert_eq!(data.context.step, "next");
    assert_eq!(md.exit_condition, Some(ExitCondition::End));
}

#[test]
fn the_last_flow_of_a_name_runs() {
    let flows = vec![
        FlowToValidate { flow_name: s("main"), ast: flow("main", vec![("start", block(vec![say("first")]))]), raw_flow: s("") },
        FlowToValidate { flow_name: s("main"), ast: flow("main", vec![("start", block(vec![say("second")]))]), raw_flow: s("") },
    ];
    let bot = FlowToValidate::get_bot(flows);
    let mut data = data_at("main", "start", Vec::new());
    let mut sink = None;
    let md = run_turn(&bot, &mut data, &mut sink, 5).unwrap();
    assert_eq!(texts(&md), vec![s("second")]);
}

#[test]
fn booleans_know_only_their_methods() {
    assert_eq!(Value::Boolean(true).dispatch(&s("is_number"), 0).err(), Some(ErrorKind::UnknownMethod));
    assert_eq!(Value::Boolean(true).dispatch(&s("length"), 0).err(), Some(ErrorKind::UnknownMethod));
    let (v, _) = Value::Boolean(true).dispatch(&s("to_string"), 0).unwrap();
    assert!(matches!(v, Value::Str(ref t) if t == "true"));
}

#[test]
fn loaded_hold_takes_the_context_position() {
    let mut data = data_at("f", "ask", Vec::new());
    let hold = Hold {
        index: IndexInfo { command_index: 1, loop_indexes: Vec::new() },
        step_vars: Vec::new(),
        step_name: s("elsewhere"),
        flow_name: s("other"),
        flow_hash: s("hash-1"),
    };
    data.check_for_hold(Some(hold), &s("hash-1"));
    let h = data.context.hold.as_ref().unwrap();
    assert_eq!(h.step_name, "ask");
    assert_eq!(h.flow_name, "f");
    assert_eq!(h.index.command_index, 1);
    assert_eq!(data.context.step, "ask");
}

#[test]
fn goto_target_from_a_variable() {
    let mut data = data_at("main", "start", Vec::new());
    data.context.current.push(mem("where", Value::Str(s("end"))));
    let mut sink = None;
    let md = match_actions(
        &ObjectType::Goto(GotoType::Step(GotoValue::Var(s("where")))),
        MessageData::new(),
        &mut data,
        &mut sink,
    )
    .unwrap();
    assert_eq!(md.exit_condition, Some(ExitCondition::End));
}

// ----- linter -----

#[test]
fn bot_from_flows_and_step_listing() {
    let flows = vec![
        FlowToValidate { flow_name: s("a"), ast: flow("ignored", vec![("start", block(vec![])), ("end2", block(vec![]))]), raw_flow: s("") },
        FlowToValidate { flow_name: s("b"), ast: flow("b", vec![("start", block(vec![]))]), raw_flow: s("") },
    ];
    let bot = FlowToValidate::get_bot(flows);
    assert_eq!(bot.len(), 2);
    assert_eq!(bot[0].name, "a");
    let steps = get_steps_from_flow(&bot);
    assert_eq!(steps[0], (s("a"), vec![s("start"), s("end2")]));
    assert_eq!(steps[1], (s("b"), vec![s("start")]));
}

// ----- arrays and loops -----

fn ints(xs: &[i64]) -> Value {
    Value::Array(xs.iter().map(|x| Value::Int(*x)).collect())
}

#[test]
fn arrays_compare_and_show() {
    assert!(ints(&[1, 2]).equals(&ints(&[1, 2])));
    assert!(!ints(&[1, 2]).equals(&ints(&[1, 3])));
    assert!(!ints(&[1]).equals(&ints(&[1, 1])));
    let nested = Value::Array(vec![ints(&[1, 2]), Value::Str(s("x")), Value::Null]);
    assert_eq!(nested.to_display_string(), "[[1,2],x,null]");
    assert_eq!(nested.duplicate().to_display_string(), "[[1,2],x,null]");
    assert_eq!(ints(&[]).to_display_string(), "[]");
    assert!(!ints(&[]).as_bool());
    let (v, _) = ints(&[4, 5, 6]).dispatch(&s("length"), 0).unwrap();
    assert!(matches!(v, Value::Int(3)));
    assert_eq!(ints(&[1]).do_add(&Value::Int(1)).err(), Some(ErrorKind::IllegalOperation));
}

fn counting_loop() -> Block {
    // foreach (x, i) in [10, 20, 30] { say x; hold; say "after" }
    let body = Block {
        commands: vec![
            (Statement::Action(ObjectType::Say(Expr::IdentExpr(s("x")))), InstructionInfo { index: 1, total: 0 }),
            (Statement::Action(ObjectType::Hold), InstructionInfo { index: 2, total: 0 }),
            (say("after"), InstructionInfo { index: 3, total: 0 }),
        ],
    };
    let fe = ForEachStatement {
        ident: s("x"),
        index: Some(s("i")),
        expr: Expr::LitExpr(lit(ints(&[10, 20, 30]))),
        block: body,
    };
    Block { commands: vec![(Statement::ForEach(fe), InstructionInfo { index: 0, total: 3 })] }
}

fn take_hold(sink: Option<Vec<MSG>>) -> Hold {
    for m in sink.unwrap() {
        if let MSG::Hold(h) = m {
            return h;
        }
    }
    panic!("no hold was sent");
}

#[test]
fn loop_runs_each_item() {
    let body = block(vec![Statement::Action(ObjectType::Say(Expr::InfixExpr(
        Infix::Arith(ArithOp::Mul),
        Box::new(Expr::IdentExpr(s("x"))),
        Box::new(Expr::IdentExpr(s("i"))),
    )))]);
    let fe = ForEachStatement { ident: s("x"), index: Some(s("i")), expr: Expr::LitExpr(lit(ints(&[5, 6, 7]))), block: body };
    let b = Block { commands: vec![(Statement::ForEach(fe), InstructionInfo { index: 0, total: 1 })] };
    let mut data = data_at("f", "start", Vec::new());
    let mut sink = None;
    let md = interpret_scope(&b, &mut data, &mut sink).unwrap();
    assert_eq!(texts(&md), vec![s("0"), s("6"), s("14")]);
    assert!(data.loop_indexes.is_empty());
}

#[test]
fn loop_over_a_non_array_is_illegal() {
    let fe = ForEachStatement { ident: s("x"), index: None, expr: text("abc"), block: block(vec![]) };
    let b = Block { commands: vec![(Statement::ForEach(fe), InstructionInfo { index: 0, total: 0 })] };
    let mut data = data_at("f", "start", Vec::new());
    let mut sink = None;
    let r = interpret_scope(&b, &mut data, &mut sink);
    assert_eq!(r.err().map(|e| e.kind), Some(ErrorKind::IllegalOperation));
}

#[test]
fn hold_inside_a_loop_resumes_at_its_iteration() {
    let flows = vec![flow("f", vec![("start", counting_loop())])];
    let mut data = data_at("f", "start", Vec::new());
    let mut sink = Some(Vec::new());
    let md = run_turn(&flows, &mut data, &mut sink, 10).unwrap();
    assert_eq!(texts(&md), vec![s("10")]);
    assert_eq!(md.exit_condition, Some(ExitCondition::Hold));
    let hold = take_hold(sink);
    assert_eq!(hold.index.command_index, 2);
    assert_eq!(hold.index.loop_indexes, vec![0]);

    let mut expected = vec![vec![s("after"), s("20")], vec![s("after"), s("30")]];
    let mut hold = hold;
    for (turn, want) in expected.drain(..).enumerate() {
        let mut data = data_at("f", "start", Vec::new());
        data.check_for_hold(Some(hold), &s("hash-1"));
        let mut sink = Some(Vec::new());
        let md = run_turn(&flows, &mut data, &mut sink, 10).unwrap();
        assert_eq!(texts(&md), want);
        hold = take_hold(sink);
        assert_eq!(hold.index.loop_indexes, vec![turn + 1]);
    }
    let mut data = data_at("f", "start", Vec::new());
    data.check_for_hold(Some(hold), &s("hash-1"));
    let mut sink = None;
    let md = run_turn(&flows, &mut data, &mut sink, 10).unwrap();
    assert_eq!(texts(&md), vec![s("after")]);
    assert_eq!(md.exit_condition, Some(ExitCondition::End));
}

#[test]
fn error_result_becomes_a_message_and_null() {
    let mut sink = Some(Vec::new());
    let mut md = MessageData::new();
    let ok = MSG::send_error_msg(&mut sink, &mut md, Ok(lit(Value::Int(3))));
    assert!(matches!(ok.primitive, Value::Int(3)));
    assert!(md.messages.is_empty());
    let err = ErrorInfo { kind: ErrorKind::DivisionByZero, interval: Interval::new(4, 2) };
    let v = MSG::send_error_msg(&mut sink, &mut md, Err(err));
    assert!(matches!(v.primitive, Value::Null));
    assert_eq!(v.interval, Interval::new(4, 2));
    assert_eq!(md.messages[0].content_type, "error");
    assert_eq!(md.messages[0].text, "division by zero");
    assert_eq!(sink.unwrap().len(), 1);
}

#[test]
fn boolean_literal() {
    assert!(PrimitiveBoolean::new(true).value);
    let l = PrimitiveBoolean::get_literal("boolean", false, Interval::new(1, 7));
    assert_eq!(l.content_type, "boolean");
    assert!(matches!(l.primitive, Value::Boolean(false)));
    assert_eq!(l.interval.column, 7);
}

#[test]
fn debug_and_use_actions() {
    let mut data = data_at("f", "start", Vec::new());
    let mut sink = None;
    let md = match_actions(&ObjectType::Debug(Expr::LitExpr(lit(Value::Int(-5)))), MessageData::new(), &mut data, &mut sink).unwrap();
    assert_eq!(md.messages[0].content_type, "debug");
    assert_eq!(md.messages[0].text, "-5");
    let md = match_actions(&ObjectType::Use(text("x")), md, &mut data, &mut sink).unwrap();
    assert_eq!(md.messages.len(), 1);
    let md = match_actions(&ObjectType::Do(DoType::Exec(text("x"))), md, &mut data, &mut sink).unwrap();
    assert_eq!(md.messages.len(), 1);
}

#[test]
fn forget_all_and_lists() {
    let mut data = data_at("f", "start", Vec::new());
    let mut sink = None;
    let mut md = MessageData::new();
    for k in ["a", "b", "c"] {
        md = match_actions(&ObjectType::Remember(s(k), text("v")), md, &mut data, &mut sink).unwrap();
    }
    md = match_actions(&ObjectType::Forget(ForgetMemory::List(vec![s("a"), s("c")])), md, &mut data, &mut sink).unwrap();
    let keys: Vec<String> = md.memories.iter().map(|m| m.key.clone()).collect();
    assert_eq!(keys, vec![s("b")]);
    md = match_actions(&ObjectType::Forget(ForgetMemory::All), md, &mut data, &mut sink).unwrap();
    assert!(md.memories.is_empty());
    assert!(data.context.current.is_empty());
}

// ----- objects and paths -----

fn obj(fields: Vec<(&str, Value)>) -> Value {
    Value::Object(fields.into_iter().map(|(k, v)| (s(k), v)).collect())
}

#[test]
fn objects_compare_and_show() {
    let a = obj(vec![("a", Value::Int(1)), ("b", Value::Str(s("x")))]);
    assert_eq!(a.to_display_string(), "{a:1,b:x}");
    assert!(a.equals(&a.duplicate()));
    assert!(!a.equals(&obj(vec![("a", Value::Int(1))])));
    assert!(!a.equals(&obj(vec![("a", Value::Int(1)), ("c", Value::Str(s("x")))])));
    let (v, _) = a.dispatch(&s("type_of"), 0).unwrap();
    assert!(matches!(v, Value::Str(ref t) if t == "object"));
    let (v, _) = a.dispatch(&s("length"), 0).unwrap();
    assert!(matches!(v, Value::Int(2)));
}

#[test]
fn field_paths_read_objects() {
    let mut data = data_at("f", "start", Vec::new());
    data.context.current.push(mem("user", obj(vec![("name", Value::Str(s("Ada"))), ("age", Value::Int(36))])));
    let name = Expr::PathExpr(Box::new(Expr::IdentExpr(s("user"))), s("name"));
    let l = expr_to_literal(&name, &data).unwrap();
    assert!(matches!(l.primitive, Value::Str(ref n) if n == "Ada"));
    let missing = Expr::PathExpr(Box::new(Expr::IdentExpr(s("user"))), s("city"));
    assert!(matches!(expr_to_literal(&missing, &data).unwrap().primitive, Value::Null));
    let through_text = Expr::PathExpr(Box::new(name), s("x"));
    assert_eq!(expr_to_literal(&through_text, &data).err().map(|e| e.kind), Some(ErrorKind::IllegalOperation));
    let deeper = Expr::PathExpr(
        Box::new(Expr::PathExpr(Box::new(Expr::IdentExpr(s("user"))), s("age"))),
        s("x"),
    );
    assert_eq!(expr_to_literal(&deeper, &data).err().map(|e| e.kind), Some(ErrorKind::IllegalOperation));
}

#[test]
fn update_through_a_path() {
    let mut data = data_at("f", "start", Vec::new());
    data.context.current.push(mem("user", obj(vec![("name", Value::Str(s("Ada"))), ("address", obj(vec![("city", Value::Str(s("London")))]))])));
    let mut sink = Some(Vec::new());
    let md = match_actions(
        &ObjectType::Do(DoType::Update(s("user"), vec![key("address"), key("city")], text("Paris"))),
        MessageData::new(),
        &mut data,
        &mut sink,
    )
    .unwrap();
    assert_eq!(get_var(&s("user"), &data).primitive.to_display_string(), "{name:Ada,address:{city:Paris}}");
    assert_eq!(md.memories.len(), 1);
    let md = match_actions(
        &ObjectType::Do(DoType::Update(s("user"), vec![key("age")], Expr::LitExpr(lit(Value::Int(36))))),
        md,
        &mut data,
        &mut sink,
    )
    .unwrap();
    assert_eq!(get_var(&s("user"), &data).primitive.to_display_string(), "{name:Ada,address:{city:Paris},age:36}");
    let r = match_actions(
        &ObjectType::Do(DoType::Update(s("user"), vec![key("name"), key("first")], text("A"))),
        md,
        &mut data,
        &mut sink,
    );
    assert_eq!(r.err().map(|e| e.kind), Some(ErrorKind::IllegalOperation));
    assert_eq!(get_var(&s("user"), &data).primitive.to_display_string(), "{name:Ada,address:{city:Paris},age:36}");
}

#[test]
fn lint_finds_gotos_to_missing_steps() {
    let goto_step = |n: &str| Statement::Action(ObjectType::Goto(GotoType::Step(GotoValue::Name(s(n)))));
    let nested = IfStatement::IfStmt {
        cond: text("x"),
        consequence: block(vec![goto_step("nowhere")]),
        then_branch: Some(Box::new(IfStatement::ElseStmt(block(vec![goto_step("next")])))),
        last_action_index: 1,
    };
    let start = Block {
        commands: vec![
            (Statement::If(nested), InstructionInfo { index: 0, total: 2 }),
            (goto_step("end"), InstructionInfo { index: 3, total: 0 }),
            (Statement::Action(ObjectType::Goto(GotoType::Step(GotoValue::Var(s("v"))))), InstructionInfo { index: 4, total: 0 }),
        ],
    };
    let next = block(vec![
        Statement::Action(ObjectType::Goto(GotoType::Flow(GotoValue::Name(s("other"))))),
        Statement::Action(ObjectType::Goto(GotoType::StepFlow { step: Some(GotoValue::Name(s("gone"))), flow: Some(GotoValue::Name(s("other"))) })),
    ]);
    let flows = vec![
        flow("main", vec![("start", start), ("next", next)]),
        flow("other", vec![("start", block(vec![]))]),
    ];
    let errors = validate_bot(&flows);
    assert_eq!(
        errors,
        vec![
            LintError { flow: s("main"), step: s("start"), target_flow: s("main"), target_step: s("nowhere") },
            LintError { flow: s("main"), step: s("next"), target_flow: s("other"), target_step: s("gone") },
        ]
    );
    assert!(validate_bot(&vec![greeting_flow()]).is_empty());
}

#[test]
fn array_items_by_index() {
    let mut data = data_at("f", "start", Vec::new());
    data.context.current.push(mem("user", obj(vec![("cities", Value::Array(vec![Value::Str(s("Lyon")), Value::Str(s("Nice"))]))])));
    let first = Expr::IndexExpr(Box::new(Expr::PathExpr(Box::new(Expr::IdentExpr(s("user"))), s("cities"))), 0);
    assert!(matches!(expr_to_literal(&first, &data).unwrap().primitive, Value::Str(ref c) if c == "Lyon"));
    let past = Expr::IndexExpr(Box::new(Expr::PathExpr(Box::new(Expr::IdentExpr(s("user"))), s("cities"))), 5);
    assert!(matches!(expr_to_literal(&past, &data).unwrap().primitive, Value::Null));
    let on_object = Expr::IndexExpr(Box::new(Expr::IdentExpr(s("user"))), 0);
    assert_eq!(expr_to_literal(&on_object, &data).err().map(|e| e.kind), Some(ErrorKind::IllegalOperation));

    let mut sink = None;
    let md = match_actions(
        &ObjectType::Do(DoType::Update(s("user"), vec![key("cities"), PathSegment::Index(1)], text("Paris"))),
        MessageData::new(),
        &mut data,
        &mut sink,
    )
    .unwrap();
    assert_eq!(get_var(&s("user"), &data).primitive.to_display_string(), "{cities:[Lyon,Paris]}");
    let r = match_actions(
        &ObjectType::Do(DoType::Update(s("user"), vec![key("cities"), PathSegment::Index(2)], text("Rome"))),
        md,
        &mut data,
        &mut sink,
    );
    assert_eq!(r.err().map(|e| e.kind), Some(ErrorKind::IllegalOperation));
    assert_eq!(get_var(&s("user"), &data).primitive.to_display_string(), "{cities:[Lyon,Paris]}");
}
