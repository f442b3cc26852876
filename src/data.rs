//! What one turn produces and carries: memories, messages, the hold
//! continuation and the events sent while it runs.

use vstd::prelude::*;
use crate::value::{LitV, Literal};

verus! {

/// A remembered fact.
#[derive(Debug)]
pub struct Memory {
    pub key: String,
    pub value: Literal,
}

pub struct MemV {
    pub key: Seq<char>,
    pub value: LitV,
}

impl View for Memory {
    type V = MemV;

    open spec fn view(&self) -> MemV {
        MemV { key: self.key@, value: self.value@ }
    }
}

pub open spec fn mems_v(s: Seq<Memory>) -> Seq<MemV> {
    s.map_values(|m: Memory| m@)
}

impl Memory {
    pub fn new(key: String, value: Literal) -> (r: Memory)
        ensures
            r@ == (MemV { key: key@, value: value@ }),
    {
        Memory { key, value }
    }

    pub fn duplicate(&self) -> (r: Memory)
        ensures
            r@ == self@,
    {
        Memory { key: self.key.clone(), value: self.value.duplicate() }
    }
}

/// An outbound message; its content is the object `{"text": text}`, or
/// `{"error": text}` for a message of type "error".
#[derive(Clone, Debug)]
pub struct Message {
    pub content_type: String,
    pub text: String,
}

pub struct MessageV {
    pub content_type: Seq<char>,
    pub text: Seq<char>,
}

impl View for Message {
    type V = MessageV;

    open spec fn view(&self) -> MessageV {
        MessageV { content_type: self.content_type@, text: self.text@ }
    }
}

pub open spec fn messages_v(s: Seq<Message>) -> Seq<MessageV> {
    s.map_values(|m: Message| m@)
}

/// How a turn, or a part of it, ended.
#[derive(Clone, Copy, Debug, PartialEq, Eq, Structural)]
pub enum ExitCondition {
    Goto,
    End,
    Hold,
}

/// Output accumulated during a turn.
#[derive(Debug)]
pub struct MessageData {
    pub messages: Vec<Message>,
    pub memories: Vec<Memory>,
    pub exit_condition: Option<ExitCondition>,
}

pub struct MessageDataV {
    pub messages: Seq<MessageV>,
    pub memories: Seq<MemV>,
    pub exit_condition: Option<ExitCondition>,
}

impl View for MessageData {
    type V = MessageDataV;

    open spec fn view(&self) -> MessageDataV {
        MessageDataV {
            messages: messages_v(self.messages@),
            memories: mems_v(self.memories@),
            exit_condition: self.exit_condition,
        }
    }
}

pub open spec fn empty_output() -> MessageDataV {
    MessageDataV { messages: Seq::empty(), memories: Seq::empty(), exit_condition: None }
}

/// Appending one output to another: lists are concatenated, and the later
/// exit condition wins where it is set.
pub open spec fn combine_spec(a: MessageDataV, b: MessageDataV) -> MessageDataV {
    MessageDataV {
        messages: a.messages + b.messages,
        memories: a.memories + b.memories,
        exit_condition: if b.exit_condition is Some { b.exit_condition } else { a.exit_condition },
    }
}

/// Which memories a `forget` statement removes.
#[derive(Clone, Debug)]
pub enum ForgetMemory {
    All,
    Single(String),
    List(Vec<String>),
}

pub enum ForgetV {
    All,
    Single(Seq<char>),
    List(Seq<Seq<char>>),
}

impl View for ForgetMemory {
    type V = ForgetV;

    open spec fn view(&self) -> ForgetV {
        match self {
            ForgetMemory::All => ForgetV::All,
            ForgetMemory::Single(k) => ForgetV::Single(k@),
            ForgetMemory::List(ks) => ForgetV::List(strs_v(ks@)),
        }
    }
}

pub open spec fn strs_v(s: Seq<String>) -> Seq<Seq<char>> {
    s.map_values(|k: String| k@)
}

pub open spec fn forgets(f: ForgetV, key: Seq<char>) -> bool {
    match f {
        ForgetV::All => true,
        ForgetV::Single(k) => k == key,
        ForgetV::List(ks) => ks.contains(key),
    }
}

/// The memories that a `forget` leaves, in their order.
pub open spec fn retain_spec(s: Seq<MemV>, f: ForgetV) -> Seq<MemV>
    decreases s.len(),
{
    if s.len() == 0 {
        s
    } else {
        let rest = retain_spec(s.drop_last(), f);
        if forgets(f, s.last().key) { rest } else { rest.push(s.last()) }
    }
}

/// The value bound to `key`, the latest binding first.
pub open spec fn lookup_spec(s: Seq<MemV>, key: Seq<char>) -> Option<LitV>
    decreases s.len(),
{
    if s.len() == 0 {
        None
    } else if s.last().key == key {
        Some(s.last().value)
    } else {
        lookup_spec(s.drop_last(), key)
    }
}

/// Binding `key` to `v`: an earlier binding of the key is dropped.
pub open spec fn put_spec(s: Seq<MemV>, key: Seq<char>, v: LitV) -> Seq<MemV> {
    retain_spec(s, ForgetV::Single(key)).push(MemV { key, value: v })
}

/// A position in the statement tree of a step.
#[derive(Clone, Debug)]
pub struct IndexInfo {
    pub command_index: usize,
    pub loop_indexes: Vec<usize>,
}

pub struct IndexV {
    pub command_index: usize,
    pub loop_indexes: Seq<usize>,
}

impl View for IndexInfo {
    type V = IndexV;

    open spec fn view(&self) -> IndexV {
        IndexV { command_index: self.command_index, loop_indexes: self.loop_indexes@ }
    }
}

/// A serialisable continuation: where a suspended step resumes.
#[derive(Debug)]
pub struct Hold {
    pub index: IndexInfo,
    pub step_vars: Vec<Memory>,
    pub step_name: String,
    pub flow_name: String,
    pub flow_hash: String,
}

pub struct HoldV {
    pub index: IndexV,
    pub step_vars: Seq<MemV>,
    pub step_name: Seq<char>,
    pub flow_name: Seq<char>,
    pub flow_hash: Seq<char>,
}

impl View for Hold {
    type V = HoldV;

    open spec fn view(&self) -> HoldV {
        HoldV {
            index: self.index@,
            step_vars: mems_v(self.step_vars@),
            step_name: self.step_name@,
            flow_name: self.flow_name@,
            flow_hash: self.flow_hash@,
        }
    }
}

pub open spec fn hold_opt_v(h: Option<Hold>) -> Option<HoldV> {
    match h {
        Some(h) => Some(h@),
        None => None,
    }
}

pub open spec fn str_opt_v(s: Option<String>) -> Option<Seq<char>> {
    match s {
        Some(s) => Some(s@),
        None => None,
    }
}

/// An event sent while a turn runs.
#[derive(Debug)]
pub enum MSG {
    Remember(Memory),
    Forget(ForgetMemory),
    Message(Message),
    Hold(Hold),
    Next { flow: Option<String>, step: Option<String> },
    Error(Message),
}

pub enum MsgV {
    Remember(MemV),
    Forget(ForgetV),
    Message(MessageV),
    Hold(HoldV),
    Next { flow: Option<Seq<char>>, step: Option<Seq<char>> },
    Error(MessageV),
}

impl View for MSG {
    type V = MsgV;

    open spec fn view(&self) -> MsgV {
        match self {
            MSG::Remember(m) => MsgV::Remember(m@),
            MSG::Forget(f) => MsgV::Forget(f@),
            MSG::Message(m) => MsgV::Message(m@),
            MSG::Hold(h) => MsgV::Hold(h@),
            MSG::Next { flow, step } => MsgV::Next { flow: str_opt_v(*flow), step: str_opt_v(*step) },
            MSG::Error(m) => MsgV::Error(m@),
        }
    }
}

/// The events in a sink, or `None` where no sink was given.
pub open spec fn sink_v(s: Option<Vec<MSG>>) -> Option<Seq<MsgV>> {
    match s {
        Some(v) => Some(v@.map_values(|m: MSG| m@)),
        None => None,
    }
}

/// A sink after an event was sent to it.
pub open spec fn sent(s: Option<Seq<MsgV>>, m: MsgV) -> Option<Seq<MsgV>> {
    match s {
        Some(v) => Some(v.push(m)),
        None => None,
    }
}

impl MSG {
    /// Sends an event to the sink, where there is one.
    pub fn send(sender: &mut Option<Vec<MSG>>, msg: MSG)
        ensures
            sink_v(*final(sender)) == sent(sink_v(*old(sender)), msg@),
    {
        match sender {
            Some(v) => {
                let ghost before = v@;
                v.push(msg);
                assert(v@.map_values(|m: MSG| m@) =~= before.map_values(|m: MSG| m@).push(msg@));
            },
            None => {},
        }
    }
}

/// Whether a `forget` statement removes the memory with this key.
pub fn forget_matches(f: &ForgetMemory, key: &String) -> (r: bool)
    ensures
        r == forgets(f@, key@),
{
    match f {
        ForgetMemory::All => true,
        ForgetMemory::Single(k) => k.eq(key),
        ForgetMemory::List(ks) => {
            let ghost kv = strs_v(ks@);
            assert(f@ == ForgetV::List(kv));
            let mut i: usize = 0;
            while i < ks.len()
                invariant
                    i <= ks.len(),
                    kv == strs_v(ks@),
                    f@ == ForgetV::List(kv),
                    forall|j: int| 0 <= j < i ==> kv[j] != key@,
                decreases ks.len() - i,
            {
                assert(kv[i as int] == ks@[i as int]@);
                if ks[i].eq(key) {
                    assert(kv[i as int] == key@);
                    assert(kv.contains(key@));
                    return true;
                }
                i += 1;
            }
            assert(!kv.contains(key@));
            false
        },
    }
}

/// The memories of `v` that `f` does not remove.
pub fn retain_memories(v: &Vec<Memory>, f: &ForgetMemory) -> (r: Vec<Memory>)
    ensures
        mems_v(r@) == retain_spec(mems_v(v@), f@),
{
    let mut out: Vec<Memory> = Vec::new();
    let mut i: usize = 0;
    while i < v.len()
        invariant
            i <= v.len(),
            mems_v(out@) == retain_spec(mems_v(v@).subrange(0, i as int), f@),
        decreases v.len() - i,
    {
        let ghost pre = mems_v(v@).subrange(0, i as int);
        let ghost next = mems_v(v@).subrange(0, i + 1);
        assert(next.drop_last() =~= pre);
        if !forget_matches(f, &v[i].key) {
            out.push(v[i].duplicate());
            assert(mems_v(out@) =~= retain_spec(pre, f@).push(v@[i as int]@));
        }
        i += 1;
    }
    assert(mems_v(v@).subrange(0, v.len() as int) =~= mems_v(v@));
    out
}

/// A copy of a list of memories.
pub fn copy_memories(v: &Vec<Memory>) -> (r: Vec<Memory>)
    ensures
        mems_v(r@) == mems_v(v@),
{
    let mut out: Vec<Memory> = Vec::new();
    let mut i: usize = 0;
    while i < v.len()
        invariant
            i <= v.len(),
            mems_v(out@) == mems_v(v@).subrange(0, i as int),
        decreases v.len() - i,
    {
        let ghost before = out@;
        out.push(v[i].duplicate());
        assert(mems_v(out@) =~= mems_v(before).push(v@[i as int]@));
        assert(mems_v(out@) =~= mems_v(v@).subrange(0, i + 1));
        i += 1;
    }
    assert(mems_v(v@).subrange(0, v.len() as int) =~= mems_v(v@));
    out
}

/// The value bound to `key` in `v`, the latest binding first.
pub fn lookup_memory(v: &Vec<Memory>, key: &String) -> (r: Option<Literal>)
    ensures
        r matches Some(l) ==> lookup_spec(mems_v(v@), key@) == Some(l@),
        r is None ==> lookup_spec(mems_v(v@), key@) is None,
{
    let mut i: usize = v.len();
    assert(mems_v(v@).subrange(0, i as int) =~= mems_v(v@));
    while i > 0
        invariant
            i <= v.len(),
            lookup_spec(mems_v(v@), key@) == lookup_spec(mems_v(v@).subrange(0, i as int), key@),
        decreases i,
    {
        let ghost pre = mems_v(v@).subrange(0, i as int);
        assert(pre.drop_last() =~= mems_v(v@).subrange(0, i - 1));
        if v[i - 1].key.eq(key) {
            return Some(v[i - 1].value.duplicate());
        }
        i -= 1;
    }
    None
}

/// `v` with `key` bound to `value`, an earlier binding of the key dropped.
pub fn put_memory(v: &Vec<Memory>, key: &String, value: Literal) -> (r: Vec<Memory>)
    ensures
        mems_v(r@) == put_spec(mems_v(v@), key@, value@),
{
    let f = ForgetMemory::Single(key.clone());
    let mut out = retain_memories(v, &f);
    let ghost before = out@;
    out.push(Memory::new(key.clone(), value));
    assert(mems_v(out@) =~= mems_v(before).push(MemV { key: key@, value: value@ }));
    out
}

impl MessageData {
    pub fn new() -> (r: MessageData)
        ensures
            r@ == empty_output(),
    {
        let r = MessageData { messages: Vec::new(), memories: Vec::new(), exit_condition: None };
        assert(r@.messages =~= Seq::<MessageV>::empty());
        assert(r@.memories =~= Seq::<MemV>::empty());
        r
    }

    /// Appends `other` to this output.
    pub fn combine(self, other: MessageData) -> (r: MessageData)
        ensures
            r@ == combine_spec(self@, other@),
    {
        let mut a = self;
        let mut b = other;
        let ghost (am, bm, ame, bme) = (a.messages@, b.messages@, a.memories@, b.memories@);
        a.messages.append(&mut b.messages);
        a.memories.append(&mut b.memories);
        assert(messages_v(a.messages@) =~= messages_v(am) + messages_v(bm));
        assert(mems_v(a.memories@) =~= mems_v(ame) + mems_v(bme));
        if b.exit_condition.is_some() {
            a.exit_condition = b.exit_condition;
        }
        a
    }

    /// Appends `other` to this output in place.
    pub fn append(&mut self, other: MessageData)
        ensures
            final(self)@ == combine_spec(old(self)@, other@),
    {
        let mut b = other;
        let ghost (am, bm, ame, bme) = (self.messages@, b.messages@, self.memories@, b.memories@);
        self.messages.append(&mut b.messages);
        self.memories.append(&mut b.memories);
        assert(messages_v(self.messages@) =~= messages_v(am) + messages_v(bm));
        assert(mems_v(self.memories@) =~= mems_v(ame) + mems_v(bme));
        if b.exit_condition.is_some() {
            self.exit_condition = b.exit_condition;
        }
    }

    /// Records a memory delta.
    pub fn add_to_memory(&mut self, key: &String, value: Literal)
        ensures
            final(self)@ == (MessageDataV {
                memories: old(self)@.memories.push(MemV { key: key@, value: value@ }),
                ..old(self)@
            }),
    {
        let ghost before = self.memories@;
        self.memories.push(Memory::new(key.clone(), value));
        assert(mems_v(self.memories@) =~= mems_v(before).push(MemV { key: key@, value: value@ }));
    }

    /// Appends a message to the output.
    pub fn add_message(&mut self, msg: Message)
        ensures
            final(self)@ == (MessageDataV {
                messages: old(self)@.messages.push(msg@),
                ..old(self)@
            }),
    {
        let ghost before = self.messages@;
        self.messages.push(msg);
        assert(messages_v(self.messages@) =~= messages_v(before).push(msg@));
    }

    /// Drops the memory deltas that `f` removes.
    pub fn forget(&mut self, f: &ForgetMemory)
        ensures
            final(self)@ == (MessageDataV {
                memories: retain_spec(old(self)@.memories, f@),
                ..old(self)@
            }),
    {
        self.memories = retain_memories(&self.memories, f);
    }
}

} // verus!
