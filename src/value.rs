//! Runtime values of the scripting language and their operations.

use vstd::prelude::*;

verus! {

/// A position in the script source.
#[derive(Clone, Copy, Debug, PartialEq, Eq, Structural)]
pub struct Interval {
    pub line: u32,
    pub column: u32,
}

impl Interval {
    pub fn new(line: u32, column: u32) -> (r: Interval)
        ensures
            r.line == line,
            r.column == column,
    {
        Interval { line, column }
    }
}

/// Access right that a method call needs on its receiver.
#[derive(Clone, Copy, Debug, PartialEq, Eq, Structural)]
pub enum Right {
    Read,
    Write,
}

/// The kinds of error that evaluation and dispatch can raise.
#[derive(Clone, Copy, Debug, PartialEq, Eq, Structural)]
pub enum ErrorKind {
    UnknownMethod,
    IllegalOperation,
    DivisionByZero,
    BadArguments,
    UnresolvedGoto,
    ReservedKeywordMisuse,
    StepLimit,
}

/// An error with the place in the script where it arose.
#[derive(Clone, Copy, Debug, PartialEq, Eq, Structural)]
pub struct ErrorInfo {
    pub kind: ErrorKind,
    pub interval: Interval,
}

/// A primitive runtime value.
#[derive(Debug)]
pub enum Value {
    Null,
    Boolean(bool),
    Int(i64),
    Str(String),
    Array(Vec<Value>),
    /// Fields in insertion order; a key is found at its first field.
    Object(Vec<(String, Value)>),
}

/// Mathematical model of a `Value`.
pub enum ValueV {
    Null,
    Boolean(bool),
    Int(i64),
    Str(Seq<char>),
    Array(Seq<ValueV>),
    Object(Seq<(Seq<char>, ValueV)>),
}

pub open spec fn value_v(v: Value) -> ValueV
    decreases v, 0int,
{
    match v {
        Value::Null => ValueV::Null,
        Value::Boolean(b) => ValueV::Boolean(b),
        Value::Int(i) => ValueV::Int(i),
        Value::Str(s) => ValueV::Str(s@),
        Value::Array(items) => ValueV::Array(values_v(items@, items@.len() as int)),
        Value::Object(fields) => ValueV::Object(fields_v(fields@, fields@.len() as int)),
    }
}

/// Models of the first `n` fields.
pub open spec fn fields_v(fields: Seq<(String, Value)>, n: int) -> Seq<(Seq<char>, ValueV)>
    decreases fields, n,
{
    if n <= 0 || n > fields.len() {
        Seq::empty()
    } else {
        fields_v(fields, n - 1).push((fields[n - 1].0@, value_v(fields[n - 1].1)))
    }
}

pub proof fn lemma_fields_v(fields: Seq<(String, Value)>, n: int)
    requires
        0 <= n <= fields.len(),
    ensures
        fields_v(fields, n).len() == n,
        forall|j: int| 0 <= j < n ==> #[trigger] fields_v(fields, n)[j] == (fields[j].0@, value_v(fields[j].1)),
    decreases n,
{
    if n > 0 {
        lemma_fields_v(fields, n - 1);
    }
}

/// Models of the first `n` items.
pub open spec fn values_v(items: Seq<Value>, n: int) -> Seq<ValueV>
    decreases items, n,
{
    if n <= 0 || n > items.len() {
        Seq::empty()
    } else {
        values_v(items, n - 1).push(value_v(items[n - 1]))
    }
}

pub proof fn lemma_values_v(items: Seq<Value>, n: int)
    requires
        0 <= n <= items.len(),
    ensures
        values_v(items, n).len() == n,
        forall|j: int| 0 <= j < n ==> #[trigger] values_v(items, n)[j] == value_v(items[j]),
    decreases n,
{
    if n > 0 {
        lemma_values_v(items, n - 1);
    }
}

impl View for Value {
    type V = ValueV;

    open spec fn view(&self) -> ValueV {
        value_v(*self)
    }
}

/// A value tagged with its content type and its source position.
#[derive(Debug)]
pub struct Literal {
    pub content_type: String,
    pub primitive: Value,
    pub interval: Interval,
}

/// Mathematical model of a `Literal`.
pub struct LitV {
    pub content_type: Seq<char>,
    pub value: ValueV,
    pub interval: Interval,
}

impl View for Literal {
    type V = LitV;

    open spec fn view(&self) -> LitV {
        LitV { content_type: self.content_type@, value: self.primitive@, interval: self.interval }
    }
}

/// The binary arithmetic operators.
#[derive(Clone, Copy, Debug, PartialEq, Eq, Structural)]
pub enum ArithOp {
    Add,
    Sub,
    Mul,
    Div,
    Rem,
    BitAnd,
    BitOr,
}

/// The number a value stands for in arithmetic: booleans count as 0 and 1.
pub open spec fn numeric(v: ValueV) -> Option<int> {
    match v {
        ValueV::Int(i) => Some(i as int),
        ValueV::Boolean(b) => Some(if b { 1int } else { 0int }),
        _ => None,
    }
}

pub open spec fn fits_i64(x: int) -> bool {
    i64::MIN <= x <= i64::MAX
}

pub open spec fn abs(x: int) -> int {
    if x < 0 { -x } else { x }
}

/// Division rounding toward zero.
pub open spec fn trunc_div(a: int, b: int) -> int {
    let q = abs(a) / abs(b);
    if (a < 0) == (b < 0) { q } else { -q }
}

/// Remainder whose sign follows the dividend.
pub open spec fn trunc_rem(a: int, b: int) -> int {
    a - b * trunc_div(a, b)
}

/// The result of `a op b`: defined on pairs of numbers (integers and
/// booleans); any other pair is an illegal operation.
pub open spec fn arith_spec(op: ArithOp, a: ValueV, b: ValueV) -> Result<ValueV, ErrorKind> {
    match (numeric(a), numeric(b)) {
        (Some(x), Some(y)) => {
            let r: Result<int, ErrorKind> = match op {
                ArithOp::Add => Ok(x + y),
                ArithOp::Sub => Ok(x - y),
                ArithOp::Mul => Ok(x * y),
                ArithOp::Div => if y == 0 {
                    Err(ErrorKind::DivisionByZero)
                } else {
                    Ok(trunc_div(x, y))
                },
                ArithOp::Rem => if y == 0 {
                    Err(ErrorKind::DivisionByZero)
                } else {
                    Ok(trunc_rem(x, y))
                },
                ArithOp::BitAnd => Ok(((x as i64) & (y as i64)) as int),
                ArithOp::BitOr => Ok(((x as i64) | (y as i64)) as int),
            };
            match r {
                Ok(z) => if fits_i64(z) {
                    Ok(ValueV::Int(z as i64))
                } else {
                    Err(ErrorKind::IllegalOperation)
                },
                Err(e) => Err(e),
            }
        },
        _ => Err(ErrorKind::IllegalOperation),
    }
}

/// Truthiness of a value in a condition.
pub open spec fn truthy(v: ValueV) -> bool {
    match v {
        ValueV::Null => false,
        ValueV::Boolean(b) => b,
        ValueV::Int(i) => i != 0,
        ValueV::Str(s) => s.len() > 0,
        ValueV::Array(items) => items.len() > 0,
        ValueV::Object(fields) => fields.len() > 0,
    }
}

/// Ordering of two values; `None` where the variants are not comparable.
pub open spec fn compare_spec(a: ValueV, b: ValueV) -> Option<core::cmp::Ordering> {
    match (a, b) {
        (ValueV::Int(x), ValueV::Int(y)) => Some(
            if x < y {
                core::cmp::Ordering::Less
            } else if x == y {
                core::cmp::Ordering::Equal
            } else {
                core::cmp::Ordering::Greater
            },
        ),
        (ValueV::Boolean(x), ValueV::Boolean(y)) => Some(
            if x == y {
                core::cmp::Ordering::Equal
            } else if !x {
                core::cmp::Ordering::Less
            } else {
                core::cmp::Ordering::Greater
            },
        ),
        (ValueV::Str(x), ValueV::Str(y)) => Some(text_cmp(x, y)),
        _ => None,
    }
}

/// Lexicographic order of texts by character code.
pub open spec fn text_cmp(a: Seq<char>, b: Seq<char>) -> core::cmp::Ordering
    decreases a.len(),
{
    if a.len() == 0 {
        if b.len() == 0 { core::cmp::Ordering::Equal } else { core::cmp::Ordering::Less }
    } else if b.len() == 0 {
        core::cmp::Ordering::Greater
    } else if (a[0] as u32) < (b[0] as u32) {
        core::cmp::Ordering::Less
    } else if (a[0] as u32) > (b[0] as u32) {
        core::cmp::Ordering::Greater
    } else {
        text_cmp(a.subrange(1, a.len() as int), b.subrange(1, b.len() as int))
    }
}

fn compare_text(a: &String, b: &String) -> (r: core::cmp::Ordering)
    ensures
        r == text_cmp(a@, b@),
{
    let na = a.as_str().unicode_len();
    let nb = b.as_str().unicode_len();
    assert(a@.subrange(0, na as int) =~= a@);
    assert(b@.subrange(0, nb as int) =~= b@);
    let mut i: usize = 0;
    while i < na && i < nb
        invariant
            na == a@.len(),
            nb == b@.len(),
            i <= na,
            i <= nb,
            text_cmp(a@, b@) == text_cmp(a@.subrange(i as int, na as int), b@.subrange(i as int, nb as int)),
        decreases na - i,
    {
        let ca = a.as_str().get_char(i) as u32;
        let cb = b.as_str().get_char(i) as u32;
        let ghost ra = a@.subrange(i as int, na as int);
        let ghost rb = b@.subrange(i as int, nb as int);
        assert(ra[0] == a@[i as int]);
        assert(rb[0] == b@[i as int]);
        if ca < cb {
            return core::cmp::Ordering::Less;
        } else if ca > cb {
            return core::cmp::Ordering::Greater;
        }
        assert(ra.subrange(1, ra.len() as int) =~= a@.subrange(i + 1, na as int));
        assert(rb.subrange(1, rb.len() as int) =~= b@.subrange(i + 1, nb as int));
        i += 1;
    }
    if i < na {
        core::cmp::Ordering::Greater
    } else if i < nb {
        core::cmp::Ordering::Less
    } else {
        core::cmp::Ordering::Equal
    }
}

pub open spec fn digit_char(d: nat) -> char {
    if d == 0 { '0' }
    else if d == 1 { '1' }
    else if d == 2 { '2' }
    else if d == 3 { '3' }
    else if d == 4 { '4' }
    else if d == 5 { '5' }
    else if d == 6 { '6' }
    else if d == 7 { '7' }
    else if d == 8 { '8' }
    else { '9' }
}

/// Decimal digits of a natural number.
pub open spec fn nat_digits(n: nat) -> Seq<char>
    decreases n,
{
    if n < 10 {
        seq![digit_char(n)]
    } else {
        nat_digits(n / 10).push(digit_char(n % 10))
    }
}

/// Decimal rendering of an integer, with a leading '-' when negative.
pub open spec fn int_text(i: int) -> Seq<char> {
    if i < 0 {
        seq!['-'] + nat_digits((-i) as nat)
    } else {
        nat_digits(i as nat)
    }
}

/// How a value is shown to a user; an array shows its items between
/// brackets, separated by commas.
pub open spec fn display_spec(v: ValueV) -> Seq<char>
    decreases v, 0int,
{
    match v {
        ValueV::Null => "null"@,
        ValueV::Boolean(b) => if b { "true"@ } else { "false"@ },
        ValueV::Int(i) => int_text(i as int),
        ValueV::Str(s) => s,
        ValueV::Array(items) => "["@ + items_text(items, items.len() as int) + "]"@,
        ValueV::Object(fields) => "{"@ + fields_text(fields, fields.len() as int) + "}"@,
    }
}

/// The first `n` fields shown as `key:value` and separated by commas.
pub open spec fn fields_text(fields: Seq<(Seq<char>, ValueV)>, n: int) -> Seq<char>
    decreases fields, n,
{
    if n <= 0 || n > fields.len() {
        Seq::empty()
    } else if n == 1 {
        fields[0].0 + ":"@ + display_spec(fields[0].1)
    } else {
        fields_text(fields, n - 1) + ","@ + fields[n - 1].0 + ":"@ + display_spec(fields[n - 1].1)
    }
}

/// Position of the first field named `key`, or -1.
pub open spec fn key_index(fields: Seq<(Seq<char>, ValueV)>, key: Seq<char>) -> int
    decreases fields.len(),
{
    if fields.len() == 0 {
        -1
    } else if fields[0].0 == key {
        0
    } else {
        let r = key_index(fields.subrange(1, fields.len() as int), key);
        if r < 0 { -1 } else { r + 1 }
    }
}

pub proof fn lemma_key_index(fields: Seq<(Seq<char>, ValueV)>, key: Seq<char>)
    ensures
        -1 <= key_index(fields, key) < fields.len(),
        key_index(fields, key) >= 0 ==> fields[key_index(fields, key)].0 == key,
        forall|j: int| 0 <= j < fields.len() && (key_index(fields, key) < 0 || j < key_index(fields, key))
            ==> #[trigger] fields[j].0 != key,
    decreases fields.len(),
{
    if fields.len() > 0 {
        let rest = fields.subrange(1, fields.len() as int);
        lemma_key_index(rest, key);
        assert forall|j: int| 0 <= j < fields.len() && (key_index(fields, key) < 0 || j < key_index(fields, key))
            implies #[trigger] fields[j].0 != key by {
            if j > 0 {
                assert(fields[j] == rest[j - 1]);
            }
        }
    }
}

/// The value of the first field named `key`.
pub open spec fn field_spec(fields: Seq<(Seq<char>, ValueV)>, key: Seq<char>) -> Option<ValueV> {
    let i = key_index(fields, key);
    if i >= 0 { Some(fields[i].1) } else { None }
}

/// The fields with the first one named `key` set to `v`, or with a field
/// `key` added at the end.
pub open spec fn set_field_spec(fields: Seq<(Seq<char>, ValueV)>, key: Seq<char>, v: ValueV) -> Seq<(Seq<char>, ValueV)> {
    let i = key_index(fields, key);
    if i >= 0 { fields.update(i, (key, v)) } else { fields.push((key, v)) }
}

/// One step of a path into a value: a field of an object, or a position
/// in an array.
#[derive(Clone, Debug)]
pub enum PathSegment {
    Key(String),
    Index(usize),
}

pub enum SegmentV {
    Key(Seq<char>),
    Index(usize),
}

impl View for PathSegment {
    type V = SegmentV;

    open spec fn view(&self) -> SegmentV {
        match self {
            PathSegment::Key(k) => SegmentV::Key(k@),
            PathSegment::Index(i) => SegmentV::Index(*i),
        }
    }
}

/// `v` with the value at `path` replaced by `new`. A key step needs an
/// object, where a missing field is added; an index step needs an array
/// and a position inside it.
pub open spec fn set_path_spec(v: ValueV, path: Seq<SegmentV>, new: ValueV) -> Result<ValueV, ErrorKind>
    decreases path.len(),
{
    if path.len() == 0 {
        Ok(new)
    } else {
        let rest = path.subrange(1, path.len() as int);
        match (v, path[0]) {
            (ValueV::Object(fields), SegmentV::Key(key)) => {
                let cur = match field_spec(fields, key) {
                    Some(x) => x,
                    None => ValueV::Null,
                };
                match set_path_spec(cur, rest, new) {
                    Ok(nv) => Ok(ValueV::Object(set_field_spec(fields, key, nv))),
                    Err(k) => Err(k),
                }
            },
            (ValueV::Array(items), SegmentV::Index(i)) => if i < items.len() {
                match set_path_spec(items[i as int], rest, new) {
                    Ok(nv) => Ok(ValueV::Array(items.update(i as int, nv))),
                    Err(k) => Err(k),
                }
            } else {
                Err(ErrorKind::IllegalOperation)
            },
            _ => Err(ErrorKind::IllegalOperation),
        }
    }
}

pub open spec fn path_v(path: Seq<PathSegment>) -> Seq<SegmentV> {
    path.map_values(|k: PathSegment| k@)
}

fn first_field(fields: &Vec<(String, Value)>, key: &String) -> (r: Option<usize>)
    ensures
        ({
            let fv = fields_v(fields@, fields@.len() as int);
            match r {
                Some(i) => key_index(fv, key@) == i as int && i < fields@.len(),
                None => key_index(fv, key@) < 0,
            }
        }),
{
    let ghost fv = fields_v(fields@, fields@.len() as int);
    proof {
        lemma_fields_v(fields@, fields@.len() as int);
        lemma_key_index(fv, key@);
    }
    let mut i: usize = 0;
    while i < fields.len()
        invariant
            i <= fields.len(),
            fv == fields_v(fields@, fields@.len() as int),
            fv.len() == fields@.len(),
            forall|j: int| 0 <= j < fields@.len() ==> fv[j] == (fields@[j].0@, value_v(fields@[j].1)),
            -1 <= key_index(fv, key@) < fv.len(),
            key_index(fv, key@) >= 0 ==> fv[key_index(fv, key@)].0 == key@,
            forall|j: int| 0 <= j < fv.len() && (key_index(fv, key@) < 0 || j < key_index(fv, key@)) ==> #[trigger] fv[j].0 != key@,
            forall|j: int| 0 <= j < i ==> fv[j].0 != key@,
        decreases fields.len() - i,
    {
        if fields[i].0.eq(key) {
            assert(fv[i as int].0 == key@);
            proof {
                let k = key_index(fv, key@);
                if k >= 0 && k < i {
                    assert(fv[k].0 != key@);
                }
            }
            return Some(i);
        }
        assert(fv[i as int].0 != key@);
        i += 1;
    }
    proof {
        let k = key_index(fv, key@);
        if k >= 0 {
            assert(fv[k].0 == key@);
        }
    }
    None
}

/// The value of field `key` of an object.
pub fn get_field(fields: &Vec<(String, Value)>, key: &String) -> (r: Option<Value>)
    ensures
        match field_spec(fields_v(fields@, fields@.len() as int), key@) {
            Some(v) => r matches Some(x) && x@ == v,
            None => r is None,
        },
{
    proof { lemma_fields_v(fields@, fields@.len() as int); }
    match first_field(fields, key) {
        Some(i) => Some(fields[i].1.duplicate()),
        None => None,
    }
}

/// `v` with the value at `path[start..]` replaced by `new`.
pub fn set_path(v: &Value, path: &Vec<PathSegment>, start: usize, new: Value) -> (r: Result<Value, ErrorKind>)
    requires
        start <= path.len(),
    ensures
        match set_path_spec(v@, path_v(path@).subrange(start as int, path@.len() as int), new@) {
            Ok(x) => r matches Ok(y) && y@ == x,
            Err(k) => r == Err::<Value, ErrorKind>(k),
        },
    decreases path.len() - start,
{
    let ghost p = path_v(path@).subrange(start as int, path@.len() as int);
    if start == path.len() {
        return Ok(new);
    }
    assert(p[0] == path@[start as int]@);
    assert(p.subrange(1, p.len() as int) =~= path_v(path@).subrange(start + 1, path@.len() as int));
    match (v, &path[start]) {
        (Value::Array(items), PathSegment::Index(idx)) => {
            let idx = *idx;
            let ghost iv = values_v(items@, items@.len() as int);
            proof { lemma_values_v(items@, items@.len() as int); }
            if idx >= items.len() {
                return Err(ErrorKind::IllegalOperation);
            }
            let cur = items[idx].duplicate();
            let nv = set_path(&cur, path, start + 1, new)?;
            let mut out: Vec<Value> = Vec::new();
            let mut j: usize = 0;
            while j < items.len()
                invariant
                    j <= items.len(),
                    idx < items.len(),
                    iv.len() == items@.len(),
                    forall|k: int| 0 <= k < items@.len() ==> iv[k] == value_v(items@[k]),
                    out@.len() == j,
                    forall|k: int| 0 <= k < j ==> (#[trigger] out@[k])@ == (if k == idx as int { nv@ } else { iv[k] }),
                decreases items.len() - j,
            {
                if j == idx {
                    out.push(nv.duplicate());
                } else {
                    out.push(items[j].duplicate());
                }
                j += 1;
            }
            let r = Value::Array(out);
            proof {
                lemma_values_v(out@, out@.len() as int);
                assert(values_v(out@, out@.len() as int) =~= iv.update(idx as int, nv@));
            }
            Ok(r)
        },
        (Value::Object(fields), PathSegment::Key(key)) => {
            let ghost fv = fields_v(fields@, fields@.len() as int);
            proof { lemma_fields_v(fields@, fields@.len() as int); }
            let found = first_field(fields, key);
            let cur = match found {
                Some(i) => fields[i].1.duplicate(),
                None => Value::Null,
            };
            let nv = set_path(&cur, path, start + 1, new)?;
            let mut out: Vec<(String, Value)> = Vec::new();
            let mut j: usize = 0;
            while j < fields.len()
                invariant
                    j <= fields.len(),
                    fv.len() == fields@.len(),
                    forall|k: int| 0 <= k < fields@.len() ==> fv[k] == (fields@[k].0@, value_v(fields@[k].1)),
                    found matches Some(i) ==> i < fields.len(),
                    out@.len() == j,
                    forall|k: int| 0 <= k < j ==> ({
                        let e = if found == Some(k as usize) { (key@, nv@) } else { fv[k] };
                        (#[trigger] out@[k]).0@ == e.0 && out@[k].1@ == e.1
                    }),
                decreases fields.len() - j,
            {
                if found == Some(j) {
                    out.push((key.clone(), nv.duplicate()));
                } else {
                    out.push((fields[j].0.clone(), fields[j].1.duplicate()));
                }
                j += 1;
            }
            if found.is_none() {
                out.push((key.clone(), nv));
            }
            let r = Value::Object(out);
            proof {
                lemma_fields_v(out@, out@.len() as int);
                assert(fields_v(out@, out@.len() as int) =~= set_field_spec(fv, key@, nv@));
            }
            Ok(r)
        },
        _ => Err(ErrorKind::IllegalOperation),
    }
}

/// The first `n` items shown and separated by commas.
pub open spec fn items_text(items: Seq<ValueV>, n: int) -> Seq<char>
    decreases items, n,
{
    if n <= 0 || n > items.len() {
        Seq::empty()
    } else if n == 1 {
        display_spec(items[0])
    } else {
        items_text(items, n - 1) + ","@ + display_spec(items[n - 1])
    }
}

/// Name of the type of a value.
pub open spec fn type_text(v: ValueV) -> Seq<char> {
    match v {
        ValueV::Null => "null"@,
        ValueV::Boolean(_) => "boolean"@,
        ValueV::Int(_) => "int"@,
        ValueV::Str(_) => "string"@,
        ValueV::Array(_) => "array"@,
        ValueV::Object(_) => "object"@,
    }
}

/// What a call of method `name` without arguments returns.
pub open spec fn method_spec(v: ValueV, name: Seq<char>) -> Result<ValueV, ErrorKind> {
    if name == "type_of"@ {
        Ok(ValueV::Str(type_text(v)))
    } else if name == "to_string"@ {
        Ok(ValueV::Str(display_spec(v)))
    } else if name == "length"@ && v is Str {
        Ok(ValueV::Int(v->Str_0.len() as i64))
    } else if name == "length"@ && v is Array {
        Ok(ValueV::Int(v->Array_0.len() as i64))
    } else if name == "length"@ && v is Object {
        Ok(ValueV::Int(v->Object_0.len() as i64))
    } else {
        Err(ErrorKind::UnknownMethod)
    }
}

fn digit_str(d: u64) -> (r: &'static str)
    requires
        d < 10,
    ensures
        r@ == seq![digit_char(d as nat)],
{
    proof {
        reveal_strlit("0");
        reveal_strlit("1");
        reveal_strlit("2");
        reveal_strlit("3");
        reveal_strlit("4");
        reveal_strlit("5");
        reveal_strlit("6");
        reveal_strlit("7");
        reveal_strlit("8");
        reveal_strlit("9");
    }
    if d == 0 { "0" }
    else if d == 1 { "1" }
    else if d == 2 { "2" }
    else if d == 3 { "3" }
    else if d == 4 { "4" }
    else if d == 5 { "5" }
    else if d == 6 { "6" }
    else if d == 7 { "7" }
    else if d == 8 { "8" }
    else { "9" }
}

fn push_digits(out: &mut String, n: u64)
    ensures
        final(out)@ == old(out)@ + nat_digits(n as nat),
    decreases n,
{
    if n < 10 {
        out.append(digit_str(n));
    } else {
        push_digits(out, n / 10);
        out.append(digit_str(n % 10));
        assert(final(out)@ =~= old(out)@ + nat_digits(n as nat));
    }
}

/// Decimal text of an integer.
pub fn int_to_text(i: i64) -> (r: String)
    ensures
        r@ == int_text(i as int),
{
    let mut out = String::new();
    if i < 0 {
        proof { reveal_strlit("-"); }
        out.append("-");
        let m: u64 = (-(i as i128)) as u64;
        push_digits(&mut out, m);
    } else {
        push_digits(&mut out, i as u64);
    }
    out
}

pub(crate) fn owned(s: &str) -> (r: String)
    ensures
        r@ == s@,
{
    s.to_string()
}

/// Whether a string reads as the given text.
pub(crate) fn is_text(name: &String, text: &str) -> (r: bool)
    ensures
        r == (name@ == text@),
{
    let t = owned(text);
    name.eq(&t)
}

impl Value {
    /// A copy of this value.
    pub fn duplicate(&self) -> (r: Value)
        ensures
            r@ == self@,
        decreases self,
    {
        match self {
            Value::Null => Value::Null,
            Value::Boolean(b) => Value::Boolean(*b),
            Value::Int(i) => Value::Int(*i),
            Value::Str(s) => Value::Str(s.clone()),
            Value::Array(items) => {
                let mut out: Vec<Value> = Vec::new();
                let mut i: usize = 0;
                while i < items.len()
                    invariant
                        *self == Value::Array(*items),
                        self@ == ValueV::Array(values_v(items@, items@.len() as int)),
                        i <= items.len(),
                        out@.len() == i,
                        forall|j: int| 0 <= j < i ==> (#[trigger] out@[j])@ == items@[j]@,
                    decreases items.len() - i,
                {
                    proof {
                        assert(decreases_to!(*items => items@));
                        assert(decreases_to!(items@ => items@[i as int]));
                        assert(decreases_to!(*self => items@[i as int]));
                    }
                    out.push(items[i].duplicate());
                    i += 1;
                }
                let r = Value::Array(out);
                proof {
                    lemma_values_v(out@, out@.len() as int);
                    lemma_values_v(items@, items@.len() as int);
                    assert(values_v(out@, out@.len() as int) =~= values_v(items@, items@.len() as int));
                }
                r
            },
            Value::Object(fields) => {
                let mut out: Vec<(String, Value)> = Vec::new();
                let mut i: usize = 0;
                while i < fields.len()
                    invariant
                        *self == Value::Object(*fields),
                        self@ == ValueV::Object(fields_v(fields@, fields@.len() as int)),
                        i <= fields.len(),
                        out@.len() == i,
                        forall|j: int| 0 <= j < i ==> (#[trigger] out@[j]).0@ == fields@[j].0@ && out@[j].1@ == fields@[j].1@,
                    decreases fields.len() - i,
                {
                    proof {
                        assert(decreases_to!(*fields => fields@));
                        assert(decreases_to!(fields@ => fields@[i as int]));
                        assert(decreases_to!(fields@[i as int] => fields@[i as int].1));
                        assert(decreases_to!(*self => fields@[i as int].1));
                    }
                    out.push((fields[i].0.clone(), fields[i].1.duplicate()));
                    i += 1;
                }
                let r = Value::Object(out);
                proof {
                    lemma_fields_v(out@, out@.len() as int);
                    lemma_fields_v(fields@, fields@.len() as int);
                    assert(fields_v(out@, out@.len() as int) =~= fields_v(fields@, fields@.len() as int));
                }
                r
            },
        }
    }

    /// The value as used in a condition.
    pub fn as_bool(&self) -> (r: bool)
        ensures
            r == truthy(self@),
    {
        match self {
            Value::Null => false,
            Value::Boolean(b) => *b,
            Value::Int(i) => *i != 0,
            Value::Str(s) => s.as_str().unicode_len() > 0,
            Value::Array(items) => items.len() > 0,
            Value::Object(fields) => fields.len() > 0,
        }
    }

    /// Structural equality of two values of the same variant.
    pub fn equals(&self, other: &Value) -> (r: bool)
        ensures
            r == (self@ == other@),
        decreases self,
    {
        match (self, other) {
            (Value::Null, Value::Null) => true,
            (Value::Boolean(a), Value::Boolean(b)) => *a == *b,
            (Value::Int(a), Value::Int(b)) => *a == *b,
            (Value::Str(a), Value::Str(b)) => a.eq(b),
            (Value::Array(a), Value::Array(b)) => {
                let ghost sa = values_v(a@, a@.len() as int);
                let ghost sb = values_v(b@, b@.len() as int);
                proof {
                    lemma_values_v(a@, a@.len() as int);
                    lemma_values_v(b@, b@.len() as int);
                }
                if a.len() != b.len() {
                    assert(sa.len() != sb.len());
                    return false;
                }
                let mut i: usize = 0;
                while i < a.len()
                    invariant
                        *self == Value::Array(*a),
                        *other == Value::Array(*b),
                        self@ == ValueV::Array(sa),
                        other@ == ValueV::Array(sb),
                        i <= a.len(),
                        a.len() == b.len(),
                        sa.len() == a@.len() && sb.len() == b@.len(),
                        forall|j: int| 0 <= j < a@.len() ==> sa[j] == value_v(a@[j]),
                        forall|j: int| 0 <= j < b@.len() ==> sb[j] == value_v(b@[j]),
                        forall|j: int| 0 <= j < i ==> sa[j] == sb[j],
                    decreases a.len() - i,
                {
                    proof { assert(decreases_to!(*self => a@[i as int])); }
                    if !a[i].equals(&b[i]) {
                        assert(sa[i as int] != sb[i as int]);
                        return false;
                    }
                    i += 1;
                }
                assert(sa =~= sb);
                true
            },
            (Value::Object(a), Value::Object(b)) => {
                let ghost sa = fields_v(a@, a@.len() as int);
                let ghost sb = fields_v(b@, b@.len() as int);
                proof {
                    lemma_fields_v(a@, a@.len() as int);
                    lemma_fields_v(b@, b@.len() as int);
                }
                if a.len() != b.len() {
                    assert(sa.len() != sb.len());
                    return false;
                }
                let mut i: usize = 0;
                while i < a.len()
                    invariant
                        *self == Value::Object(*a),
                        *other == Value::Object(*b),
                        self@ == ValueV::Object(sa),
                        other@ == ValueV::Object(sb),
                        i <= a.len(),
                        a.len() == b.len(),
                        sa.len() == a@.len() && sb.len() == b@.len(),
                        forall|j: int| 0 <= j < a@.len() ==> sa[j] == (a@[j].0@, value_v(a@[j].1)),
                        forall|j: int| 0 <= j < b@.len() ==> sb[j] == (b@[j].0@, value_v(b@[j].1)),
                        forall|j: int| 0 <= j < i ==> sa[j] == sb[j],
                    decreases a.len() - i,
                {
                    proof {
                        assert(decreases_to!(*a => a@));
                        assert(decreases_to!(a@ => a@[i as int]));
                        assert(decreases_to!(a@[i as int] => a@[i as int].1));
                        assert(decreases_to!(*self => a@[i as int].1));
                    }
                    if !a[i].0.eq(&b[i].0) || !a[i].1.equals(&b[i].1) {
                        assert(sa[i as int] != sb[i as int]);
                        return false;
                    }
                    i += 1;
                }
                assert(sa =~= sb);
                true
            },
            _ => false,
        }
    }

    /// Ordering of two values, where they are comparable.
    pub fn compare(&self, other: &Value) -> (r: Option<core::cmp::Ordering>)
        ensures
            r == compare_spec(self@, other@),
    {
        match (self, other) {
            (Value::Int(x), Value::Int(y)) => Some(
                if *x < *y {
                    core::cmp::Ordering::Less
                } else if *x == *y {
                    core::cmp::Ordering::Equal
                } else {
                    core::cmp::Ordering::Greater
                },
            ),
            (Value::Boolean(x), Value::Boolean(y)) => Some(
                if *x == *y {
                    core::cmp::Ordering::Equal
                } else if !*x {
                    core::cmp::Ordering::Less
                } else {
                    core::cmp::Ordering::Greater
                },
            ),
            (Value::Str(x), Value::Str(y)) => Some(compare_text(x, y)),
            _ => None,
        }
    }

    /// How the value is shown to a user.
    pub fn to_display_string(&self) -> (r: String)
        ensures
            r@ == display_spec(self@),
        decreases self,
    {
        match self {
            Value::Null => owned("null"),
            Value::Boolean(b) => if *b {
                owned("true")
            } else {
                owned("false")
            },
            Value::Int(i) => int_to_text(*i),
            Value::Str(s) => s.clone(),
            Value::Array(items) => {
                let ghost sv = values_v(items@, items@.len() as int);
                proof { lemma_values_v(items@, items@.len() as int); }
                let mut out = owned("[");
                let mut i: usize = 0;
                while i < items.len()
                    invariant
                        *self == Value::Array(*items),
                        self@ == ValueV::Array(values_v(items@, items@.len() as int)),
                        i <= items.len(),
                        sv.len() == items@.len(),
                        forall|j: int| 0 <= j < items@.len() ==> sv[j] == value_v(items@[j]),
                        out@ == "["@ + items_text(sv, i as int),
                    decreases items.len() - i,
                {
                    if i > 0 {
                        out.append(",");
                    }
                    proof {
                        assert(decreases_to!(*items => items@));
                        assert(decreases_to!(items@ => items@[i as int]));
                        assert(decreases_to!(*self => items@[i as int]));
                    }
                    let item = items[i].to_display_string();
                    out.append(item.as_str());
                    assert(out@ =~= "["@ + items_text(sv, i + 1));
                    i += 1;
                }
                out.append("]");
                out
            },
            Value::Object(fields) => {
                let ghost sv = fields_v(fields@, fields@.len() as int);
                proof { lemma_fields_v(fields@, fields@.len() as int); }
                let mut out = owned("{");
                let mut i: usize = 0;
                while i < fields.len()
                    invariant
                        *self == Value::Object(*fields),
                        self@ == ValueV::Object(fields_v(fields@, fields@.len() as int)),
                        i <= fields.len(),
                        sv.len() == fields@.len(),
                        forall|j: int| 0 <= j < fields@.len() ==> sv[j] == (fields@[j].0@, value_v(fields@[j].1)),
                        out@ == "{"@ + fields_text(sv, i as int),
                    decreases fields.len() - i,
                {
                    if i > 0 {
                        out.append(",");
                    }
                    proof {
                        assert(decreases_to!(*fields => fields@));
                        assert(decreases_to!(fields@ => fields@[i as int]));
                        assert(decreases_to!(fields@[i as int] => fields@[i as int].1));
                        assert(decreases_to!(*self => fields@[i as int].1));
                    }
                    out.append(fields[i].0.as_str());
                    out.append(":");
                    let item = fields[i].1.to_display_string();
                    out.append(item.as_str());
                    assert(out@ =~= "{"@ + fields_text(sv, i + 1));
                    i += 1;
                }
                out.append("}");
                out
            },
        }
    }

    /// Name of the value's type.
    pub fn type_of(&self) -> (r: String)
        ensures
            r@ == type_text(self@),
    {
        match self {
            Value::Null => owned("null"),
            Value::Boolean(_) => owned("boolean"),
            Value::Int(_) => owned("int"),
            Value::Str(_) => owned("string"),
            Value::Array(_) => owned("array"),
            Value::Object(_) => owned("object"),
        }
    }

    fn as_number(&self) -> (r: Option<i64>)
        ensures
            r matches Some(x) ==> numeric(self@) == Some(x as int),
            r is None ==> numeric(self@) is None,
    {
        match self {
            Value::Int(i) => Some(*i),
            Value::Boolean(b) => Some(if *b { 1i64 } else { 0i64 }),
            _ => None,
        }
    }

    /// Applies a binary arithmetic operator.
    pub fn arith(&self, op: ArithOp, other: &Value) -> (r: Result<Value, ErrorKind>)
        ensures
            r matches Ok(v) ==> arith_spec(op, self@, other@) == Ok::<ValueV, ErrorKind>(v@),
            r matches Err(e) ==> arith_spec(op, self@, other@) == Err::<ValueV, ErrorKind>(e),
    {
        let x = match self.as_number() {
            Some(x) => x,
            None => return Err(ErrorKind::IllegalOperation),
        };
        let y = match other.as_number() {
            Some(y) => y,
            None => return Err(ErrorKind::IllegalOperation),
        };
        let z: i128 = match op {
            ArithOp::Add => x as i128 + y as i128,
            ArithOp::Sub => x as i128 - y as i128,
            ArithOp::Mul => {
                assert(-0x8000_0000_0000_0000_0000_0000_0000_0000 <= (x as int) * (y as int)
                    <= 0x7fff_ffff_ffff_ffff_ffff_ffff_ffff_ffff) by (nonlinear_arith)
                    requires
                        i64::MIN <= x <= i64::MAX,
                        i64::MIN <= y <= i64::MAX,
                ;
                x as i128 * y as i128
            },
            ArithOp::Div | ArithOp::Rem => {
                if y == 0 {
                    return Err(ErrorKind::DivisionByZero);
                }
                let ax: u64 = if x < 0 { (-(x as i128)) as u64 } else { x as u64 };
                let ay: u64 = if y < 0 { (-(y as i128)) as u64 } else { y as u64 };
                let q: u64 = ax / ay;
                let sq: i128 = if (x < 0) == (y < 0) { q as i128 } else { -(q as i128) };
                assert(sq == trunc_div(x as int, y as int));
                if op == ArithOp::Div {
                    sq
                } else {
                    assert(0 <= q <= ax) by (nonlinear_arith)
                        requires q == ax / ay, ay >= 1;
                    assert(-0x4000_0000_0000_0000_0000_0000_0000_0000 <= (y as int) * (sq as int)
                        <= 0x4000_0000_0000_0000_0000_0000_0000_0000) by (nonlinear_arith)
                        requires
                            i64::MIN <= y <= i64::MAX,
                            -0x8000_0000_0000_0000 <= sq <= 0x8000_0000_0000_0000,
                    ;
                    x as i128 - y as i128 * sq
                }
            },
            ArithOp::BitAnd => (x & y) as i128,
            ArithOp::BitOr => (x | y) as i128,
        };
        if z < i64::MIN as i128 || z > i64::MAX as i128 {
            Err(ErrorKind::IllegalOperation)
        } else {
            Ok(Value::Int(z as i64))
        }
    }

    pub fn do_add(&self, other: &Value) -> (r: Result<Value, ErrorKind>)
        ensures
            r matches Ok(v) ==> arith_spec(ArithOp::Add, self@, other@) == Ok::<ValueV, ErrorKind>(v@),
            r matches Err(e) ==> arith_spec(ArithOp::Add, self@, other@) == Err::<ValueV, ErrorKind>(e),
    {
        self.arith(ArithOp::Add, other)
    }

    pub fn do_sub(&self, other: &Value) -> (r: Result<Value, ErrorKind>)
        ensures
            r matches Ok(v) ==> arith_spec(ArithOp::Sub, self@, other@) == Ok::<ValueV, ErrorKind>(v@),
            r matches Err(e) ==> arith_spec(ArithOp::Sub, self@, other@) == Err::<ValueV, ErrorKind>(e),
    {
        self.arith(ArithOp::Sub, other)
    }

    pub fn do_mul(&self, other: &Value) -> (r: Result<Value, ErrorKind>)
        ensures
            r matches Ok(v) ==> arith_spec(ArithOp::Mul, self@, other@) == Ok::<ValueV, ErrorKind>(v@),
            r matches Err(e) ==> arith_spec(ArithOp::Mul, self@, other@) == Err::<ValueV, ErrorKind>(e),
    {
        self.arith(ArithOp::Mul, other)
    }

    pub fn do_div(&self, other: &Value) -> (r: Result<Value, ErrorKind>)
        ensures
            r matches Ok(v) ==> arith_spec(ArithOp::Div, self@, other@) == Ok::<ValueV, ErrorKind>(v@),
            r matches Err(e) ==> arith_spec(ArithOp::Div, self@, other@) == Err::<ValueV, ErrorKind>(e),
    {
        self.arith(ArithOp::Div, other)
    }

    pub fn do_rem(&self, other: &Value) -> (r: Result<Value, ErrorKind>)
        ensures
            r matches Ok(v) ==> arith_spec(ArithOp::Rem, self@, other@) == Ok::<ValueV, ErrorKind>(v@),
            r matches Err(e) ==> arith_spec(ArithOp::Rem, self@, other@) == Err::<ValueV, ErrorKind>(e),
    {
        self.arith(ArithOp::Rem, other)
    }

    pub fn do_bitand(&self, other: &Value) -> (r: Result<Value, ErrorKind>)
        ensures
            r matches Ok(v) ==> arith_spec(ArithOp::BitAnd, self@, other@) == Ok::<ValueV, ErrorKind>(v@),
            r matches Err(e) ==> arith_spec(ArithOp::BitAnd, self@, other@) == Err::<ValueV, ErrorKind>(e),
    {
        self.arith(ArithOp::BitAnd, other)
    }

    pub fn do_bitor(&self, other: &Value) -> (r: Result<Value, ErrorKind>)
        ensures
            r matches Ok(v) ==> arith_spec(ArithOp::BitOr, self@, other@) == Ok::<ValueV, ErrorKind>(v@),
            r matches Err(e) ==> arith_spec(ArithOp::BitOr, self@, other@) == Err::<ValueV, ErrorKind>(e),
    {
        self.arith(ArithOp::BitOr, other)
    }

    /// Calls a method of the value with the given arguments.
    pub fn dispatch(&self, name: &String, n_args: usize) -> (r: Result<(Value, Right), ErrorKind>)
        ensures
            n_args != 0 && method_spec(self@, name@) is Ok ==> r == Err::<(Value, Right), ErrorKind>(ErrorKind::BadArguments),
            n_args == 0 ==> (r matches Ok(p) ==> method_spec(self@, name@) == Ok::<ValueV, ErrorKind>(p.0@) && p.1 == Right::Read),
            n_args == 0 ==> (r matches Err(e) ==> method_spec(self@, name@) == Err::<ValueV, ErrorKind>(e)),
            method_spec(self@, name@) is Err ==> r == Err::<(Value, Right), ErrorKind>(ErrorKind::UnknownMethod),
    {
        let known = if is_text(name, "type_of") {
            Value::Str(self.type_of())
        } else if is_text(name, "to_string") {
            Value::Str(self.to_display_string())
        } else if is_text(name, "length") && matches!(self, Value::Str(_)) {
            match self {
                Value::Str(s) => Value::Int(s.as_str().unicode_len() as i64),
                _ => Value::Null,
            }
        } else if is_text(name, "length") && matches!(self, Value::Array(_)) {
            match self {
                Value::Array(items) => {
                    proof { lemma_values_v(items@, items@.len() as int); }
                    Value::Int(items.len() as i64)
                },
                _ => Value::Null,
            }
        } else if is_text(name, "length") && matches!(self, Value::Object(_)) {
            match self {
                Value::Object(fields) => {
                    proof { lemma_fields_v(fields@, fields@.len() as int); }
                    Value::Int(fields.len() as i64)
                },
                _ => Value::Null,
            }
        } else {
            return Err(ErrorKind::UnknownMethod);
        };
        if n_args != 0 {
            return Err(ErrorKind::BadArguments);
        }
        Ok((known, Right::Read))
    }
}

impl Literal {
    /// A copy of this literal.
    pub fn duplicate(&self) -> (r: Literal)
        ensures
            r@ == self@,
    {
        Literal {
            content_type: self.content_type.clone(),
            primitive: self.primitive.duplicate(),
            interval: self.interval,
        }
    }
}

/// A boolean value on its own.
#[derive(Clone, Copy, Debug, PartialEq, Eq, Structural)]
pub struct PrimitiveBoolean {
    pub value: bool,
}

impl PrimitiveBoolean {
    pub fn new(value: bool) -> (r: PrimitiveBoolean)
        ensures
            r.value == value,
    {
        PrimitiveBoolean { value }
    }

    /// A boolean literal with the given content type and position.
    pub fn get_literal(content_type: &str, boolean: bool, interval: Interval) -> (r: Literal)
        ensures
            r@ == (LitV { content_type: content_type@, value: ValueV::Boolean(boolean), interval }),
    {
        Literal { content_type: owned(content_type), primitive: Value::Boolean(PrimitiveBoolean::new(boolean).value), interval }
    }
}

} // verus!
