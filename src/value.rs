use vstd::prelude::*;
use crate::base64_bytes::Bytes;
use crate::date::{Date, Timestamp};
use crate::number::Number;
use crate::reference::{Ref, RefV};
use crate::error::Error;
use crate::text::{seq_lt, seq_lt_order, str_eq, str_lt};

verus! {

/// The model of a [`Value`].
pub enum ValueV {
    Null,
    Boolean(bool),
    String(Seq<char>),
    Number(Number),
    Array(Seq<ValueV>),
    /// An object written with the `object` annotation.
    Object(Seq<(Seq<char>, ValueV)>),
    /// An object as the service sends it back, without annotation.
    PlainObject(Seq<(Seq<char>, ValueV)>),
    Ref(RefV),
    Bytes(Seq<u8>),
    /// Year, month and day.
    Date(i32, u32, u32),
    /// Seconds and nanoseconds after the epoch.
    Timestamp(i64, u32),
    SavedSet(Box<ValueV>),
    /// A quoted expression, which the service does not evaluate.
    Quote(Box<ValueV>),
    /// A query node: the names of its arguments and their values, in order.
    Query(Seq<(Seq<char>, ValueV)>),
}

/// Any value that can be sent to or received from the service: the tree of
/// an expression.
#[derive(Debug)]
pub enum Value {
    Null,
    Boolean(bool),
    String(String),
    Number(Number),
    Array(Vec<Value>),
    /// An object; the service reads it as data, not as a query.
    Object(Object),
    /// An object as the service sends it back, without annotation.
    PlainObject(Object),
    Ref(Ref),
    Bytes(Bytes),
    Date(Date),
    Timestamp(Timestamp),
    SavedSet(Box<Value>),
    /// A quoted expression, which the service does not evaluate.
    Quote(Box<Value>),
    Query(Box<Query>),
}

/// Key/value pairs. Built with [`Object::insert`], the keys are unique and
/// in ascending order, which is also the order on the wire.
#[derive(Debug)]
pub struct Object {
    pub entries: Vec<(String, Value)>,
}

/// Evaluates to the value stored in a named variable.
#[derive(Debug)]
pub struct Var {
    pub var: String,
}

/// A node of the query language. On the wire it is a plain object whose
/// keys name the function and its arguments.
#[derive(Debug)]
pub enum Query {
    Var(Var),
    /// A function application: its named arguments, in order.
    Call(Vec<(String, Value)>),
}

/// The model of a sequence of named values.
pub open spec fn entries_view(e: &Vec<(String, Value)>) -> Seq<(Seq<char>, ValueV)>
    decreases e, 0nat,
{
    Seq::new(
        e.len() as nat,
        |i: int|
            if 0 <= i < e.len() {
                (e[i].0@, value_view(&e[i].1))
            } else {
                (Seq::empty(), ValueV::Null)
            },
    )
}

/// The model of a value.
pub open spec fn value_view(v: &Value) -> ValueV
    decreases v, 1nat,
{
    match v {
        Value::Null => ValueV::Null,
        Value::Boolean(b) => ValueV::Boolean(*b),
        Value::String(s) => ValueV::String(s@),
        Value::Number(n) => ValueV::Number(*n),
        Value::Array(a) => ValueV::Array(
            Seq::new(
                a.len() as nat,
                |i: int| if 0 <= i < a.len() { value_view(&a[i]) } else { ValueV::Null },
            ),
        ),
        Value::Object(o) => ValueV::Object(entries_view(&o.entries)),
        Value::PlainObject(o) => ValueV::PlainObject(entries_view(&o.entries)),
        Value::Ref(r) => ValueV::Ref(r@),
        Value::Bytes(b) => ValueV::Bytes(b.0@),
        Value::Date(d) => ValueV::Date(d.spec_year(), d.spec_month(), d.spec_day()),
        Value::Timestamp(t) => ValueV::Timestamp(t.spec_secs(), t.spec_nanos()),
        Value::SavedSet(s) => ValueV::SavedSet(Box::new(value_view(s))),
        Value::Quote(q) => ValueV::Quote(Box::new(value_view(q))),
        Value::Query(q) => ValueV::Query(
            match &**q {
                Query::Var(x) => seq![(var_key(), ValueV::String(x.var@))],
                Query::Call(args) => entries_view(args),
            },
        ),
    }
}

/// The key under which a variable's name is written.
pub open spec fn var_key() -> Seq<char> {
    seq!['v', 'a', 'r']
}

impl View for Value {
    type V = ValueV;

    open spec fn view(&self) -> ValueV {
        value_view(self)
    }
}

impl View for Object {
    type V = Seq<(Seq<char>, ValueV)>;

    open spec fn view(&self) -> Seq<(Seq<char>, ValueV)> {
        entries_view(&self.entries)
    }
}

/// `s` with the pair `(k, v)` put in its place by key order: the value of an
/// equal key met on the way is replaced, else the pair goes before the first
/// greater key.
pub open spec fn placed(s: Seq<(Seq<char>, ValueV)>, k: Seq<char>, v: ValueV) -> Seq<
    (Seq<char>, ValueV),
>
    decreases s.len(),
{
    if s.len() == 0 {
        seq![(k, v)]
    } else if s[0].0 == k {
        seq![(k, v)] + s.drop_first()
    } else if seq_lt(k, s[0].0) {
        seq![(k, v)] + s
    } else {
        seq![s[0]] + placed(s.drop_first(), k, v)
    }
}

/// The first position from `i` on whose key is `k`.
pub open spec fn key_position(s: Seq<(Seq<char>, ValueV)>, k: Seq<char>, i: int) -> Option<int>
    decreases s.len() - i,
{
    if i < 0 || i >= s.len() {
        None
    } else if s[i].0 == k {
        Some(i)
    } else {
        key_position(s, k, i + 1)
    }
}

/// Whether the keys are unique and ascending.
pub open spec fn keys_sorted(s: Seq<(Seq<char>, ValueV)>) -> bool {
    forall|i: int, j: int| 0 <= i < j < s.len() ==> seq_lt(#[trigger] s[i].0, #[trigger] s[j].0)
}

/// Placing a pair into pairs with unique ascending keys keeps them so; every key
/// of the result is the inserted key or a key that was there.
pub proof fn placed_keeps_order(s: Seq<(Seq<char>, ValueV)>, k: Seq<char>, v: ValueV)
    requires
        keys_sorted(s),
    ensures
        keys_sorted(placed(s, k, v)),
        forall|i: int| 0 <= i < placed(s, k, v).len() ==> (#[trigger] placed(s, k, v)[i]).0 == k
            || exists|j: int| 0 <= j < s.len() && (#[trigger] s[j]).0 == placed(s, k, v)[i].0,
    decreases s.len(),
{
    let ins = placed(s, k, v);
    if s.len() == 0 {
    } else if s[0].0 == k {
        assert(ins == seq![(k, v)] + s.drop_first());
        assert forall|i: int, j: int| 0 <= i < j < ins.len() implies seq_lt(#[trigger] ins[i].0, #[trigger] ins[j].0) by {
            assert(ins[j] == s[j]);
            if i > 0 {
                assert(ins[i] == s[i]);
            }
        }
        assert forall|i: int| 0 <= i < ins.len() implies (#[trigger] ins[i]).0 == k
            || exists|j: int| 0 <= j < s.len() && (#[trigger] s[j]).0 == ins[i].0 by {
            if i > 0 {
                assert(ins[i] == s[i]);
            }
        }
    } else if seq_lt(k, s[0].0) {
        assert(ins == seq![(k, v)] + s);
        assert forall|i: int, j: int| 0 <= i < j < ins.len() implies seq_lt(#[trigger] ins[i].0, #[trigger] ins[j].0) by {
            assert(ins[j] == s[j - 1]);
            if i > 0 {
                assert(ins[i] == s[i - 1]);
            } else if j > 1 {
                assert(seq_lt(s[0].0, s[j - 1].0));
                seq_lt_order(k, s[0].0, s[j - 1].0);
            }
        }
        assert forall|i: int| 0 <= i < ins.len() implies (#[trigger] ins[i]).0 == k
            || exists|j: int| 0 <= j < s.len() && (#[trigger] s[j]).0 == ins[i].0 by {
            if i > 0 {
                assert(ins[i] == s[i - 1]);
            }
        }
    } else {
        let rest = s.drop_first();
        assert(keys_sorted(rest)) by {
            assert forall|i: int, j: int| 0 <= i < j < rest.len() implies seq_lt(#[trigger] rest[i].0, #[trigger] rest[j].0) by {
                assert(rest[i] == s[i + 1] && rest[j] == s[j + 1]);
            }
        }
        placed_keeps_order(rest, k, v);
        let tail = placed(rest, k, v);
        assert(ins == seq![s[0]] + tail);
        seq_lt_order(s[0].0, k, k);
        seq_lt_order(k, s[0].0, k);
        assert(seq_lt(s[0].0, k));
        assert forall|i: int, j: int| 0 <= i < j < ins.len() implies seq_lt(#[trigger] ins[i].0, #[trigger] ins[j].0) by {
            assert(ins[j] == tail[j - 1]);
            if i > 0 {
                assert(ins[i] == tail[i - 1]);
            } else {
                assert(tail[j - 1].0 == k || exists|m: int| 0 <= m < rest.len() && (#[trigger] rest[m]).0 == tail[j - 1].0);
                if tail[j - 1].0 != k {
                    let m = choose|m: int| 0 <= m < rest.len() && (#[trigger] rest[m]).0 == tail[j - 1].0;
                    assert(rest[m] == s[m + 1]);
                    assert(seq_lt(s[0].0, s[m + 1].0));
                }
            }
        }
        assert forall|i: int| 0 <= i < ins.len() implies (#[trigger] ins[i]).0 == k
            || exists|j: int| 0 <= j < s.len() && (#[trigger] s[j]).0 == ins[i].0 by {
            if i == 0 {
                assert(ins[0] == s[0]);
            } else {
                assert(ins[i] == tail[i - 1]);
                assert(tail[i - 1].0 == k || exists|m: int| 0 <= m < rest.len() && (#[trigger] rest[m]).0 == tail[i - 1].0);
                if tail[i - 1].0 != k {
                    let m = choose|m: int| 0 <= m < rest.len() && (#[trigger] rest[m]).0 == tail[i - 1].0;
                    assert(rest[m] == s[m + 1]);
                }
            }
        }
    }
}

/// `s` with `k` set to `v`: the first pair with key `k` takes the value;
/// where there is none, the pair goes before the first greater key.
pub open spec fn inserted(s: Seq<(Seq<char>, ValueV)>, k: Seq<char>, v: ValueV) -> Seq<(Seq<char>, ValueV)> {
    match key_position(s, k, 0) {
        Some(i) => s.update(i, (k, v)),
        None => placed(s, k, v),
    }
}

/// What the first position of a key says of the pairs from `j` on.
pub proof fn key_position_facts(s: Seq<(Seq<char>, ValueV)>, k: Seq<char>, j: int)
    requires
        0 <= j,
    ensures
        key_position(s, k, j) matches Some(i) ==> j <= i < s.len() && s[i].0 == k,
        key_position(s, k, j) is None ==> forall|i: int| j <= i < s.len() ==> s[i].0 != k,
    decreases s.len() - j,
{
    if j < s.len() && s[j].0 != k {
        key_position_facts(s, k, j + 1);
    }
}

/// Setting a key in pairs with unique ascending keys keeps them so.
pub proof fn inserted_keeps_order(s: Seq<(Seq<char>, ValueV)>, k: Seq<char>, v: ValueV)
    requires
        keys_sorted(s),
    ensures
        keys_sorted(inserted(s, k, v)),
{
    key_position_facts(s, k, 0);
    match key_position(s, k, 0) {
        Some(i) => {
            let u = s.update(i, (k, v));
            assert forall|a: int, b: int| 0 <= a < b < u.len() implies seq_lt(#[trigger] u[a].0, #[trigger] u[b].0) by {
                assert(u[a].0 == s[a].0 && u[b].0 == s[b].0);
            }
        },
        None => placed_keeps_order(s, k, v),
    }
}

/// `v` re-annotated so that it can be sent again: every object, plain or
/// annotated, inside arrays and objects becomes an annotated object.
pub open spec fn reused(v: ValueV) -> ValueV
    decreases v,
{
    match v {
        ValueV::Array(a) => ValueV::Array(
            Seq::new(a.len(), |i: int| if 0 <= i < a.len() { reused(a[i]) } else { ValueV::Null }),
        ),
        ValueV::Object(e) => ValueV::Object(reused_entries(e)),
        ValueV::PlainObject(e) => ValueV::Object(reused_entries(e)),
        _ => v,
    }
}

pub open spec fn reused_entries(e: Seq<(Seq<char>, ValueV)>) -> Seq<(Seq<char>, ValueV)>
    decreases e,
{
    Seq::new(
        e.len(),
        |i: int| if 0 <= i < e.len() { (e[i].0, reused(e[i].1)) } else { (Seq::empty(), ValueV::Null) },
    )
}

impl Object {
    /// An empty object.
    pub fn new() -> (r: Object)
        ensures
            r@ == Seq::<(Seq<char>, ValueV)>::empty(),
            r.wf(),
    {
        Object { entries: Vec::new() }
    }

    /// Where `key` goes: the index of the pair to replace (`true`) or the
    /// index to insert at (`false`).
    fn find_slot(&self, key: &str) -> (r: (usize, bool))
        ensures
            r.0 <= self@.len(),
            r.1 ==> r.0 < self@.len(),
            forall|v: ValueV| #[trigger] placed(self@, key@, v) == if r.1 {
                self@.take(r.0 as int) + seq![(key@, v)] + self@.skip(r.0 + 1)
            } else {
                self@.take(r.0 as int) + seq![(key@, v)] + self@.skip(r.0 as int)
            },
    {
        let ghost s = self@;
        let ghost k = key@;
        let n = self.entries.len();
        let mut i: usize = 0;
        assert forall|v: ValueV| #[trigger] placed(s, k, v) == s.take(0) + placed(s.skip(0), k, v) by {
            assert(s.skip(0) =~= s);
            assert(s.take(0) + placed(s, k, v) =~= placed(s, k, v));
        }
        while i < n
            invariant
                n == self.entries.len(),
                i <= n,
                self@ == s,
                k == key@,
                forall|v: ValueV| #[trigger] placed(s, k, v) == s.take(i as int) + placed(s.skip(i as int), k, v),
            decreases n - i,
        {
            assert(s.skip(i as int)[0] == s[i as int]);
            assert(s.skip(i as int).drop_first() =~= s.skip(i as int + 1));
            if str_eq(self.entries[i].0.as_str(), key) {
                assert(s[i as int].0 == k);
                assert forall|v: ValueV| #[trigger] placed(s, k, v) == s.take(i as int) + seq![(k, v)] + s.skip(i + 1) by {
                    assert(placed(s.skip(i as int), k, v) == seq![(k, v)] + s.skip(i as int).drop_first());
                    assert(s.take(i as int) + (seq![(k, v)] + s.skip(i + 1)) =~= s.take(i as int) + seq![(k, v)] + s.skip(i + 1));
                }
                return (i, true);
            }
            if str_lt(key, self.entries[i].0.as_str()) {
                assert(s[i as int].0 != k && seq_lt(k, s[i as int].0));
                assert forall|v: ValueV| #[trigger] placed(s, k, v) == s.take(i as int) + seq![(k, v)] + s.skip(i as int) by {
                    assert(placed(s.skip(i as int), k, v) == seq![(k, v)] + s.skip(i as int));
                    assert(s.take(i as int) + (seq![(k, v)] + s.skip(i as int)) =~= s.take(i as int) + seq![(k, v)] + s.skip(i as int));
                }
                return (i, false);
            }
            assert forall|v: ValueV| #[trigger] placed(s, k, v) == s.take(i + 1) + placed(s.skip(i + 1), k, v) by {
                assert(placed(s.skip(i as int), k, v) == seq![s[i as int]] + placed(s.skip(i + 1), k, v));
                assert(s.take(i as int) + (seq![s[i as int]] + placed(s.skip(i + 1), k, v))
                    =~= s.take(i + 1) + placed(s.skip(i + 1), k, v));
            }
            i = i + 1;
        }
        assert forall|v: ValueV| #[trigger] placed(s, k, v) == s.take(n as int) + seq![(k, v)] + s.skip(n as int) by {
            assert(s.skip(n as int) =~= Seq::<(Seq<char>, ValueV)>::empty());
            assert(s.take(n as int) + placed(s.skip(n as int), k, v) =~= s.take(n as int) + seq![(k, v)] + s.skip(n as int));
        }
        (n, false)
    }

    /// Whether the keys are unique and ascending.
    pub open spec fn wf(&self) -> bool {
        keys_sorted(self@)
    }

    /// Sets `key` to `val`, keeping the keys in order.
    pub fn insert(&mut self, key: &str, val: Value) -> (r: &mut Self)
        ensures
            (*r)@ == inserted(old(self)@, key@, val@),
            old(self).wf() ==> (*r).wf(),
            *final(self) == *final(r),
    {
        let ghost s = self@;
        let ghost old_entries = self.entries@;
        let ghost v = val@;
        proof {
            key_position_facts(s, key@, 0);
            if keys_sorted(s) {
                inserted_keeps_order(s, key@, v);
            }
        }
        match self.position(key) {
            Some(i) => {
                self.entries.set(i, (key.to_owned(), val));
                assert(self@ =~= s.update(i as int, (key@, v))) by {
                    assert forall|j: int| 0 <= j < old_entries.len() && j != i implies self.entries@[j] == old_entries[j] by {}
                }
                return self;
            },
            None => {},
        }
        let (i, replace) = self.find_slot(key);
        if replace {
            self.entries.set(i, (key.to_owned(), val));
            assert(self@ =~= s.take(i as int) + seq![(key@, v)] + s.skip(i + 1)) by {
                assert forall|j: int| 0 <= j < old_entries.len() && j != i implies self.entries@[j] == old_entries[j] by {}
            }
        } else {
            self.entries.insert(i, (key.to_owned(), val));
            assert(self@ =~= s.take(i as int) + seq![(key@, v)] + s.skip(i as int)) by {
                assert forall|j: int| 0 <= j < i implies self.entries@[j] == old_entries[j] by {}
                assert forall|j: int| i < j <= old_entries.len() implies self.entries@[j] == old_entries[j - 1] by {}
            }
        }
        self
    }

    /// The number of pairs.
    pub fn len(&self) -> (r: usize)
        ensures
            r == self@.len(),
    {
        self.entries.len()
    }

    pub fn is_empty(&self) -> (r: bool)
        ensures
            r == (self@.len() == 0),
    {
        self.entries.len() == 0
    }

    /// The value under the first pair with key `k`, if there is one.
    pub open spec fn get_spec(&self, k: Seq<char>) -> Option<&Value> {
        match key_position(self@, k, 0) {
            Some(i) => Some(&self.entries@[i].1),
            None => None,
        }
    }

    /// The first position of `key`, if it is there.
    fn position(&self, key: &str) -> (r: Option<usize>)
        ensures
            match key_position(self@, key@, 0) {
                Some(i) => r == Some(i as usize),
                None => r is None,
            },
    {
        let n = self.entries.len();
        let mut i: usize = 0;
        while i < n
            invariant
                n == self.entries.len(),
                n == self@.len(),
                i <= n,
                key_position(self@, key@, 0) == key_position(self@, key@, i as int),
            decreases n - i,
        {
            if str_eq(self.entries[i].0.as_str(), key) {
                return Some(i);
            }
            i = i + 1;
        }
        None
    }

    /// The value under `key`, if there is one.
    pub fn get(&self, key: &str) -> (r: Option<&Value>)
        ensures
            r == self.get_spec(key@),
    {
        let n = self.entries.len();
        let mut i: usize = 0;
        while i < n
            invariant
                n == self.entries.len(),
                n == self@.len(),
                i <= n,
                key_position(self@, key@, 0) == key_position(self@, key@, i as int),
            decreases n - i,
        {
            if str_eq(self.entries[i].0.as_str(), key) {
                return Some(&self.entries[i].1);
            }
            i = i + 1;
        }
        None
    }

    /// The object with each value re-annotated (see [`Value::reuse`]).
    pub fn reuse(self) -> (r: Object)
        ensures
            r@ == reused_entries(self@),
        decreases self, 0nat,
    {
        let mut entries = self.entries;
        let ghost orig = entries;
        let ghost before = entries_view(&orig);
        let n = entries.len();
        let mut out: Vec<(String, Value)> = Vec::new();
        let mut i: usize = 0;
        while i < n
            invariant
                n == entries.len(),
                n == orig.len(),
                before == entries_view(&orig),
                orig == self.entries,
                i <= n,
                out.len() == i,
                forall|j: int| i <= j < n ==> #[trigger] entries@[j] == orig@[j],
                forall|j: int| 0 <= j < i ==> #[trigger] entries_view(&out)[j] == (before[j].0, reused(before[j].1)),
            decreases n - i,
        {
            let mut taken: (String, Value) = (String::new(), Value::Null);
            entries.set_and_swap(i, &mut taken);
            let (key, val) = taken;
            assert(decreases_to!(self => val)) by {
                assert(decreases_to!(orig => orig@[i as int]));
            }
            let val = val.reuse();
            let ghost prev = out;
            out.push((key, val));
            proof {
                assert forall|j: int| 0 <= j <= i implies #[trigger] entries_view(&out)[j] == (before[j].0, reused(before[j].1)) by {
                    if j < i {
                        assert(out@[j] == prev@[j]);
                        assert(entries_view(&prev)[j] == (before[j].0, reused(before[j].1)));
                    }
                }
            }
            i = i + 1;
        }
        let r = Object { entries: out };
        assert(r@ =~= reused_entries(before));
        r
    }
}

impl Var {
    /// The variable named `var`.
    pub fn new(var: &str) -> (r: Var)
        ensures
            r.var@ == var@,
    {
        Var { var: var.to_owned() }
    }
}

impl Value {
    /// The null value.
    pub fn null() -> (r: Value)
        ensures
            r@ == ValueV::Null,
    {
        Value::Null
    }

    /// `v` re-annotated so that it can be sent again: a value taken from a
    /// response has lost the annotation of its objects, which the service
    /// needs to read them as data.
    pub fn reuse(self) -> (r: Value)
        ensures
            r@ == reused(self@),
        decreases self, 1nat,
    {
        match self {
            Value::Object(o) => Value::Object(o.reuse()),
            Value::PlainObject(o) => Value::Object(o.reuse()),
            Value::Array(a) => {
                let mut items = a;
                let ghost orig = items;
                let ghost before = self@->Array_0;
                let n = items.len();
                let mut out: Vec<Value> = Vec::new();
                let mut i: usize = 0;
                while i < n
                    invariant
                        n == items.len(),
                        n == orig.len(),
                        self == Value::Array(orig),
                        before == self@->Array_0,
                        i <= n,
                        out.len() == i,
                        before.len() == n,
                        forall|j: int| i <= j < n ==> #[trigger] items@[j] == orig@[j],
                        forall|j: int| 0 <= j < i ==> #[trigger] value_view(&out[j]) == reused(before[j]),
                    decreases n - i,
                {
                    let mut taken = Value::Null;
                    items.set_and_swap(i, &mut taken);
                    assert(decreases_to!(self => taken)) by {
                        assert(decreases_to!(orig => orig@[i as int]));
                    }
                    out.push(taken.reuse());
                    i = i + 1;
                }
                let r = Value::Array(out);
                assert(r@->Array_0 =~= reused(self@)->Array_0) by {
                    assert forall|j: int| 0 <= j < n implies #[trigger] r@->Array_0[j] == reused(self@)->Array_0[j] by {
                        assert(r@->Array_0[j] == value_view(&out[j]));
                        assert(before[j] == self@->Array_0[j]);
                    }
                }
                r
            },
            other => other,
        }
    }

    /// Quotes the value, so that the service does not evaluate it.
    pub fn as_quoted(self) -> (r: Value)
        ensures
            r@ == ValueV::Quote(Box::new(self@)),
    {
        Value::Quote(Box::new(self))
    }

    /// Unquotes the value if it is quoted, so that the service evaluates it.
    pub fn as_unquoted(self) -> (r: Value)
        ensures
            r@ == (match self@ {
                ValueV::Quote(inner) => *inner,
                other => other,
            }),
    {
        match self {
            Value::Quote(inner) => *inner,
            other => other,
        }
    }
}

impl Value {
    pub fn from_bool(b: bool) -> (r: Value)
        ensures
            r@ == ValueV::Boolean(b),
    {
        Value::Boolean(b)
    }

    pub fn from_str(s: &str) -> (r: Value)
        ensures
            r@ == ValueV::String(s@),
    {
        Value::String(s.to_owned())
    }

    pub fn from_string(s: String) -> (r: Value)
        ensures
            r@ == ValueV::String(s@),
    {
        Value::String(s)
    }

    /// Any signed integer, widened to 64 bits.
    pub fn from_i64(i: i64) -> (r: Value)
        ensures
            r@ == ValueV::Number(Number::Int(i)),
    {
        Value::Number(Number::Int(i))
    }

    /// Any unsigned integer, widened to 64 bits.
    pub fn from_u64(u: u64) -> (r: Value)
        ensures
            r@ == ValueV::Number(Number::UInt(u)),
    {
        Value::Number(Number::UInt(u))
    }

    pub fn from_number(n: Number) -> (r: Value)
        ensures
            r@ == ValueV::Number(n),
    {
        Value::Number(n)
    }

    pub fn from_vec(items: Vec<Value>) -> (r: Value)
        ensures
            r == Value::Array(items),
    {
        Value::Array(items)
    }

    pub fn from_object(o: Object) -> (r: Value)
        ensures
            r@ == ValueV::Object(o@),
    {
        Value::Object(o)
    }

    pub fn from_ref(r: Ref) -> (v: Value)
        ensures
            v@ == ValueV::Ref(r@),
    {
        Value::Ref(r)
    }

    pub fn from_bytes(b: Bytes) -> (v: Value)
        ensures
            v@ == ValueV::Bytes(b.0@),
    {
        Value::Bytes(b)
    }

    pub fn from_date(d: Date) -> (v: Value)
        ensures
            v@ == ValueV::Date(d.spec_year(), d.spec_month(), d.spec_day()),
    {
        Value::Date(d)
    }

    pub fn from_timestamp(t: Timestamp) -> (v: Value)
        ensures
            v@ == ValueV::Timestamp(t.spec_secs(), t.spec_nanos()),
    {
        Value::Timestamp(t)
    }

    pub fn from_query(q: Query) -> (v: Value)
        ensures
            v == Value::Query(Box::new(q)),
    {
        Value::Query(Box::new(q))
    }

    /// A saved set: the instances that `index` holds for `terms`.
    pub fn matching(index: Ref, terms: Value) -> (v: Value)
        ensures
            v@ == ValueV::SavedSet(Box::new(ValueV::Query(seq![
                (seq!['m', 'a', 't', 'c', 'h'], ValueV::Ref(index@)),
                (seq!['t', 'e', 'r', 'm', 's'], terms@),
            ]))),
    {
        let ghost iv = index@;
        let ghost tv = terms@;
        let mut args: Vec<(String, Value)> = Vec::new();
        args.push(("match".to_owned(), Value::Ref(index)));
        args.push(("terms".to_owned(), terms));
        proof {
            reveal_strlit("match");
            reveal_strlit("terms");
            assert("match"@ =~= seq!['m', 'a', 't', 'c', 'h']);
            assert("terms"@ =~= seq!['t', 'e', 'r', 'm', 's']);
        }
        assert(entries_view(&args) =~= seq![
            (seq!['m', 'a', 't', 'c', 'h'], ValueV::Ref(iv)),
            (seq!['t', 'e', 'r', 'm', 's'], tv),
        ]);
        let ghost ev = entries_view(&args);
        let q = Value::Query(Box::new(Query::Call(args)));
        assert(q@ == ValueV::Query(ev));
        let v = Value::SavedSet(Box::new(q));
        assert(v@ == ValueV::SavedSet(Box::new(q@)));
        v
    }

    pub fn is_null(&self) -> (r: bool)
        ensures
            r == (self@ is Null),
    {
        match self {
            Value::Null => true,
            _ => false,
        }
    }

    pub fn is_string(&self) -> (r: bool)
        ensures
            r == (self@ is String),
    {
        match self {
            Value::String(_) => true,
            _ => false,
        }
    }

    /// The text of a `String`, otherwise `None`.
    pub fn as_str(&self) -> (r: Option<&str>)
        ensures
            r is Some <==> self@ is String,
            r matches Some(s) ==> self@ == ValueV::String(s@),
    {
        match self {
            Value::String(s) => Some(s.as_str()),
            _ => None,
        }
    }

    pub fn is_number(&self) -> (r: bool)
        ensures
            r == (self@ is Number),
    {
        match self {
            Value::Number(_) => true,
            _ => false,
        }
    }

    pub fn as_number(&self) -> (r: Option<Number>)
        ensures
            r == (match self@ {
                ValueV::Number(n) => Some(n),
                _ => None,
            }),
    {
        match self {
            Value::Number(n) => Some(*n),
            _ => None,
        }
    }

    pub fn is_u64(&self) -> (r: bool)
        ensures
            r == (self@ matches ValueV::Number(Number::UInt(_))),
    {
        match self {
            Value::Number(n) => n.is_u64(),
            _ => false,
        }
    }

    pub fn as_u64(&self) -> (r: Option<u64>)
        ensures
            r == (match self@ {
                ValueV::Number(Number::UInt(u)) => Some(u),
                _ => None,
            }),
    {
        match self {
            Value::Number(n) => n.as_u64(),
            _ => None,
        }
    }

    pub fn is_i64(&self) -> (r: bool)
        ensures
            r == (self@ matches ValueV::Number(Number::Int(_))),
    {
        match self {
            Value::Number(n) => n.is_i64(),
            _ => false,
        }
    }

    pub fn as_i64(&self) -> (r: Option<i64>)
        ensures
            r == (match self@ {
                ValueV::Number(Number::Int(i)) => Some(i),
                _ => None,
            }),
    {
        match self {
            Value::Number(n) => n.as_i64(),
            _ => None,
        }
    }

    pub fn is_f64(&self) -> (r: bool)
        ensures
            r == (self@ matches ValueV::Number(Number::Double(_))),
    {
        match self {
            Value::Number(n) => n.is_f64(),
            _ => false,
        }
    }

    /// The bits of a 64-bit float, if this is one.
    pub fn as_f64(&self) -> (r: Option<u64>)
        ensures
            r == (match self@ {
                ValueV::Number(Number::Double(b)) => Some(b),
                _ => None,
            }),
    {
        match self {
            Value::Number(n) => n.as_f64(),
            _ => None,
        }
    }

    pub fn is_f32(&self) -> (r: bool)
        ensures
            r == (self@ matches ValueV::Number(Number::Float(_))),
    {
        match self {
            Value::Number(n) => n.is_f32(),
            _ => false,
        }
    }

    /// The bits of a 32-bit float, if this is one.
    pub fn as_f32(&self) -> (r: Option<u32>)
        ensures
            r == (match self@ {
                ValueV::Number(Number::Float(b)) => Some(b),
                _ => None,
            }),
    {
        match self {
            Value::Number(n) => n.as_f32(),
            _ => None,
        }
    }

    pub fn is_bool(&self) -> (r: bool)
        ensures
            r == (self@ is Boolean),
    {
        match self {
            Value::Boolean(_) => true,
            _ => false,
        }
    }

    pub fn as_bool(&self) -> (r: Option<bool>)
        ensures
            r == (match self@ {
                ValueV::Boolean(b) => Some(b),
                _ => None,
            }),
    {
        match self {
            Value::Boolean(b) => Some(*b),
            _ => None,
        }
    }

    pub fn is_array(&self) -> (r: bool)
        ensures
            r == (self@ is Array),
    {
        match self {
            Value::Array(_) => true,
            _ => false,
        }
    }

    pub fn as_array(&self) -> (r: Option<&Vec<Value>>)
        ensures
            r is Some <==> self is Array,
            r matches Some(a) ==> *self == Value::Array(*a),
    {
        match self {
            Value::Array(a) => Some(a),
            _ => None,
        }
    }

    /// `true` for an object, annotated or plain.
    pub fn is_object(&self) -> (r: bool)
        ensures
            r == (self@ is Object || self@ is PlainObject),
    {
        match self {
            Value::Object(_) | Value::PlainObject(_) => true,
            _ => false,
        }
    }

    /// The pairs of an object, annotated or plain.
    pub fn as_object(&self) -> (r: Option<&Object>)
        ensures
            r is Some <==> (self is Object || self is PlainObject),
            r matches Some(o) ==> *self == Value::Object(*o) || *self == Value::PlainObject(*o),
    {
        match self {
            Value::Object(o) | Value::PlainObject(o) => Some(o),
            _ => None,
        }
    }

    pub fn is_reference(&self) -> (r: bool)
        ensures
            r == (self@ is Ref),
    {
        match self {
            Value::Ref(_) => true,
            _ => false,
        }
    }

    pub fn as_reference(&self) -> (r: Option<&Ref>)
        ensures
            r is Some <==> self is Ref,
            r matches Some(x) ==> *self == Value::Ref(*x),
    {
        match self {
            Value::Ref(x) => Some(x),
            _ => None,
        }
    }

    /// The reference under the key `ref` of an object, if there is one.
    pub fn get_reference(&self) -> (r: Option<&Ref>)
        ensures
            r == (match self.key_spec(seq!['r', 'e', 'f']) {
                Some(v) => if v is Ref { Some(&v->Ref_0) } else { None },
                None => None,
            }),
    {
        proof {
            reveal_strlit("ref");
            assert("ref"@ =~= seq!['r', 'e', 'f']);
        }
        match self.get_key("ref") {
            Some(v) => v.as_reference(),
            None => None,
        }
    }

    /// `true` for a quoted expression.
    pub fn is_query(&self) -> (r: bool)
        ensures
            r == (self@ is Quote),
    {
        match self {
            Value::Quote(_) => true,
            _ => false,
        }
    }

    /// The expression inside a quote.
    pub fn as_query(&self) -> (r: Option<&Value>)
        ensures
            r is Some <==> self is Quote,
            r matches Some(x) ==> *self == Value::Quote(Box::new(*x)),
    {
        match self {
            Value::Quote(q) => Some(&**q),
            _ => None,
        }
    }

    pub fn is_bytes(&self) -> (r: bool)
        ensures
            r == (self@ is Bytes),
    {
        match self {
            Value::Bytes(_) => true,
            _ => false,
        }
    }

    pub fn as_bytes(&self) -> (r: Option<&Bytes>)
        ensures
            r is Some <==> self is Bytes,
            r matches Some(b) ==> self@ == ValueV::Bytes(b.0@),
    {
        match self {
            Value::Bytes(b) => Some(b),
            _ => None,
        }
    }

    pub fn is_date(&self) -> (r: bool)
        ensures
            r == (self@ is Date),
    {
        match self {
            Value::Date(_) => true,
            _ => false,
        }
    }

    pub fn as_date(&self) -> (r: Option<Date>)
        ensures
            r is Some <==> self is Date,
            r matches Some(d) ==> *self == Value::Date(d),
    {
        match self {
            Value::Date(d) => Some(*d),
            _ => None,
        }
    }

    pub fn is_set(&self) -> (r: bool)
        ensures
            r == (self@ is SavedSet),
    {
        match self {
            Value::SavedSet(_) => true,
            _ => false,
        }
    }

    pub fn as_set(&self) -> (r: Option<&Value>)
        ensures
            r is Some <==> self is SavedSet,
            r matches Some(x) ==> *self == Value::SavedSet(Box::new(*x)),
    {
        match self {
            Value::SavedSet(s) => Some(&**s),
            _ => None,
        }
    }

    pub fn is_timestamp(&self) -> (r: bool)
        ensures
            r == (self@ is Timestamp),
    {
        match self {
            Value::Timestamp(_) => true,
            _ => false,
        }
    }

    pub fn as_timestamp(&self) -> (r: Option<Timestamp>)
        ensures
            r is Some <==> self is Timestamp,
            r matches Some(t) ==> *self == Value::Timestamp(t),
    {
        match self {
            Value::Timestamp(t) => Some(*t),
            _ => None,
        }
    }

    /// The element at `index` of an array.
    pub fn get_index(&self, index: usize) -> (r: Option<&Value>)
        ensures
            r is Some <==> (self matches Value::Array(a) && index < a.len()),
            r matches Some(x) ==> x == &self->Array_0@[index as int],
    {
        match self {
            Value::Array(a) => if index < a.len() {
                Some(&a[index])
            } else {
                None
            },
            _ => None,
        }
    }

    /// The value under key `k` of an object, annotated or plain.
    pub open spec fn key_spec(&self, k: Seq<char>) -> Option<&Value> {
        match self {
            Value::Object(o) => o.get_spec(k),
            Value::PlainObject(o) => o.get_spec(k),
            _ => None,
        }
    }

    /// The value under `key` of an object, annotated or plain.
    pub fn get_key(&self, key: &str) -> (r: Option<&Value>)
        ensures
            r == self.key_spec(key@),
    {
        match self {
            Value::Object(o) | Value::PlainObject(o) => o.get(key),
            _ => None,
        }
    }
}

impl Value {
    /// The text of a `String`; any other value is a conversion error.
    pub fn into_string(self) -> (r: Result<String, Error>)
        ensures
            match self@ {
                ValueV::String(s) => r matches Ok(x) && x@ == s,
                _ => r matches Err(Error::ConversionError(m)) && m@ == "Value is not a String"@,
            },
    {
        match self {
            Value::String(s) => Ok(s),
            _ => Err(Error::ConversionError("Value is not a String".to_owned())),
        }
    }

    /// The pairs of an object, annotated or plain; any other value is a
    /// conversion error.
    pub fn into_object(self) -> (r: Result<Object, Error>)
        ensures
            match self@ {
                ValueV::Object(e) => r matches Ok(o) && o@ == e,
                ValueV::PlainObject(e) => r matches Ok(o) && o@ == e,
                _ => r matches Err(Error::ConversionError(m)) && m@ == "Value is not an Object"@,
            },
    {
        match self {
            Value::Object(o) | Value::PlainObject(o) => Ok(o),
            _ => Err(Error::ConversionError("Value is not an Object".to_owned())),
        }
    }

    /// The elements of an array; any other value is a conversion error.
    pub fn into_array(self) -> (r: Result<Vec<Value>, Error>)
        ensures
            self is Array ==> r == Ok::<Vec<Value>, Error>(self->Array_0),
            !(self is Array) ==> (r matches Err(Error::ConversionError(m)) && m@ == "Value is not an Array"@),
    {
        match self {
            Value::Array(a) => Ok(a),
            _ => Err(Error::ConversionError("Value is not an Array".to_owned())),
        }
    }
}

/// A copy of a sequence of named values.
fn clone_entries(e: &Vec<(String, Value)>) -> (r: Vec<(String, Value)>)
    ensures
        entries_view(&r) == entries_view(e),
    decreases e, 0nat,
{
    let n = e.len();
    let mut out: Vec<(String, Value)> = Vec::new();
    let mut i: usize = 0;
    while i < n
        invariant
            n == e.len(),
            i <= n,
            out.len() == i,
            forall|j: int| 0 <= j < i ==> #[trigger] entries_view(&out)[j] == entries_view(e)[j],
        decreases n - i,
    {
        let ghost prev = out;
        let item = e[i].1.clone();
        out.push((e[i].0.clone(), item));
        assert forall|j: int| 0 <= j <= i implies #[trigger] entries_view(&out)[j] == entries_view(e)[j] by {
            if j < i {
                assert(out@[j] == prev@[j]);
                assert(entries_view(&prev)[j] == entries_view(e)[j]);
            }
        }
        i = i + 1;
    }
    assert(entries_view(&out) =~= entries_view(e));
    out
}

impl Clone for Object {
    fn clone(&self) -> (r: Object)
        ensures
            r@ == self@,
    {
        Object { entries: clone_entries(&self.entries) }
    }
}

impl Clone for Value {
    fn clone(&self) -> (r: Value)
        ensures
            r@ == self@,
        decreases self, 1nat,
    {
        match self {
            Value::Null => Value::Null,
            Value::Boolean(b) => Value::Boolean(*b),
            Value::String(s) => Value::String(s.clone()),
            Value::Number(n) => Value::Number(*n),
            Value::Array(a) => {
                let n = a.len();
                let mut out: Vec<Value> = Vec::new();
                let mut i: usize = 0;
                while i < n
                    invariant
                        n == a.len(),
                        *self == Value::Array(*a),
                        i <= n,
                        out.len() == i,
                        forall|j: int| 0 <= j < i ==> #[trigger] value_view(&out[j]) == value_view(&a[j]),
                    decreases n - i,
                {
                    assert(decreases_to!(*self => a[i as int])) by {
                        assert(decreases_to!(*self => (*self)->Array_0));
                        assert(decreases_to!((*self)->Array_0 => (*self)->Array_0[i as int]));
                    }
                    let ghost prev = out;
                    out.push(a[i].clone());
                    assert forall|j: int| 0 <= j <= i implies #[trigger] value_view(&out[j]) == value_view(&a[j]) by {
                        if j < i {
                            assert(out@[j] == prev@[j]);
                        }
                    }
                    i = i + 1;
                }
                let r = Value::Array(out);
                assert(r@->Array_0 =~= self@->Array_0) by {
                    assert forall|k: int| 0 <= k < n implies #[trigger] r@->Array_0[k] == self@->Array_0[k] by {
                        assert(r@->Array_0[k] == value_view(&out[k]));
                        assert(self@->Array_0[k] == value_view(&a[k]));
                    }
                }
                r
            },
            Value::Object(o) => Value::Object(Object { entries: clone_entries(&o.entries) }),
            Value::PlainObject(o) => Value::PlainObject(Object { entries: clone_entries(&o.entries) }),
            Value::Ref(r) => Value::Ref(r.clone()),
            Value::Bytes(b) => {
                let n = b.0.len();
                let mut out: Vec<u8> = Vec::new();
                let mut i: usize = 0;
                while i < n
                    invariant
                        n == b.0.len(),
                        i <= n,
                        out@ == b.0@.take(i as int),
                    decreases n - i,
                {
                    out.push(b.0[i]);
                    assert(b.0@.take(i + 1) == b.0@.take(i as int).push(b.0@[i as int]));
                    i = i + 1;
                }
                assert(b.0@.take(n as int) =~= b.0@);
                Value::Bytes(Bytes(out))
            },
            Value::Date(d) => Value::Date(*d),
            Value::Timestamp(t) => Value::Timestamp(*t),
            Value::SavedSet(x) => Value::SavedSet(Box::new((**x).clone())),
            Value::Quote(x) => Value::Quote(Box::new((**x).clone())),
            Value::Query(q) => match &**q {
                Query::Var(x) => Value::Query(Box::new(Query::Var(Var { var: x.var.clone() }))),
                Query::Call(args) => {
                    let copied = clone_entries(args);
                    Value::Query(Box::new(Query::Call(copied)))
                },
            },
        }
    }
}

impl Value {
    /// A quoted copy of the value (see [`Value::as_quoted`]).
    pub fn to_quoted(&self) -> (r: Value)
        ensures
            r@ == ValueV::Quote(Box::new(self@)),
    {
        Value::Quote(Box::new(self.clone()))
    }

    /// An unquoted copy of the value (see [`Value::as_unquoted`]).
    pub fn to_unquoted(&self) -> (r: Value)
        ensures
            r@ == (match self@ {
                ValueV::Quote(inner) => *inner,
                other => other,
            }),
    {
        match self {
            Value::Quote(inner) => (**inner).clone(),
            other => other.clone(),
        }
    }
}

impl Value {
    /// The elements of an array, to change in place.
    pub fn as_array_mut(&mut self) -> (r: Option<&mut Vec<Value>>)
        ensures
            r is Some <==> *old(self) is Array,
            match r {
                Some(a) => *old(self) == Value::Array(*a) && *final(self) == Value::Array(*final(a)),
                None => *final(self) == *old(self),
            },
    {
        match self {
            Value::Array(a) => Some(a),
            _ => None,
        }
    }

    /// The pairs of an object, annotated or plain, to change in place.
    pub fn as_object_mut(&mut self) -> (r: Option<&mut Object>)
        ensures
            r is Some <==> (*old(self) is Object || *old(self) is PlainObject),
            match r {
                Some(o) => (*old(self) == Value::Object(*o) && *final(self) == Value::Object(*final(o))) || (
                *old(self) == Value::PlainObject(*o) && *final(self) == Value::PlainObject(*final(o))),
                None => *final(self) == *old(self),
            },
    {
        match self {
            Value::Object(o) => Some(o),
            Value::PlainObject(o) => Some(o),
            _ => None,
        }
    }
}

impl Value {
    /// The element at `index` of an array, to change in place.
    pub fn get_index_mut(&mut self, index: usize) -> (r: Option<&mut Value>)
        ensures
            r is Some <==> (*old(self) matches Value::Array(a) && index < a.len()),
            match r {
                Some(x) => *x == old(self)->Array_0@[index as int] && *final(self) is Array && final(self)->Array_0@
                    == old(self)->Array_0@.update(index as int, *final(x)),
                None => *final(self) == *old(self),
            },
    {
        match self {
            Value::Array(a) => if index < a.len() {
                Some(&mut a[index])
            } else {
                None
            },
            _ => None,
        }
    }
}

impl Object {
    /// The value under the first pair with key `key`, to change in place.
    pub fn get_mut(&mut self, key: &str) -> (r: Option<&mut Value>)
        ensures
            match key_position(old(self)@, key@, 0) {
                Some(i) => r matches Some(x) && *x == old(self).entries@[i].1 && final(self).entries@
                    == old(self).entries@.update(i, (old(self).entries@[i].0, *final(x))),
                None => r is None && *final(self) == *old(self),
            },
    {
        proof {
            key_position_facts(self@, key@, 0);
        }
        match self.position(key) {
            Some(i) => Some(&mut self.entries[i].1),
            None => None,
        }
    }
}

impl Value {
    /// The value under `key` of an object, annotated or plain, to change in
    /// place.
    pub fn get_key_mut(&mut self, key: &str) -> (r: Option<&mut Value>)
        ensures
            match *old(self) {
                Value::Object(o) | Value::PlainObject(o) => match key_position(o@, key@, 0) {
                    Some(i) => r matches Some(x) && *x == o.entries@[i].1 && (*final(self) is Object
                        || *final(self) is PlainObject),
                    None => r is None && *final(self) == *old(self),
                },
                _ => r is None && *final(self) == *old(self),
            },
    {
        match self {
            Value::Object(o) => o.get_mut(key),
            Value::PlainObject(o) => o.get_mut(key),
            _ => None,
        }
    }
}

} // verus!
