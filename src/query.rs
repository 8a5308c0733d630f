use vstd::prelude::*;
use crate::catalog::{Action, EpochUnit, Normalizer};
use crate::date::Timestamp;
use crate::number::Number;
use crate::reference::Ref;
use crate::value::{entries_view, inserted, Object, Query, Value, ValueV};

verus! {

/// A query node with one named argument.
pub(crate) fn node1(k: &str, v: Value) -> (r: Value)
    ensures
        r@ == ValueV::Query(seq![(k@, v@)]),
{
    let ghost vv = v@;
    let mut args: Vec<(String, Value)> = Vec::new();
    args.push((k.to_owned(), v));
    assert(entries_view(&args) =~= seq![(k@, vv)]);
    let ghost ev = entries_view(&args);
    let r = Value::Query(Box::new(Query::Call(args)));
    assert(r@ == ValueV::Query(ev));
    r
}

/// A query node with two named arguments, in this order.
pub(crate) fn node2(k1: &str, v1: Value, k2: &str, v2: Value) -> (r: Value)
    ensures
        r@ == ValueV::Query(seq![(k1@, v1@), (k2@, v2@)]),
{
    let ghost w1 = v1@;
    let ghost w2 = v2@;
    let mut args: Vec<(String, Value)> = Vec::new();
    args.push((k1.to_owned(), v1));
    args.push((k2.to_owned(), v2));
    assert(entries_view(&args) =~= seq![(k1@, w1), (k2@, w2)]);
    let ghost ev = entries_view(&args);
    let r = Value::Query(Box::new(Query::Call(args)));
    assert(r@ == ValueV::Query(ev));
    r
}

/// A query node with three named arguments, in this order.
pub(crate) fn node3(k1: &str, v1: Value, k2: &str, v2: Value, k3: &str, v3: Value) -> (r: Value)
    ensures
        r@ == ValueV::Query(seq![(k1@, v1@), (k2@, v2@), (k3@, v3@)]),
{
    let ghost w1 = v1@;
    let ghost w2 = v2@;
    let ghost w3 = v3@;
    let mut args: Vec<(String, Value)> = Vec::new();
    args.push((k1.to_owned(), v1));
    args.push((k2.to_owned(), v2));
    args.push((k3.to_owned(), v3));
    assert(entries_view(&args) =~= seq![(k1@, w1), (k2@, w2), (k3@, w3)]);
    let ghost ev = entries_view(&args);
    let r = Value::Query(Box::new(Query::Call(args)));
    assert(r@ == ValueV::Query(ev));
    r
}

/// The argument `(k, v)` when `v` is set, else nothing.
pub open spec fn optional(k: Seq<char>, v: Option<Value>) -> Seq<(Seq<char>, ValueV)> {
    match v {
        Some(x) => seq![(k, x@)],
        None => Seq::empty(),
    }
}

/// Appends a named argument.
pub(crate) fn push_arg(args: &mut Vec<(String, Value)>, k: &str, v: Value)
    ensures
        entries_view(final(args)) == entries_view(old(args)).push((k@, v@)),
{
    let ghost before = entries_view(args);
    let ghost prev = *args;
    let ghost vv = v@;
    args.push((k.to_owned(), v));
    assert(entries_view(args) =~= before.push((k@, vv))) by {
        assert forall|j: int| 0 <= j < prev.len() implies args@[j] == prev@[j] by {}
    }
}

/// Appends a named argument when it is set.
pub(crate) fn push_optional(args: &mut Vec<(String, Value)>, k: &str, v: Option<Value>)
    ensures
        entries_view(final(args)) == entries_view(old(args)) + optional(k@, v),
{
    let ghost before = entries_view(args);
    let ghost o = v;
    match v {
        Some(x) => {
            push_arg(args, k, x);
            assert(entries_view(args) =~= before + optional(k@, o));
        },
        None => {
            assert(entries_view(args) =~= before + optional(k@, o));
        },
    }
}

/// The query node with the given arguments.
pub(crate) fn call_of(args: Vec<(String, Value)>) -> (r: Value)
    ensures
        r@ == ValueV::Query(entries_view(&args)),
{
    let ghost ev = entries_view(&args);
    let r = Value::Query(Box::new(Query::Call(args)));
    assert(r@ == ValueV::Query(ev));
    r
}

/// Evaluates an expression on the data as it was at a point in time.
pub struct At;

impl At {
    pub fn new(timestamp: Timestamp, expression: Value) -> (r: Value)
        ensures
            r@ == ValueV::Query(seq![
                ("at"@, ValueV::Timestamp(timestamp.spec_secs(), timestamp.spec_nanos())),
                ("expr"@, expression@),
            ]),
    {
        node2("at", Value::from_timestamp(timestamp), "expr", expression)
    }
}

/// Calls a user-defined function with arguments.
pub struct Call;

impl Call {
    pub fn new(function: Ref, arguments: Value) -> (r: Value)
        ensures
            r@ == ValueV::Query(seq![("call"@, ValueV::Ref(function@)), ("arguments"@, arguments@)]),
    {
        node2("call", Value::from_ref(function), "arguments", arguments)
    }
}

/// Evaluates to `if_true` or `if_false` depending on `cond`.
pub struct If;

impl If {
    pub fn cond(cond: Value, if_true: Value, if_false: Value) -> (r: Value)
        ensures
            r@ == ValueV::Query(seq![("if"@, cond@), ("then"@, if_true@), ("else"@, if_false@)]),
    {
        node3("if", cond, "then", if_true, "else", if_false)
    }
}

/// Evaluates expressions in order and returns the last result.
pub struct Do {
    pub queries: Vec<Value>,
}

impl Do {
    /// A sequence that starts with `first`.
    pub fn new(first: Value) -> (r: Do)
        ensures
            r.queries@ == seq![first],
    {
        let mut queries: Vec<Value> = Vec::new();
        queries.push(first);
        Do { queries }
    }

    /// Adds an expression at the end.
    pub fn push(&mut self, q: Value) -> (r: &mut Self)
        ensures
            (*r).queries@ == old(self).queries@.push(q),
            *final(self) == *final(r),
    {
        self.queries.push(q);
        self
    }

    /// The sequence as a query: `{"do": [...]}`.
    pub fn into_value(self) -> (r: Value)
        ensures
            r@ == ValueV::Query(seq![("do"@, Value::Array(self.queries)@)]),
    {
        node1("do", Value::Array(self.queries))
    }
}

/// The pairs of `s` inserted one after another into an empty object.
pub open spec fn bound(s: Seq<(Seq<char>, ValueV)>) -> Seq<(Seq<char>, ValueV)>
    decreases s.len(),
{
    if s.len() == 0 {
        Seq::empty()
    } else {
        inserted(bound(s.drop_last()), s.last().0, s.last().1)
    }
}

/// An object holding the pairs of `args` inserted in order.
pub(crate) fn object_from(args: Vec<(String, Value)>) -> (r: Object)
    ensures
        r@ == bound(entries_view(&args)),
{
    let ghost all = entries_view(&args);
    let ghost orig = args;
    let mut object = Object::new();
    let mut rest = args;
    let n = rest.len();
    let mut i: usize = 0;
    assert(all.take(0) =~= Seq::<(Seq<char>, ValueV)>::empty());
    while i < n
        invariant
            n == rest.len(),
            n == orig.len(),
            all == entries_view(&orig),
            i <= n,
            forall|j: int| i <= j < n ==> #[trigger] rest@[j] == orig@[j],
            object@ == bound(all.take(i as int)),
        decreases n - i,
    {
        let mut taken: (String, Value) = (String::new(), Value::Null);
        rest.set_and_swap(i, &mut taken);
        let (name, value) = taken;
        assert(all[i as int] == (name@, value@));
        assert(all.take(i + 1).drop_last() =~= all.take(i as int));
        object.insert(name.as_str(), value);
        i = i + 1;
    }
    assert(all.take(n as int) =~= all);
    object
}

/// Binds variables for the evaluation of an expression.
pub struct Let;

impl Let {
    /// `{"let": {variable: value, ...}, "in": in_expr}`; the bindings are
    /// ordered by name, and a later binding of a name replaces an earlier one.
    pub fn bindings(bindings: Vec<(String, Value)>, in_expr: Value) -> (r: Value)
        ensures
            r@ == ValueV::Query(seq![
                ("let"@, ValueV::PlainObject(bound(entries_view(&bindings)))),
                ("in"@, in_expr@),
            ]),
    {
        let object = object_from(bindings);
        node2("let", Value::PlainObject(object), "in", in_expr)
    }
}

/// An anonymous function of the parameters `params`.
pub struct Lambda;

impl Lambda {
    pub fn new(params: Value, expr: Value) -> (r: Value)
        ensures
            r@ == ValueV::Query(seq![("lambda"@, params@), ("expr"@, expr@)]),
    {
        node2("lambda", params, "expr", expr)
    }
}

/// Reads an instance, now or at a point in time.
pub struct Get {
    pub get: Value,
    pub timestamp: Option<Value>,
}

impl Get {
    pub fn instance(reference: Ref) -> (r: Get)
        ensures
            r.get@ == ValueV::Ref(reference@),
            r.timestamp is None,
    {
        Get { get: Value::from_ref(reference), timestamp: None }
    }

    /// Reads the instance as it was at `ts`.
    pub fn timestamp(&mut self, ts: Timestamp) -> (r: &mut Self)
        ensures
            (*r).get == old(self).get,
            (*r).timestamp matches Some(t) && t@ == ValueV::Timestamp(ts.spec_secs(), ts.spec_nanos()),
            *final(self) == *final(r),
    {
        self.timestamp = Some(Value::from_timestamp(ts));
        self
    }

    /// `{"get": ..., "ts": ...}`, without `ts` when none is set.
    pub fn into_value(self) -> (r: Value)
        ensures
            r@ == ValueV::Query(seq![("get"@, self.get@)] + optional("ts"@, self.timestamp)),
    {
        let mut args: Vec<(String, Value)> = Vec::new();
        push_arg(&mut args, "get", self.get);
        push_optional(&mut args, "ts", self.timestamp);
        assert(entries_view(&args) =~= seq![("get"@, self.get@)] + optional("ts"@, self.timestamp));
        call_of(args)
    }
}

/// Removes an instance, class, index or database.
pub struct Delete;

impl Delete {
    pub fn new(reference: Ref) -> (r: Value)
        ensures
            r@ == ValueV::Query(seq![("delete"@, ValueV::Ref(reference@))]),
    {
        node1("delete", Value::from_ref(reference))
    }
}

/// The set of all classes.
pub struct Classes;

impl Classes {
    pub fn all() -> (r: Value)
        ensures
            r@ == ValueV::Query(seq![("classes"@, ValueV::Null)]),
    {
        node1("classes", Value::Null)
    }

    /// The classes of the given database.
    pub fn from_database(database: Ref) -> (r: Value)
        ensures
            r@ == ValueV::Query(seq![("classes"@, ValueV::Ref(database@))]),
    {
        node1("classes", Value::from_ref(database))
    }
}

/// Combines the elements of `base` and then of `elems` into one array.
pub struct Append;

impl Append {
    pub fn new(base: Value, elems: Value) -> (r: Value)
        ensures
            r@ == ValueV::Query(seq![("append"@, base@), ("collection"@, elems@)]),
    {
        node2("append", base, "collection", elems)
    }
}

/// The elements of `collection` after the first `drop`.
pub struct Drop;

impl Drop {
    pub fn new(drop: Value, collection: Value) -> (r: Value)
        ensures
            r@ == ValueV::Query(seq![("drop"@, drop@), ("collection"@, collection@)]),
    {
        node2("drop", drop, "collection", collection)
    }
}

/// The elements of `collection` for which `filter`, a lambda, holds.
pub struct Filter;

impl Filter {
    pub fn new(filter: Value, collection: Value) -> (r: Value)
        ensures
            r@ == ValueV::Query(seq![("filter"@, filter@), ("collection"@, collection@)]),
    {
        node2("filter", filter, "collection", collection)
    }
}

/// Applies `lambda` to each element of `collection` for its effects.
pub struct Foreach;

impl Foreach {
    pub fn new(collection: Value, lambda: Value) -> (r: Value)
        ensures
            r@ == ValueV::Query(seq![("collection"@, collection@), ("foreach"@, lambda@)]),
    {
        node2("collection", collection, "foreach", lambda)
    }
}

/// Applies `lambda` to each element of `collection`.
pub struct MapOver;

impl MapOver {
    pub fn new(collection: Value, lambda: Value) -> (r: Value)
        ensures
            r@ == ValueV::Query(seq![("collection"@, collection@), ("map"@, lambda@)]),
    {
        node2("collection", collection, "map", lambda)
    }
}

/// Combines the elements of `base` after those of `elems`.
pub struct Prepend;

impl Prepend {
    pub fn new(base: Value, elems: Value) -> (r: Value)
        ensures
            r@ == ValueV::Query(seq![("prepend"@, base@), ("collection"@, elems@)]),
    {
        node2("prepend", base, "collection", elems)
    }
}

/// The first `take` elements of `collection`.
pub struct Take;

impl Take {
    pub fn new(take: Value, collection: Value) -> (r: Value)
        ensures
            r@ == ValueV::Query(seq![("take"@, take@), ("collection"@, collection@)]),
    {
        node2("take", take, "collection", collection)
    }
}

/// Whether `collection` has no elements.
pub struct IsEmpty;

impl IsEmpty {
    pub fn new(collection: Value) -> (r: Value)
        ensures
            r@ == ValueV::Query(seq![("is_empty"@, collection@)]),
    {
        node1("is_empty", collection)
    }
}

/// Whether `collection` has elements.
pub struct IsNonEmpty;

impl IsNonEmpty {
    pub fn new(collection: Value) -> (r: Value)
        ensures
            r@ == ValueV::Query(seq![("is_nonempty"@, collection@)]),
    {
        node1("is_nonempty", collection)
    }
}

/// Whether each value is less than the next.
pub struct Lt;

impl Lt {
    pub fn new(exprs: Vec<Value>) -> (r: Value)
        ensures
            r@ == ValueV::Query(seq![("lt"@, Value::Array(exprs)@)]),
    {
        node1("lt", Value::Array(exprs))
    }
}

/// Whether each value is at most the next.
pub struct Lte;

impl Lte {
    pub fn new(exprs: Vec<Value>) -> (r: Value)
        ensures
            r@ == ValueV::Query(seq![("lte"@, Value::Array(exprs)@)]),
    {
        node1("lte", Value::Array(exprs))
    }
}

/// Whether each value is greater than the next.
pub struct Gt;

impl Gt {
    pub fn new(exprs: Vec<Value>) -> (r: Value)
        ensures
            r@ == ValueV::Query(seq![("gt"@, Value::Array(exprs)@)]),
    {
        node1("gt", Value::Array(exprs))
    }
}

/// Whether each value is at least the next.
pub struct Gte;

impl Gte {
    pub fn new(exprs: Vec<Value>) -> (r: Value)
        ensures
            r@ == ValueV::Query(seq![("gte"@, Value::Array(exprs)@)]),
    {
        node1("gte", Value::Array(exprs))
    }
}

/// Whether all the values are equal.
pub struct Equals;

impl Equals {
    pub fn new(exprs: Vec<Value>) -> (r: Value)
        ensures
            r@ == ValueV::Query(seq![("equals"@, Value::Array(exprs)@)]),
    {
        node1("equals", Value::Array(exprs))
    }
}

/// Whether all the values are true.
pub struct And;

impl And {
    pub fn new(exprs: Vec<Value>) -> (r: Value)
        ensures
            r@ == ValueV::Query(seq![("and"@, Value::Array(exprs)@)]),
    {
        node1("and", Value::Array(exprs))
    }
}

/// Whether any of the values is true.
pub struct Or;

impl Or {
    pub fn new(exprs: Vec<Value>) -> (r: Value)
        ensures
            r@ == ValueV::Query(seq![("or"@, Value::Array(exprs)@)]),
    {
        node1("or", Value::Array(exprs))
    }
}

/// The negation of a boolean.
pub struct Not;

impl Not {
    pub fn new(expr: Value) -> (r: Value)
        ensures
            r@ == ValueV::Query(seq![("not"@, expr@)]),
    {
        node1("not", expr)
    }
}

/// The absolute value of a number.
pub struct Abs;

impl Abs {
    pub fn new(expr: Value) -> (r: Value)
        ensures
            r@ == ValueV::Query(seq![("abs"@, expr@)]),
    {
        node1("abs", expr)
    }
}

/// The arc cosine of a number.
pub struct Acos;

impl Acos {
    pub fn new(expr: Value) -> (r: Value)
        ensures
            r@ == ValueV::Query(seq![("acos"@, expr@)]),
    {
        node1("acos", expr)
    }
}

/// The sum of an array of numbers.
pub struct Add;

impl Add {
    pub fn new(expr: Value) -> (r: Value)
        ensures
            r@ == ValueV::Query(seq![("add"@, expr@)]),
    {
        node1("add", expr)
    }
}

/// The arc sine of a number.
pub struct Asin;

impl Asin {
    pub fn new(expr: Value) -> (r: Value)
        ensures
            r@ == ValueV::Query(seq![("asin"@, expr@)]),
    {
        node1("asin", expr)
    }
}

/// The arc tangent of a number.
pub struct Atan;

impl Atan {
    pub fn new(expr: Value) -> (r: Value)
        ensures
            r@ == ValueV::Query(seq![("atan"@, expr@)]),
    {
        node1("atan", expr)
    }
}

/// The bitwise and of an array of integers.
pub struct BitAnd;

impl BitAnd {
    pub fn new(expr: Value) -> (r: Value)
        ensures
            r@ == ValueV::Query(seq![("bitand"@, expr@)]),
    {
        node1("bitand", expr)
    }
}

/// The bitwise complement of an integer.
pub struct BitNot;

impl BitNot {
    pub fn new(expr: Value) -> (r: Value)
        ensures
            r@ == ValueV::Query(seq![("bitnot"@, expr@)]),
    {
        node1("bitnot", expr)
    }
}

/// The bitwise or of an array of integers.
pub struct BitOr;

impl BitOr {
    pub fn new(expr: Value) -> (r: Value)
        ensures
            r@ == ValueV::Query(seq![("bitor"@, expr@)]),
    {
        node1("bitor", expr)
    }
}

/// The bitwise exclusive or of an array of integers.
pub struct BitXor;

impl BitXor {
    pub fn new(expr: Value) -> (r: Value)
        ensures
            r@ == ValueV::Query(seq![("bitxor"@, expr@)]),
    {
        node1("bitxor", expr)
    }
}

/// The smallest integer not below a number.
pub struct Ceil;

impl Ceil {
    pub fn new(expr: Value) -> (r: Value)
        ensures
            r@ == ValueV::Query(seq![("ceil"@, expr@)]),
    {
        node1("ceil", expr)
    }
}

/// The cosine of a number.
pub struct Cos;

impl Cos {
    pub fn new(expr: Value) -> (r: Value)
        ensures
            r@ == ValueV::Query(seq![("cos"@, expr@)]),
    {
        node1("cos", expr)
    }
}

/// The hyperbolic cosine of a number.
pub struct Cosh;

impl Cosh {
    pub fn new(expr: Value) -> (r: Value)
        ensures
            r@ == ValueV::Query(seq![("cosh"@, expr@)]),
    {
        node1("cosh", expr)
    }
}

/// A number of radians in degrees.
pub struct Degrees;

impl Degrees {
    pub fn new(expr: Value) -> (r: Value)
        ensures
            r@ == ValueV::Query(seq![("degrees"@, expr@)]),
    {
        node1("degrees", expr)
    }
}

/// The quotient of an array of numbers, left to right.
pub struct Divide;

impl Divide {
    pub fn new(expr: Value) -> (r: Value)
        ensures
            r@ == ValueV::Query(seq![("divide"@, expr@)]),
    {
        node1("divide", expr)
    }
}

/// Euler's number raised to a power.
pub struct Exp;

impl Exp {
    pub fn new(expr: Value) -> (r: Value)
        ensures
            r@ == ValueV::Query(seq![("exp"@, expr@)]),
    {
        node1("exp", expr)
    }
}

/// The largest integer not above a number.
pub struct Floor;

impl Floor {
    pub fn new(expr: Value) -> (r: Value)
        ensures
            r@ == ValueV::Query(seq![("floor"@, expr@)]),
    {
        node1("floor", expr)
    }
}

/// The natural logarithm of a number.
pub struct Ln;

impl Ln {
    pub fn new(expr: Value) -> (r: Value)
        ensures
            r@ == ValueV::Query(seq![("ln"@, expr@)]),
    {
        node1("ln", expr)
    }
}

/// The base-10 logarithm of a number.
pub struct Log;

impl Log {
    pub fn new(expr: Value) -> (r: Value)
        ensures
            r@ == ValueV::Query(seq![("log"@, expr@)]),
    {
        node1("log", expr)
    }
}

/// The largest of an array of numbers.
pub struct Max;

impl Max {
    pub fn new(expr: Value) -> (r: Value)
        ensures
            r@ == ValueV::Query(seq![("max"@, expr@)]),
    {
        node1("max", expr)
    }
}

/// The smallest of an array of numbers.
pub struct Min;

impl Min {
    pub fn new(expr: Value) -> (r: Value)
        ensures
            r@ == ValueV::Query(seq![("min"@, expr@)]),
    {
        node1("min", expr)
    }
}

/// The remainder of an array of numbers, left to right.
pub struct Modulo;

impl Modulo {
    pub fn new(expr: Value) -> (r: Value)
        ensures
            r@ == ValueV::Query(seq![("modulo"@, expr@)]),
    {
        node1("modulo", expr)
    }
}

/// The product of an array of numbers.
pub struct Multiply;

impl Multiply {
    pub fn new(expr: Value) -> (r: Value)
        ensures
            r@ == ValueV::Query(seq![("multiply"@, expr@)]),
    {
        node1("multiply", expr)
    }
}

/// A number of degrees in radians.
pub struct Radians;

impl Radians {
    pub fn new(expr: Value) -> (r: Value)
        ensures
            r@ == ValueV::Query(seq![("radians"@, expr@)]),
    {
        node1("radians", expr)
    }
}

/// The sign of a number.
pub struct Sign;

impl Sign {
    pub fn new(expr: Value) -> (r: Value)
        ensures
            r@ == ValueV::Query(seq![("sign"@, expr@)]),
    {
        node1("sign", expr)
    }
}

/// The sine of a number.
pub struct Sin;

impl Sin {
    pub fn new(expr: Value) -> (r: Value)
        ensures
            r@ == ValueV::Query(seq![("sin"@, expr@)]),
    {
        node1("sin", expr)
    }
}

/// The hyperbolic sine of a number.
pub struct Sinh;

impl Sinh {
    pub fn new(expr: Value) -> (r: Value)
        ensures
            r@ == ValueV::Query(seq![("sinh"@, expr@)]),
    {
        node1("sinh", expr)
    }
}

/// The square root of a number.
pub struct Sqrt;

impl Sqrt {
    pub fn new(expr: Value) -> (r: Value)
        ensures
            r@ == ValueV::Query(seq![("sqrt"@, expr@)]),
    {
        node1("sqrt", expr)
    }
}

/// The difference of an array of numbers, left to right.
pub struct Subtract;

impl Subtract {
    pub fn new(expr: Value) -> (r: Value)
        ensures
            r@ == ValueV::Query(seq![("subtract"@, expr@)]),
    {
        node1("subtract", expr)
    }
}

/// The tangent of a number.
pub struct Tan;

impl Tan {
    pub fn new(expr: Value) -> (r: Value)
        ensures
            r@ == ValueV::Query(seq![("tan"@, expr@)]),
    {
        node1("tan", expr)
    }
}

/// The hyperbolic tangent of a number.
pub struct Tanh;

impl Tanh {
    pub fn new(expr: Value) -> (r: Value)
        ensures
            r@ == ValueV::Query(seq![("tanh"@, expr@)]),
    {
        node1("tanh", expr)
    }
}

/// A value converted to a date.
pub struct ToDate;

impl ToDate {
    pub fn new(expr: Value) -> (r: Value)
        ensures
            r@ == ValueV::Query(seq![("to_date"@, expr@)]),
    {
        node1("to_date", expr)
    }
}

/// A value converted to a number.
pub struct ToNumber;

impl ToNumber {
    pub fn new(expr: Value) -> (r: Value)
        ensures
            r@ == ValueV::Query(seq![("to_number"@, expr@)]),
    {
        node1("to_number", expr)
    }
}

/// A value converted to a string.
pub struct ToString;

impl ToString {
    pub fn new(expr: Value) -> (r: Value)
        ensures
            r@ == ValueV::Query(seq![("to_string"@, expr@)]),
    {
        node1("to_string", expr)
    }
}

/// A value converted to a timestamp.
pub struct ToTime;

impl ToTime {
    pub fn new(expr: Value) -> (r: Value)
        ensures
            r@ == ValueV::Query(seq![("to_time"@, expr@)]),
    {
        node1("to_time", expr)
    }
}

/// Ends the transaction with an error message.
pub struct Abort;

impl Abort {
    pub fn new(expr: Value) -> (r: Value)
        ensures
            r@ == ValueV::Query(seq![("abort"@, expr@)]),
    {
        node1("abort", expr)
    }
}

/// Ends the current session; with `true`, every session of the identity.
pub struct Logout;

impl Logout {
    pub fn new(expr: Value) -> (r: Value)
        ensures
            r@ == ValueV::Query(seq![("logout"@, expr@)]),
    {
        node1("logout", expr)
    }
}

/// A fresh unique id.
pub struct NewId;

impl NewId {
    pub fn new() -> (r: Value)
        ensures
            r@ == ValueV::Query(seq![("new_id"@, ValueV::Null)]),
    {
        node1("new_id", Value::Null)
    }
}

/// Whether the current key has an identity.
pub struct HasIdentity;

impl HasIdentity {
    pub fn new() -> (r: Value)
        ensures
            r@ == ValueV::Query(seq![("has_identity"@, ValueV::Null)]),
    {
        node1("has_identity", Value::Null)
    }
}

/// The identity of the current key.
pub struct Identity;

impl Identity {
    pub fn new() -> (r: Value)
        ensures
            r@ == ValueV::Query(seq![("identity"@, ValueV::Null)]),
    {
        node1("identity", Value::Null)
    }
}

/// The class with a name.
pub struct Class;

impl Class {
    pub fn find(name: &str) -> (r: Value)
        ensures
            r@ == ValueV::Query(seq![("class"@, ValueV::String(name@))]),
    {
        node1("class", Value::from_str(name))
    }
}

/// The database with a name.
pub struct Database;

impl Database {
    pub fn find(name: &str) -> (r: Value)
        ensures
            r@ == ValueV::Query(seq![("database"@, ValueV::String(name@))]),
    {
        node1("database", Value::from_str(name))
    }
}

/// The function with a name.
pub struct Function;

impl Function {
    pub fn find(name: &str) -> (r: Value)
        ensures
            r@ == ValueV::Query(seq![("function"@, ValueV::String(name@))]),
    {
        node1("function", Value::from_str(name))
    }
}

/// The index with a name.
pub struct Index;

impl Index {
    pub fn find(name: &str) -> (r: Value)
        ensures
            r@ == ValueV::Query(seq![("index"@, ValueV::String(name@))]),
    {
        node1("index", Value::from_str(name))
    }
}

/// The set of the databases.
pub struct Databases;

impl Databases {
    /// Those of the current database.
    pub fn all() -> (r: Value)
        ensures
            r@ == ValueV::Query(seq![("databases"@, ValueV::Null)]),
    {
        node1("databases", Value::Null)
    }

    /// Those of the given database.
    pub fn from_database(database: Ref) -> (r: Value)
        ensures
            r@ == ValueV::Query(seq![("databases"@, ValueV::Ref(database@))]),
    {
        node1("databases", Value::from_ref(database))
    }
}

/// The set of the functions.
pub struct Functions;

impl Functions {
    /// Those of the current database.
    pub fn all() -> (r: Value)
        ensures
            r@ == ValueV::Query(seq![("functions"@, ValueV::Null)]),
    {
        node1("functions", Value::Null)
    }

    /// Those of the given database.
    pub fn from_database(database: Ref) -> (r: Value)
        ensures
            r@ == ValueV::Query(seq![("functions"@, ValueV::Ref(database@))]),
    {
        node1("functions", Value::from_ref(database))
    }
}

/// The set of the indexes.
pub struct Indexes;

impl Indexes {
    /// Those of the current database.
    pub fn all() -> (r: Value)
        ensures
            r@ == ValueV::Query(seq![("indexes"@, ValueV::Null)]),
    {
        node1("indexes", Value::Null)
    }

    /// Those of the given database.
    pub fn from_database(database: Ref) -> (r: Value)
        ensures
            r@ == ValueV::Query(seq![("indexes"@, ValueV::Ref(database@))]),
    {
        node1("indexes", Value::from_ref(database))
    }
}

/// A number rounded, to two decimal places unless a precision is set.
pub struct Round {
    pub round: Value,
    pub precision: Option<Value>,
}

impl Round {
    pub fn new(round: Value) -> (r: Round)
        ensures
            r.round == round,
            r.precision is None,
    {
        Round { round, precision: None }
    }

    /// The number of decimal places kept; a negative one counts to the left
    /// of the decimal point.
    pub fn precision(&mut self, precision: Value) -> (r: &mut Self)
        ensures
            (*r).round == old(self).round,
            (*r).precision == Some(precision),
            *final(self) == *final(r),
    {
        self.precision = Some(precision);
        self
    }

    /// The query: `{"round": ..., "precision": ...}`, without a precision
    /// when none is set.
    pub fn into_value(self) -> (r: Value)
        ensures
            r@ == match self.precision {
                Some(p) => ValueV::Query(seq![("round"@, self.round@), ("precision"@, p@)]),
                None => ValueV::Query(seq![("round"@, self.round@)]),
            },
    {
        match self.precision {
            Some(p) => node2("round", self.round, "precision", p),
            None => node1("round", self.round),
        }
    }
}

/// A number truncated, to two decimal places unless a precision is set.
pub struct Trunc {
    pub trunc: Value,
    pub precision: Option<Value>,
}

impl Trunc {
    pub fn new(trunc: Value) -> (r: Trunc)
        ensures
            r.trunc == trunc,
            r.precision is None,
    {
        Trunc { trunc, precision: None }
    }

    /// The number of decimal places kept; a negative one counts to the left
    /// of the decimal point.
    pub fn precision(&mut self, precision: Value) -> (r: &mut Self)
        ensures
            (*r).trunc == old(self).trunc,
            (*r).precision == Some(precision),
            *final(self) == *final(r),
    {
        self.precision = Some(precision);
        self
    }

    /// The query: `{"trunc": ..., "precision": ...}`, without a precision
    /// when none is set.
    pub fn into_value(self) -> (r: Value)
        ensures
            r@ == match self.precision {
                Some(p) => ValueV::Query(seq![("trunc"@, self.trunc@), ("precision"@, p@)]),
                None => ValueV::Query(seq![("trunc"@, self.trunc@)]),
            },
    {
        match self.precision {
            Some(p) => node2("trunc", self.trunc, "precision", p),
            None => node1("trunc", self.trunc),
        }
    }
}

/// The length of the hypotenuse of a right triangle.
pub struct Hypot;

impl Hypot {
    /// With legs `a` and `b`.
    pub fn new(a: Value, b: Value) -> (r: Value)
        ensures
            r@ == ValueV::Query(seq![("hypot"@, a@), ("b"@, b@)]),
    {
        node2("hypot", a, "b", b)
    }

    /// With two legs of length `a`.
    pub fn isosceles(a: Value) -> (r: Value)
        ensures
            r@ == ValueV::Query(seq![("hypot"@, a@)]),
    {
        node1("hypot", a)
    }
}

/// A number raised to a power.
pub struct Pow;

impl Pow {
    pub fn new(pow: Value, exp: Value) -> (r: Value)
        ensures
            r@ == ValueV::Query(seq![("pow"@, pow@), ("exp"@, exp@)]),
    {
        node2("pow", pow, "exp", exp)
    }
}

/// Checks a password against an identity.
pub struct Identify;

impl Identify {
    pub fn new(identify: Ref, password: Value) -> (r: Value)
        ensures
            r@ == ValueV::Query(seq![("identify"@, ValueV::Ref(identify@)), ("password"@, password@)]),
    {
        node2("identify", Value::from_ref(identify), "password", password)
    }
}

/// Creates a token for an identity that gives the right password.
pub struct Login;

impl Login {
    pub fn new(login: Ref, password: Value) -> (r: Value)
        ensures
            r@ == ValueV::Query(seq![
                ("login"@, ValueV::Ref(login@)),
                ("params"@, ValueV::Object(seq![("password"@, password@)])),
            ]),
    {
        let ghost pw = password@;
        let mut params = Object::new();
        params.insert("password", password);
        assert(params@ =~= seq![("password"@, pw)]);
        node2("login", Value::from_ref(login), "params", Value::Object(params))
    }
}

/// A string in lower case after Unicode case folding, with an optional
/// normalization.
pub struct CaseFold {
    pub casefold: Value,
    pub normalizer: Option<Normalizer>,
}

impl CaseFold {
    pub fn new(string: Value) -> (r: CaseFold)
        ensures
            r.casefold == string,
            r.normalizer is None,
    {
        CaseFold { casefold: string, normalizer: None }
    }

    pub fn normalizer(&mut self, normalizer: Normalizer) -> (r: &mut Self)
        ensures
            (*r).casefold == old(self).casefold,
            (*r).normalizer == Some(normalizer),
            *final(self) == *final(r),
    {
        self.normalizer = Some(normalizer);
        self
    }

    /// `{"casefold": ..., "normalizer": ...}`, without `normalizer` when
    /// none is set.
    pub fn into_value(self) -> (r: Value)
        ensures
            r@ == ValueV::Query(seq![("casefold"@, self.casefold@)] + match self.normalizer {
                Some(n) => seq![("normalizer"@, ValueV::String(n.wire_name()))],
                None => Seq::empty(),
            }),
    {
        let mut args: Vec<(String, Value)> = Vec::new();
        push_arg(&mut args, "casefold", self.casefold);
        let ghost first = entries_view(&args);
        match self.normalizer {
            Some(n) => {
                push_arg(&mut args, "normalizer", n.to_value());
            },
            None => {},
        }
        assert(entries_view(&args) =~= seq![("casefold"@, self.casefold@)] + match self.normalizer {
            Some(n) => seq![("normalizer"@, ValueV::String(n.wire_name()))],
            None => Seq::empty(),
        });
        call_of(args)
    }
}

/// Joins an array of strings with a separator.
pub struct Concat;

impl Concat {
    pub fn new(concat: Value, separator: Value) -> (r: Value)
        ensures
            r@ == ValueV::Query(seq![("concat"@, concat@), ("separator"@, separator@)]),
    {
        node2("concat", concat, "separator", separator)
    }
}

/// The position of a substring, searched from `start` (`null` when unset).
pub struct FindStr {
    pub findstr: Value,
    pub find: Value,
    pub start: Option<Value>,
}

impl FindStr {
    pub fn new(findstr: Value, find: Value) -> (r: FindStr)
        ensures
            r.findstr == findstr,
            r.find == find,
            r.start is None,
    {
        FindStr { findstr, find, start: None }
    }

    pub fn start(&mut self, start: Value) -> (r: &mut Self)
        ensures
            (*r).findstr == old(self).findstr,
            (*r).find == old(self).find,
            (*r).start == Some(start),
            *final(self) == *final(r),
    {
        self.start = Some(start);
        self
    }

    /// `{"findstr": ..., "find": ..., "start": ...}`; an unset start is null.
    pub fn into_value(self) -> (r: Value)
        ensures
            r@ == ValueV::Query(seq![
                ("findstr"@, self.findstr@),
                ("find"@, self.find@),
                ("start"@, or_null(self.start)),
            ]),
    {
        let start = match self.start {
            Some(v) => v,
            None => Value::Null,
        };
        node3("findstr", self.findstr, "find", self.find, "start", start)
    }
}

/// The model of an optional argument that is written as null when unset.
pub open spec fn or_null(v: Option<Value>) -> ValueV {
    match v {
        Some(x) => x@,
        None => ValueV::Null,
    }
}

/// The matches of a regular expression, from `start`, at most
/// `num_results` of them (each `null` when unset).
pub struct FindStrRegex {
    pub findstrregex: Value,
    pub pattern: Value,
    pub start: Option<Value>,
    pub num_results: Option<Value>,
}

impl FindStrRegex {
    pub fn new(findstrregex: Value, pattern: Value) -> (r: FindStrRegex)
        ensures
            r.findstrregex == findstrregex,
            r.pattern == pattern,
            r.start is None,
            r.num_results is None,
    {
        FindStrRegex { findstrregex, pattern, start: None, num_results: None }
    }

    pub fn start(&mut self, start: Value) -> (r: &mut Self)
        ensures
            (*r).findstrregex == old(self).findstrregex,
            (*r).pattern == old(self).pattern,
            (*r).num_results == old(self).num_results,
            (*r).start == Some(start),
            *final(self) == *final(r),
    {
        self.start = Some(start);
        self
    }

    pub fn num_results(&mut self, num_results: Value) -> (r: &mut Self)
        ensures
            (*r).findstrregex == old(self).findstrregex,
            (*r).pattern == old(self).pattern,
            (*r).start == old(self).start,
            (*r).num_results == Some(num_results),
            *final(self) == *final(r),
    {
        self.num_results = Some(num_results);
        self
    }

    /// `{"findstrregex", "pattern", "start", "num_results"}`; an unset
    /// argument is null.
    pub fn into_value(self) -> (r: Value)
        ensures
            r@ == ValueV::Query(seq![
                ("findstrregex"@, self.findstrregex@),
                ("pattern"@, self.pattern@),
                ("start"@, or_null(self.start)),
                ("num_results"@, or_null(self.num_results)),
            ]),
    {
        let start = match self.start {
            Some(v) => v,
            None => Value::Null,
        };
        let num_results = match self.num_results {
            Some(v) => v,
            None => Value::Null,
        };
        let ghost expected = seq![
            ("findstrregex"@, self.findstrregex@),
            ("pattern"@, self.pattern@),
            ("start"@, or_null(self.start)),
            ("num_results"@, or_null(self.num_results)),
        ];
        let mut args: Vec<(String, Value)> = Vec::new();
        push_arg(&mut args, "findstrregex", self.findstrregex);
        push_arg(&mut args, "pattern", self.pattern);
        push_arg(&mut args, "start", start);
        push_arg(&mut args, "num_results", num_results);
        assert(entries_view(&args) =~= expected);
        call_of(args)
    }
}

/// A string repeated a number of times.
pub struct Repeat;

impl Repeat {
    pub fn new(string: Value, number: Value) -> (r: Value)
        ensures
            r@ == ValueV::Query(seq![("repeat"@, string@), ("number"@, number@)]),
    {
        node2("repeat", string, "number", number)
    }
}

/// A string with each occurrence of `find` replaced.
pub struct ReplaceStr;

impl ReplaceStr {
    pub fn new(string: Value, find: Value, replace: Value) -> (r: Value)
        ensures
            r@ == ValueV::Query(seq![("replacestr"@, string@), ("find"@, find@), ("replace"@, replace@)]),
    {
        node3("replacestr", string, "find", find, "replace", replace)
    }
}

/// A string with the matches of a regular expression replaced: the first
/// only, or all.
pub struct ReplaceStrRegex;

impl ReplaceStrRegex {
    pub fn new(string: Value, pattern: Value, replace: Value, first: bool) -> (r: Value)
        ensures
            r@ == ValueV::Query(seq![
                ("replacestrregex"@, string@),
                ("pattern"@, pattern@),
                ("replace"@, replace@),
                ("first"@, ValueV::Boolean(first)),
            ]),
    {
        let ghost expected = seq![
            ("replacestrregex"@, string@),
            ("pattern"@, pattern@),
            ("replace"@, replace@),
            ("first"@, ValueV::Boolean(first)),
        ];
        let mut args: Vec<(String, Value)> = Vec::new();
        push_arg(&mut args, "replacestrregex", string);
        push_arg(&mut args, "pattern", pattern);
        push_arg(&mut args, "replace", replace);
        push_arg(&mut args, "first", Value::Boolean(first));
        assert(entries_view(&args) =~= expected);
        call_of(args)
    }
}

/// A part of a string from `start`, of `length` characters when set.
pub struct SubString {
    pub substring: Value,
    pub start: Value,
    pub length: Option<Value>,
}

impl SubString {
    pub fn new(substring: Value, start: Value) -> (r: SubString)
        ensures
            r.substring == substring,
            r.start == start,
            r.length is None,
    {
        SubString { substring, start, length: None }
    }

    pub fn length(&mut self, length: Value) -> (r: &mut Self)
        ensures
            (*r).substring == old(self).substring,
            (*r).start == old(self).start,
            (*r).length == Some(length),
            *final(self) == *final(r),
    {
        self.length = Some(length);
        self
    }

    /// `{"substring", "start", "length"}`, without `length` when unset.
    pub fn into_value(self) -> (r: Value)
        ensures
            r@ == ValueV::Query(seq![("substring"@, self.substring@), ("start"@, self.start@)]
                + optional("length"@, self.length)),
    {
        let mut args: Vec<(String, Value)> = Vec::new();
        push_arg(&mut args, "substring", self.substring);
        push_arg(&mut args, "start", self.start);
        push_optional(&mut args, "length", self.length);
        assert(entries_view(&args) =~= seq![("substring"@, self.substring@), ("start"@, self.start@)]
            + optional("length"@, self.length));
        call_of(args)
    }
}

/// The set of the instances that an index holds for the given terms.
pub struct Match;

impl Match {
    pub fn new(index: Value, terms: Value) -> (r: Value)
        ensures
            r@ == ValueV::Query(seq![("match"@, index@), ("terms"@, terms@)]),
    {
        node2("match", index, "terms", terms)
    }
}

/// The set of the distinct elements of a set.
pub struct Distinct;

impl Distinct {
    pub fn new(set: Value) -> (r: Value)
        ensures
            r@ == ValueV::Query(seq![("distinct"@, set@)]),
    {
        node1("distinct", set)
    }
}

/// The set that `detail` yields for each element of `source`.
pub struct Join;

impl Join {
    pub fn new(source: Value, detail: Value) -> (r: Value)
        ensures
            r@ == ValueV::Query(seq![("join"@, source@), ("with"@, detail@)]),
    {
        node2("join", source, "with", detail)
    }
}

/// The secret's key.
pub struct KeyFromSecret;

impl KeyFromSecret {
    pub fn new(secret: Value) -> (r: Value)
        ensures
            r@ == ValueV::Query(seq![("key_from_secret"@, secret@)]),
    {
        node1("key_from_secret", secret)
    }
}

/// A date read from a string.
pub struct Date;

impl Date {
    pub fn new(dateish: Value) -> (r: Value)
        ensures
            r@ == ValueV::Query(seq![("date"@, dateish@)]),
    {
        node1("date", dateish)
    }
}

/// A timestamp read from a string.
pub struct Time;

impl Time {
    pub fn new(timeish: Value) -> (r: Value)
        ensures
            r@ == ValueV::Query(seq![("time"@, timeish@)]),
    {
        node1("time", timeish)
    }
}

/// The timestamp a number of units after the epoch.
pub struct Epoch;

impl Epoch {
    pub fn new(num: Value, unit: EpochUnit) -> (r: Value)
        ensures
            r@ == ValueV::Query(seq![("epoch"@, num@), ("unit"@, ValueV::String(unit.wire_name()))]),
    {
        node2("epoch", num, "unit", unit.to_value())
    }
}

/// Removes an event from an instance's history.
pub struct Remove;

impl Remove {
    pub fn new(reference: Ref, ts: Timestamp, action: Action) -> (r: Value)
        ensures
            r@ == ValueV::Query(seq![
                ("remove"@, ValueV::Ref(reference@)),
                ("ts"@, ValueV::Timestamp(ts.spec_secs(), ts.spec_nanos())),
                ("action"@, ValueV::String(action.wire_name())),
            ]),
    {
        node3("remove", Value::from_ref(reference), "ts", Value::from_timestamp(ts), "action", action.to_value())
    }
}

/// Replaces the data of an instance.
pub struct Replace;

impl Replace {
    pub fn new(reference: Ref, data: Object) -> (r: Value)
        ensures
            r@ == ValueV::Query(seq![("replace"@, ValueV::Ref(reference@)), ("params"@, ValueV::Object(data@))]),
    {
        node2("replace", Value::from_ref(reference), "params", Value::from_object(data))
    }
}

/// A string without its leading white space.
pub struct LTrim;

impl LTrim {
    pub fn new(expr: Value) -> (r: Value)
        ensures
            r@ == ValueV::Query(seq![("ltrim"@, expr@)]),
    {
        node1("ltrim", expr)
    }
}

/// A string without its trailing white space.
pub struct RTrim;

impl RTrim {
    pub fn new(expr: Value) -> (r: Value)
        ensures
            r@ == ValueV::Query(seq![("rtrim"@, expr@)]),
    {
        node1("rtrim", expr)
    }
}

/// A string without leading and trailing white space.
pub struct Trim;

impl Trim {
    pub fn new(expr: Value) -> (r: Value)
        ensures
            r@ == ValueV::Query(seq![("trim"@, expr@)]),
    {
        node1("trim", expr)
    }
}

/// The number of characters of a string.
pub struct Length;

impl Length {
    pub fn new(expr: Value) -> (r: Value)
        ensures
            r@ == ValueV::Query(seq![("length"@, expr@)]),
    {
        node1("length", expr)
    }
}

/// A string in lower case.
pub struct LowerCase;

impl LowerCase {
    pub fn new(expr: Value) -> (r: Value)
        ensures
            r@ == ValueV::Query(seq![("lowercase"@, expr@)]),
    {
        node1("lowercase", expr)
    }
}

/// A string in upper case.
pub struct UpperCase;

impl UpperCase {
    pub fn new(expr: Value) -> (r: Value)
        ensures
            r@ == ValueV::Query(seq![("uppercase"@, expr@)]),
    {
        node1("uppercase", expr)
    }
}

/// A string with each word capitalized.
pub struct TitleCase;

impl TitleCase {
    pub fn new(expr: Value) -> (r: Value)
        ensures
            r@ == ValueV::Query(seq![("titlecase"@, expr@)]),
    {
        node1("titlecase", expr)
    }
}

/// A string of a number of spaces.
pub struct Space;

impl Space {
    pub fn new(expr: Value) -> (r: Value)
        ensures
            r@ == ValueV::Query(seq![("space"@, expr@)]),
    {
        node1("space", expr)
    }
}

/// The elements of the first set that are in none of the others.
pub struct Difference {
    pub sets: Vec<Value>,
}

impl Difference {
    pub fn new(left: Value, right: Value) -> (r: Difference)
        ensures
            r.sets@ == seq![left, right],
    {
        let mut sets: Vec<Value> = Vec::new();
        sets.push(left);
        sets.push(right);
        Difference { sets }
    }

    /// Adds a set.
    pub fn push(&mut self, e: Value) -> (r: &mut Self)
        ensures
            (*r).sets@ == old(self).sets@.push(e),
            *final(self) == *final(r),
    {
        self.sets.push(e);
        self
    }

    /// `{"difference": [...]}`.
    pub fn into_value(self) -> (r: Value)
        ensures
            r@ == ValueV::Query(seq![("difference"@, Value::Array(self.sets)@)]),
    {
        node1("difference", Value::Array(self.sets))
    }
}

/// The elements that are in every one of the sets.
pub struct Intersection {
    pub sets: Vec<Value>,
}

impl Intersection {
    pub fn new(left: Value, right: Value) -> (r: Intersection)
        ensures
            r.sets@ == seq![left, right],
    {
        let mut sets: Vec<Value> = Vec::new();
        sets.push(left);
        sets.push(right);
        Intersection { sets }
    }

    /// Adds a set.
    pub fn push(&mut self, e: Value) -> (r: &mut Self)
        ensures
            (*r).sets@ == old(self).sets@.push(e),
            *final(self) == *final(r),
    {
        self.sets.push(e);
        self
    }

    /// `{"intersection": [...]}`.
    pub fn into_value(self) -> (r: Value)
        ensures
            r@ == ValueV::Query(seq![("intersection"@, Value::Array(self.sets)@)]),
    {
        node1("intersection", Value::Array(self.sets))
    }
}

/// The elements that are in any of the sets.
pub struct Union {
    pub sets: Vec<Value>,
}

impl Union {
    pub fn new(left: Value, right: Value) -> (r: Union)
        ensures
            r.sets@ == seq![left, right],
    {
        let mut sets: Vec<Value> = Vec::new();
        sets.push(left);
        sets.push(right);
        Union { sets }
    }

    /// Adds a set.
    pub fn push(&mut self, e: Value) -> (r: &mut Self)
        ensures
            (*r).sets@ == old(self).sets@.push(e),
            *final(self) == *final(r),
    {
        self.sets.push(e);
        self
    }

    /// `{"union": [...]}`.
    pub fn into_value(self) -> (r: Value)
        ensures
            r@ == ValueV::Query(seq![("union"@, Value::Array(self.sets)@)]),
    {
        node1("union", Value::Array(self.sets))
    }
}

/// A page of a set, with its size, whether to page through the events or
/// give sources, and optional point in time and cursors.
pub struct Paginate {
    pub paginate: Value,
    pub size: u32,
    pub events: bool,
    pub sources: bool,
    pub timestamp: Option<Value>,
    pub after: Option<Value>,
    pub before: Option<Value>,
}

impl Paginate {
    /// Pages of 64, without events or sources.
    pub fn new(input: Value) -> (r: Paginate)
        ensures
            r.paginate == input,
            r.size == 64,
            !r.events,
            !r.sources,
            r.timestamp is None,
            r.after is None,
            r.before is None,
    {
        Paginate { paginate: input, size: 64, events: false, sources: false, timestamp: None, after: None, before: None }
    }

    pub fn size(&mut self, size: u32) -> (r: &mut Self)
        ensures
            *r == (Paginate { size, ..*old(self) }),
            *final(self) == *final(r),
    {
        self.size = size;
        self
    }

    pub fn events(&mut self, events: bool) -> (r: &mut Self)
        ensures
            *r == (Paginate { events, ..*old(self) }),
            *final(self) == *final(r),
    {
        self.events = events;
        self
    }

    pub fn sources(&mut self, sources: bool) -> (r: &mut Self)
        ensures
            *r == (Paginate { sources, ..*old(self) }),
            *final(self) == *final(r),
    {
        self.sources = sources;
        self
    }

    /// The page as it was at this point in time.
    pub fn timestamp(&mut self, timestamp: Value) -> (r: &mut Self)
        ensures
            *r == (Paginate { timestamp: Some(timestamp), ..*old(self) }),
            *final(self) == *final(r),
    {
        self.timestamp = Some(timestamp);
        self
    }

    /// The page after this cursor (inclusive).
    pub fn after(&mut self, after: Value) -> (r: &mut Self)
        ensures
            *r == (Paginate { after: Some(after), ..*old(self) }),
            *final(self) == *final(r),
    {
        self.after = Some(after);
        self
    }

    /// The page before this cursor (exclusive).
    pub fn before(&mut self, before: Value) -> (r: &mut Self)
        ensures
            *r == (Paginate { before: Some(before), ..*old(self) }),
            *final(self) == *final(r),
    {
        self.before = Some(before);
        self
    }

    /// `{"paginate", "size", "events", "sources", "ts", "after", "before"}`,
    /// without the point in time and cursors that are not set.
    pub fn into_value(self) -> (r: Value)
        ensures
            r@ == ValueV::Query(seq![
                ("paginate"@, self.paginate@),
                ("size"@, ValueV::Number(Number::UInt(self.size as u64))),
                ("events"@, ValueV::Boolean(self.events)),
                ("sources"@, ValueV::Boolean(self.sources)),
            ] + optional("ts"@, self.timestamp) + optional("after"@, self.after) + optional("before"@, self.before)),
    {
        let ghost expected = seq![
            ("paginate"@, self.paginate@),
            ("size"@, ValueV::Number(Number::UInt(self.size as u64))),
            ("events"@, ValueV::Boolean(self.events)),
            ("sources"@, ValueV::Boolean(self.sources)),
        ] + optional("ts"@, self.timestamp) + optional("after"@, self.after) + optional("before"@, self.before);
        let mut args: Vec<(String, Value)> = Vec::new();
        push_arg(&mut args, "paginate", self.paginate);
        push_arg(&mut args, "size", Value::from_u64(self.size as u64));
        push_arg(&mut args, "events", Value::Boolean(self.events));
        push_arg(&mut args, "sources", Value::Boolean(self.sources));
        push_optional(&mut args, "ts", self.timestamp);
        push_optional(&mut args, "after", self.after);
        push_optional(&mut args, "before", self.before);
        assert(entries_view(&args) =~= expected);
        call_of(args)
    }
}

/// The value at a path inside another, or `default` where there is none.
pub struct Select {
    pub path: Vec<Value>,
    pub from: Value,
    pub default: Option<Value>,
}

impl Select {
    pub fn new(path: Vec<Value>, from: Value) -> (r: Select)
        ensures
            r.path == path,
            r.from == from,
            r.default is None,
    {
        Select { path, from, default: None }
    }

    pub fn default(&mut self, default: Value) -> (r: &mut Self)
        ensures
            (*r).path == old(self).path,
            (*r).from == old(self).from,
            (*r).default == Some(default),
            *final(self) == *final(r),
    {
        self.default = Some(default);
        self
    }

    /// `{"select": [...], "from": ..., "default": ...}`, without `default`
    /// when none is set.
    pub fn into_value(self) -> (r: Value)
        ensures
            r@ == ValueV::Query(seq![("select"@, Value::Array(self.path)@), ("from"@, self.from@)]
                + optional("default"@, self.default)),
    {
        let ghost expected = seq![("select"@, Value::Array(self.path)@), ("from"@, self.from@)]
            + optional("default"@, self.default);
        let mut args: Vec<(String, Value)> = Vec::new();
        push_arg(&mut args, "select", Value::Array(self.path));
        push_arg(&mut args, "from", self.from);
        push_optional(&mut args, "default", self.default);
        assert(entries_view(&args) =~= expected);
        call_of(args)
    }
}

/// The values at a path in every element of an array.
pub struct SelectAll;

impl SelectAll {
    pub fn new(path: Vec<Value>, from: Value) -> (r: Value)
        ensures
            r@ == ValueV::Query(seq![("select_all"@, Value::Array(path)@), ("from"@, from@)]),
    {
        node2("select_all", Value::Array(path), "from", from)
    }
}

} // verus!
