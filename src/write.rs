use vstd::prelude::*;
use crate::catalog::{Action, IndexBinding, IndexField, Role};
use crate::date::Timestamp;
use crate::error::Error;
use crate::number::Number;
use crate::permission::{ClassPermission, IndexPermission};
use crate::query::{bound, node1, node2, object_from, optional, push_arg, push_optional};
use crate::reference::Ref;
use crate::value::{entries_view, Object, Value, ValueV};

verus! {

/// The highest priority a database can have.
pub const MAX_PRIORITY: u16 = 500;

/// The model of optional class permissions.
pub open spec fn optional_class_permission(o: Option<ClassPermission>) -> Seq<(Seq<char>, ValueV)> {
    match o {
        Some(p) => seq![("permissions"@, p.model())],
        None => Seq::empty(),
    }
}

/// The model of optional index permissions.
pub open spec fn optional_index_permission(o: Option<IndexPermission>) -> Seq<(Seq<char>, ValueV)> {
    match o {
        Some(p) => seq![("permissions"@, p.model())],
        None => Seq::empty(),
    }
}

/// The model of an optional object under a key.
pub open spec fn optional_object(k: Seq<char>, o: Option<Object>) -> Seq<(Seq<char>, ValueV)> {
    match o {
        Some(x) => seq![(k, ValueV::Object(x@))],
        None => Seq::empty(),
    }
}

/// The value of an object, if one is given.
fn object_value(o: Option<Object>) -> (r: Option<Value>)
    ensures
        match o {
            Some(x) => r matches Some(v) && v@ == ValueV::Object(x@),
            None => r is None,
        },
{
    match o {
        Some(x) => Some(Value::Object(x)),
        None => None,
    }
}

/// Creates an instance of a class with the given data.
pub struct Create;

impl Create {
    pub fn new(class_ref: Value, data: Value) -> (r: Value)
        ensures
            r@ == ValueV::Query(seq![
                ("create"@, class_ref@),
                ("params"@, ValueV::Object(bound(seq![("data"@, data@)]))),
            ]),
    {
        let ghost d = data@;
        let mut args: Vec<(String, Value)> = Vec::new();
        push_arg(&mut args, "data", data);
        assert(entries_view(&args) =~= seq![("data"@, d)]);
        node2("create", class_ref, "params", Value::Object(object_from(args)))
    }
}

/// The settings of a new class.
pub struct ClassParams {
    pub name: String,
    pub data: Option<Object>,
    pub history_days: Option<u64>,
    pub ttl_days: Option<u64>,
    pub permissions: Option<ClassPermission>,
}

/// The model of an optional number of days.
pub open spec fn optional_days(k: Seq<char>, days: Option<u64>) -> Seq<(Seq<char>, ValueV)> {
    match days {
        Some(d) => seq![(k, ValueV::Number(Number::UInt(d)))],
        None => Seq::empty(),
    }
}

/// The value of a number of days, if one is given.
fn days_value(days: Option<u64>) -> (r: Option<Value>)
    ensures
        match days {
            Some(d) => r matches Some(v) && v@ == ValueV::Number(Number::UInt(d)),
            None => r is None,
        },
{
    match days {
        Some(d) => Some(Value::from_u64(d)),
        None => None,
    }
}

impl ClassParams {
    pub fn new(name: &str) -> (r: ClassParams)
        ensures
            r.name@ == name@,
            r.data is None && r.history_days is None && r.ttl_days is None && r.permissions is None,
    {
        ClassParams { name: name.to_owned(), data: None, history_days: None, ttl_days: None, permissions: None }
    }

    pub fn data(&mut self, data: Object) -> (r: &mut Self)
        ensures
            *r == (ClassParams { data: Some(data), ..*old(self) }),
            *final(self) == *final(r),
    {
        self.data = Some(data);
        self
    }

    /// How many days of history are kept.
    pub fn history_days(&mut self, days: u64) -> (r: &mut Self)
        ensures
            *r == (ClassParams { history_days: Some(days), ..*old(self) }),
            *final(self) == *final(r),
    {
        self.history_days = Some(days);
        self
    }

    /// How many days an instance lives.
    pub fn ttl_days(&mut self, days: u64) -> (r: &mut Self)
        ensures
            *r == (ClassParams { ttl_days: Some(days), ..*old(self) }),
            *final(self) == *final(r),
    {
        self.ttl_days = Some(days);
        self
    }

    pub fn permissions(&mut self, permissions: ClassPermission) -> (r: &mut Self)
        ensures
            *r == (ClassParams { permissions: Some(permissions), ..*old(self) }),
            *final(self) == *final(r),
    {
        self.permissions = Some(permissions);
        self
    }

    /// The settings object: the name and the settings that are given.
    pub fn into_value(self) -> (r: Value)
        ensures
            r@ == self.model(),
    {
        let ghost expected = seq![("name"@, ValueV::String(self.name@))]
            + optional_object("data"@, self.data)
            + optional_days("history_days"@, self.history_days)
            + optional_days("ttl_days"@, self.ttl_days)
            + optional_class_permission(self.permissions);
        let mut args: Vec<(String, Value)> = Vec::new();
        push_arg(&mut args, "name", Value::String(self.name));
        push_optional(&mut args, "data", object_value(self.data));
        push_optional(&mut args, "history_days", days_value(self.history_days));
        push_optional(&mut args, "ttl_days", days_value(self.ttl_days));
        let permissions = match self.permissions {
            Some(p) => Some(p.into_value()),
            None => None,
        };
        push_optional(&mut args, "permissions", permissions);
        assert(entries_view(&args) =~= expected);
        Value::Object(object_from(args))
    }
}

/// Creates a class.
pub struct CreateClass;

impl CreateClass {
    pub fn new(params: ClassParams) -> (r: Value)
        ensures
            r@ == ValueV::Query(seq![("create_class"@, params.model())]),
    {
        node1("create_class", params.into_value())
    }
}

impl ClassParams {
    /// The model of the settings object.
    pub open spec fn model(self) -> ValueV {
        ValueV::Object(bound(seq![("name"@, ValueV::String(self.name@))]
            + optional_object("data"@, self.data)
            + optional_days("history_days"@, self.history_days)
            + optional_days("ttl_days"@, self.ttl_days)
            + optional_class_permission(self.permissions)))
    }
}

/// The settings of a new database.
pub struct DatabaseParams {
    pub name: String,
    pub api_version: String,
    pub data: Option<Object>,
    pub priority: Option<u16>,
}

impl DatabaseParams {
    /// A database with API version 2.0.
    pub fn new(name: &str) -> (r: DatabaseParams)
        ensures
            r.name@ == name@,
            r.api_version@ == "2.0"@,
            r.data is None && r.priority is None,
    {
        DatabaseParams { name: name.to_owned(), api_version: "2.0".to_owned(), data: None, priority: None }
    }

    pub fn api_version(&mut self, version: &str) -> (r: &mut Self)
        ensures
            (*r).api_version@ == version@,
            (*r).name == old(self).name,
            (*r).data == old(self).data,
            (*r).priority == old(self).priority,
            *final(self) == *final(r),
    {
        self.api_version = version.to_owned();
        self
    }

    pub fn data(&mut self, data: Object) -> (r: &mut Self)
        ensures
            *r == (DatabaseParams { data: Some(data), ..*old(self) }),
            *final(self) == *final(r),
    {
        self.data = Some(data);
        self
    }

    /// The database's priority, from 1 to 500; any other is refused and
    /// leaves the settings as they were.
    pub fn priority(&mut self, priority: u16) -> (r: Result<&mut Self, Error>)
        ensures
            1 <= priority <= MAX_PRIORITY ==> (r matches Ok(x) && *x == (DatabaseParams {
                priority: Some(priority),
                ..*old(self)
            })),
            !(1 <= priority <= MAX_PRIORITY) ==> (r matches Err(Error::RequestDataFailure(m))
                && m@ == "Priority should be a number between 1 and 500"@ && *final(self) == *old(self)),
    {
        if priority == 0 || priority > MAX_PRIORITY {
            return Err(Error::RequestDataFailure("Priority should be a number between 1 and 500".to_owned()));
        }
        self.priority = Some(priority);
        Ok(self)
    }

    /// The model of the settings object.
    pub open spec fn model(self) -> ValueV {
        ValueV::Object(bound(seq![
            ("name"@, ValueV::String(self.name@)),
            ("api_version"@, ValueV::String(self.api_version@)),
        ] + optional_object("data"@, self.data) + match self.priority {
            Some(p) => seq![("priority"@, ValueV::Number(Number::UInt(p as u64)))],
            None => Seq::empty(),
        }))
    }

    /// The settings object.
    pub fn into_value(self) -> (r: Value)
        ensures
            r@ == self.model(),
    {
        let ghost expected = seq![
            ("name"@, ValueV::String(self.name@)),
            ("api_version"@, ValueV::String(self.api_version@)),
        ] + optional_object("data"@, self.data) + match self.priority {
            Some(p) => seq![("priority"@, ValueV::Number(Number::UInt(p as u64)))],
            None => Seq::empty(),
        };
        let mut args: Vec<(String, Value)> = Vec::new();
        push_arg(&mut args, "name", Value::String(self.name));
        push_arg(&mut args, "api_version", Value::String(self.api_version));
        push_optional(&mut args, "data", object_value(self.data));
        let priority = match self.priority {
            Some(p) => Some(Value::from_u64(p as u64)),
            None => None,
        };
        push_optional(&mut args, "priority", priority);
        assert(entries_view(&args) =~= expected);
        Value::Object(object_from(args))
    }
}

/// Creates a database.
pub struct CreateDatabase;

impl CreateDatabase {
    pub fn new(params: DatabaseParams) -> (r: Value)
        ensures
            r@ == ValueV::Query(seq![("create_database"@, params.model())]),
    {
        node1("create_database", params.into_value())
    }
}

/// The settings of a new function: its name, its body (quoted, so that it
/// is stored rather than evaluated) and optional data.
pub struct FunctionParams {
    pub name: String,
    pub body: Value,
    pub data: Option<Object>,
}

impl FunctionParams {
    pub fn new(name: &str, body: Value) -> (r: FunctionParams)
        ensures
            r.name@ == name@,
            r.body@ == ValueV::Quote(Box::new(body@)),
            r.data is None,
    {
        FunctionParams { name: name.to_owned(), body: body.as_quoted(), data: None }
    }

    pub fn data(&mut self, data: Object) -> (r: &mut Self)
        ensures
            *r == (FunctionParams { data: Some(data), ..*old(self) }),
            *final(self) == *final(r),
    {
        self.data = Some(data);
        self
    }

    /// The model of the settings object.
    pub open spec fn model(self) -> ValueV {
        ValueV::Object(bound(seq![("name"@, ValueV::String(self.name@)), ("body"@, self.body@)]
            + optional_object("data"@, self.data)))
    }

    /// The settings object.
    pub fn into_value(self) -> (r: Value)
        ensures
            r@ == self.model(),
    {
        let ghost expected = seq![("name"@, ValueV::String(self.name@)), ("body"@, self.body@)]
            + optional_object("data"@, self.data);
        let mut args: Vec<(String, Value)> = Vec::new();
        push_arg(&mut args, "name", Value::String(self.name));
        push_arg(&mut args, "body", self.body);
        push_optional(&mut args, "data", object_value(self.data));
        assert(entries_view(&args) =~= expected);
        Value::Object(object_from(args))
    }
}

/// Creates a function.
pub struct CreateFunction;

impl CreateFunction {
    pub fn new(params: FunctionParams) -> (r: Value)
        ensures
            r@ == ValueV::Query(seq![("create_function"@, params.model())]),
    {
        node1("create_function", params.into_value())
    }
}

/// What an index looks entries up by: a field of the instances, or a
/// binding.
pub enum Term {
    Field(IndexField),
    Binding(IndexBinding),
}

/// The model of a path of keys.
pub open spec fn path_model(path: Seq<String>) -> ValueV {
    ValueV::Array(Seq::new(path.len(), |i: int| ValueV::String(path[i]@)))
}

impl Term {
    pub fn field(path: Vec<String>) -> (r: Term)
        ensures
            r == Term::Field(IndexField(path)),
    {
        Term::Field(IndexField(path))
    }

    pub fn binding(name: &str) -> (r: Term)
        ensures
            r matches Term::Binding(b) && b.0@ == name@,
    {
        Term::Binding(IndexBinding(name.to_owned()))
    }

    /// The model of the term object.
    pub open spec fn model(self) -> ValueV {
        match self {
            Term::Field(f) => ValueV::Object(bound(seq![("field"@, path_model(f.0@))])),
            Term::Binding(b) => ValueV::Object(bound(seq![("binding"@, ValueV::String(b.0@))])),
        }
    }

    /// The term object.
    pub fn into_value(self) -> (r: Value)
        ensures
            r@ == self.model(),
    {
        let mut args: Vec<(String, Value)> = Vec::new();
        match self {
            Term::Field(f) => {
                let v = f.to_value();
                assert(v@ == path_model(f.0@)) by {
                    assert(v@->Array_0 =~= path_model(f.0@)->Array_0);
                }
                push_arg(&mut args, "field", v);
                assert(entries_view(&args) =~= seq![("field"@, path_model(f.0@))]);
            },
            Term::Binding(b) => {
                push_arg(&mut args, "binding", b.to_value());
                assert(entries_view(&args) =~= seq![("binding"@, ValueV::String(b.0@))]);
            },
        }
        Value::Object(object_from(args))
    }
}

/// What an index gives back for each entry: a field or a binding, in
/// ascending or reverse order.
pub struct IndexValue {
    pub field: Option<IndexField>,
    pub binding: Option<IndexBinding>,
    pub reverse: bool,
}

impl IndexValue {
    pub fn field(path: Vec<String>) -> (r: IndexValue)
        ensures
            r.field == Some(IndexField(path)),
            r.binding is None,
            !r.reverse,
    {
        IndexValue { field: Some(IndexField(path)), binding: None, reverse: false }
    }

    pub fn binding(name: &str) -> (r: IndexValue)
        ensures
            r.field is None,
            r.binding matches Some(b) && b.0@ == name@,
            !r.reverse,
    {
        IndexValue { field: None, binding: Some(IndexBinding(name.to_owned())), reverse: false }
    }

    /// Gives the entries in reverse order.
    pub fn reverse(&mut self) -> (r: &mut Self)
        ensures
            *r == (IndexValue { reverse: true, ..*old(self) }),
            *final(self) == *final(r),
    {
        self.reverse = true;
        self
    }

    /// The settings given to the value object, in order.
    pub open spec fn parts(self) -> Seq<(Seq<char>, ValueV)> {
        let field = match self.field {
            Some(f) => seq![("field"@, path_model(f.0@))],
            None => Seq::empty(),
        };
        let binding = match self.binding {
            Some(b) => seq![("binding"@, ValueV::String(b.0@))],
            None => Seq::empty(),
        };
        field + binding + seq![("reverse"@, ValueV::Boolean(self.reverse))]
    }

    /// The model of the value object.
    pub open spec fn model(self) -> ValueV {
        ValueV::Object(bound(self.parts()))
    }

    /// The value object.
    pub fn into_value(self) -> (r: Value)
        ensures
            r@ == self.model(),
    {
        let ghost expected = self.parts();
        let mut args: Vec<(String, Value)> = Vec::new();
        match self.field {
            Some(f) => {
                let v = f.to_value();
                assert(v@ == path_model(f.0@)) by {
                    assert(v@->Array_0 =~= path_model(f.0@)->Array_0);
                }
                push_arg(&mut args, "field", v);
            },
            None => {},
        }
        match self.binding {
            Some(b) => {
                push_arg(&mut args, "binding", b.to_value());
            },
            None => {},
        }
        push_arg(&mut args, "reverse", Value::Boolean(self.reverse));
        assert(entries_view(&args) =~= expected);
        Value::Object(object_from(args))
    }
}

/// The models of index terms.
pub open spec fn terms_model(ts: Seq<Term>) -> ValueV {
    ValueV::Array(Seq::new(ts.len(), |i: int| ts[i].model()))
}

/// The models of index values.
pub open spec fn values_model(vs: Seq<IndexValue>) -> ValueV {
    ValueV::Array(Seq::new(vs.len(), |i: int| vs[i].model()))
}

/// Index terms as an array value.
fn terms_value(ts: Vec<Term>) -> (r: Value)
    ensures
        r@ == terms_model(ts@),
{
    let ghost orig = ts@;
    let mut rest = ts;
    let mut out: Vec<Value> = Vec::new();
    let n = rest.len();
    let mut i: usize = 0;
    while i < n
        invariant
            n == rest.len(),
            n == orig.len(),
            i <= n,
            out.len() == i,
            forall|j: int| i <= j < n ==> #[trigger] rest@[j] == orig[j],
            forall|j: int| 0 <= j < i ==> #[trigger] out@[j]@ == orig[j].model(),
        decreases n - i,
    {
        let mut taken = Term::Binding(IndexBinding(String::new()));
        rest.set_and_swap(i, &mut taken);
        let ghost prev = out;
        out.push(taken.into_value());
        assert forall|j: int| 0 <= j <= i implies #[trigger] out@[j]@ == orig[j].model() by {
            if j < i {
                assert(out@[j] == prev@[j]);
            }
        }
        i = i + 1;
    }
    let r = Value::Array(out);
    assert(r@->Array_0 =~= terms_model(orig)->Array_0) by {
        assert forall|k: int| 0 <= k < n implies #[trigger] r@->Array_0[k] == terms_model(orig)->Array_0[k] by {
            assert(r@->Array_0[k] == out@[k]@);
        }
    }
    r
}

/// Index values as an array value.
fn values_value(vs: Vec<IndexValue>) -> (r: Value)
    ensures
        r@ == values_model(vs@),
{
    let ghost orig = vs@;
    let mut rest = vs;
    let mut out: Vec<Value> = Vec::new();
    let n = rest.len();
    let mut i: usize = 0;
    while i < n
        invariant
            n == rest.len(),
            n == orig.len(),
            i <= n,
            out.len() == i,
            forall|j: int| i <= j < n ==> #[trigger] rest@[j] == orig[j],
            forall|j: int| 0 <= j < i ==> #[trigger] out@[j]@ == orig[j].model(),
        decreases n - i,
    {
        let mut taken = IndexValue { field: None, binding: None, reverse: false };
        rest.set_and_swap(i, &mut taken);
        let ghost prev = out;
        out.push(taken.into_value());
        assert forall|j: int| 0 <= j <= i implies #[trigger] out@[j]@ == orig[j].model() by {
            if j < i {
                assert(out@[j] == prev@[j]);
            }
        }
        i = i + 1;
    }
    let r = Value::Array(out);
    assert(r@->Array_0 =~= values_model(orig)->Array_0) by {
        assert forall|k: int| 0 <= k < n implies #[trigger] r@->Array_0[k] == values_model(orig)->Array_0[k] by {
            assert(r@->Array_0[k] == out@[k]@);
        }
    }
    r
}

/// The model of optional index terms.
pub open spec fn optional_terms(o: Option<Vec<Term>>) -> Seq<(Seq<char>, ValueV)> {
    match o {
        Some(ts) => seq![("terms"@, terms_model(ts@))],
        None => Seq::empty(),
    }
}

/// The model of optional index values.
pub open spec fn optional_values(o: Option<Vec<IndexValue>>) -> Seq<(Seq<char>, ValueV)> {
    match o {
        Some(vs) => seq![("values"@, values_model(vs@))],
        None => Seq::empty(),
    }
}

/// The model of an optional number of partitions.
pub open spec fn optional_partitions(o: Option<u16>) -> Seq<(Seq<char>, ValueV)> {
    match o {
        Some(p) => seq![("partitions"@, ValueV::Number(Number::UInt(p as u64)))],
        None => Seq::empty(),
    }
}

/// The settings of a new index.
pub struct IndexParams {
    pub name: String,
    pub source: Ref,
    pub active: bool,
    pub unique: bool,
    pub serialized: bool,
    pub terms: Option<Vec<Term>>,
    pub values: Option<Vec<IndexValue>>,
    pub partitions: Option<u16>,
    pub permissions: Option<IndexPermission>,
    pub data: Option<Object>,
}

impl IndexParams {
    /// An index named `name` over `source`: not active, not unique, not
    /// serialized, with none of the other settings.
    pub fn new(name: &str, source: Ref) -> (r: IndexParams)
        ensures
            r.name@ == name@,
            r.source == source,
            !r.active && !r.unique && !r.serialized,
            r.terms is None && r.values is None && r.partitions is None,
            r.permissions is None && r.data is None,
    {
        IndexParams {
            name: name.to_owned(),
            source,
            active: false,
            unique: false,
            serialized: false,
            terms: None,
            values: None,
            partitions: None,
            permissions: None,
            data: None,
        }
    }

    pub fn active(&mut self) -> (r: &mut Self)
        ensures
            *r == (IndexParams { active: true, ..*old(self) }),
            *final(self) == *final(r),
    {
        self.active = true;
        self
    }

    pub fn unique(&mut self) -> (r: &mut Self)
        ensures
            *r == (IndexParams { unique: true, ..*old(self) }),
            *final(self) == *final(r),
    {
        self.unique = true;
        self
    }

    pub fn serialized(&mut self) -> (r: &mut Self)
        ensures
            *r == (IndexParams { serialized: true, ..*old(self) }),
            *final(self) == *final(r),
    {
        self.serialized = true;
        self
    }

    pub fn terms(&mut self, terms: Vec<Term>) -> (r: &mut Self)
        ensures
            *r == (IndexParams { terms: Some(terms), ..*old(self) }),
            *final(self) == *final(r),
    {
        self.terms = Some(terms);
        self
    }

    pub fn values(&mut self, values: Vec<IndexValue>) -> (r: &mut Self)
        ensures
            *r == (IndexParams { values: Some(values), ..*old(self) }),
            *final(self) == *final(r),
    {
        self.values = Some(values);
        self
    }

    pub fn partitions(&mut self, partitions: u16) -> (r: &mut Self)
        ensures
            *r == (IndexParams { partitions: Some(partitions), ..*old(self) }),
            *final(self) == *final(r),
    {
        self.partitions = Some(partitions);
        self
    }

    pub fn permissions(&mut self, permissions: IndexPermission) -> (r: &mut Self)
        ensures
            *r == (IndexParams { permissions: Some(permissions), ..*old(self) }),
            *final(self) == *final(r),
    {
        self.permissions = Some(permissions);
        self
    }

    pub fn data(&mut self, data: Object) -> (r: &mut Self)
        ensures
            *r == (IndexParams { data: Some(data), ..*old(self) }),
            *final(self) == *final(r),
    {
        self.data = Some(data);
        self
    }

    /// The settings given to the settings object, in order.
    pub open spec fn settings(self) -> Seq<(Seq<char>, ValueV)> {
        seq![
            ("name"@, ValueV::String(self.name@)),
            ("source"@, ValueV::Ref(self.source@)),
            ("active"@, ValueV::Boolean(self.active)),
            ("unique"@, ValueV::Boolean(self.unique)),
            ("serialized"@, ValueV::Boolean(self.serialized)),
        ] + optional_terms(self.terms) + optional_values(self.values) + optional_partitions(self.partitions)
            + optional_index_permission(self.permissions) + optional_object("data"@, self.data)
    }

    /// The model of the settings object.
    pub open spec fn model(self) -> ValueV {
        ValueV::Object(bound(self.settings()))
    }

    /// The settings object.
    pub fn into_value(self) -> (r: Value)
        ensures
            r@ == self.model(),
    {
        let ghost expected = self.settings();
        let mut args = index_fixed(self.name, self.source, self.active, self.unique, self.serialized);
        index_optional(&mut args, self.terms, self.values, self.partitions, self.permissions, self.data);
        assert(entries_view(&args) =~= expected);
        Value::Object(object_from(args))
    }
}

/// The settings that every index has.
fn index_fixed(name: String, source: Ref, active: bool, unique: bool, serialized: bool) -> (r: Vec<(String, Value)>)
    ensures
        entries_view(&r) == seq![
            ("name"@, ValueV::String(name@)),
            ("source"@, ValueV::Ref(source@)),
            ("active"@, ValueV::Boolean(active)),
            ("unique"@, ValueV::Boolean(unique)),
            ("serialized"@, ValueV::Boolean(serialized)),
        ],
{
    let ghost expected = seq![
        ("name"@, ValueV::String(name@)),
        ("source"@, ValueV::Ref(source@)),
        ("active"@, ValueV::Boolean(active)),
        ("unique"@, ValueV::Boolean(unique)),
        ("serialized"@, ValueV::Boolean(serialized)),
    ];
    let mut args: Vec<(String, Value)> = Vec::new();
    push_arg(&mut args, "name", Value::String(name));
    push_arg(&mut args, "source", Value::from_ref(source));
    push_arg(&mut args, "active", Value::Boolean(active));
    push_arg(&mut args, "unique", Value::Boolean(unique));
    push_arg(&mut args, "serialized", Value::Boolean(serialized));
    assert(entries_view(&args) =~= expected);
    args
}

/// Appends the optional settings of an index that are given.
fn index_optional(
    args: &mut Vec<(String, Value)>,
    terms: Option<Vec<Term>>,
    values: Option<Vec<IndexValue>>,
    partitions: Option<u16>,
    permissions: Option<IndexPermission>,
    data: Option<Object>,
)
    ensures
        entries_view(final(args)) == entries_view(old(args)) + optional_terms(terms) + optional_values(values)
            + optional_partitions(partitions) + optional_index_permission(permissions) + optional_object(
            "data"@,
            data,
        ),
{
    let ghost start = entries_view(args);
    let ghost terms_part = optional_terms(terms);
    let ghost values_part = optional_values(values);
    let ghost permissions_part = optional_index_permission(permissions);
    let ghost data_part = optional_object("data"@, data);
    let terms_v = match terms {
        Some(ts) => Some(terms_value(ts)),
        None => None,
    };
    push_optional(args, "terms", terms_v);
    assert(entries_view(args) =~= start + terms_part);
    let ghost s1 = entries_view(args);
    let values_v = match values {
        Some(vs) => Some(values_value(vs)),
        None => None,
    };
    push_optional(args, "values", values_v);
    assert(entries_view(args) =~= s1 + values_part);
    let ghost s2 = entries_view(args);
    let partitions_v = match partitions {
        Some(p) => Some(Value::from_u64(p as u64)),
        None => None,
    };
    push_optional(args, "partitions", partitions_v);
    assert(entries_view(args) =~= s2 + optional_partitions(partitions));
    let ghost s3 = entries_view(args);
    let permissions_v = match permissions {
        Some(p) => Some(p.into_value()),
        None => None,
    };
    push_optional(args, "permissions", permissions_v);
    assert(entries_view(args) =~= s3 + permissions_part);
    let ghost s4 = entries_view(args);
    push_optional(args, "data", object_value(data));
    assert(entries_view(args) =~= s4 + data_part);
}

/// Creates an index.
pub struct CreateIndex;

impl CreateIndex {
    pub fn new(params: IndexParams) -> (r: Value)
        ensures
            r@ == ValueV::Query(seq![("create_index"@, params.model())]),
    {
        node1("create_index", params.into_value())
    }
}

/// The settings of a new key: the database it opens, its role, its
/// priority (1 unless set) and optional data.
pub struct KeyParams {
    pub database: Ref,
    pub role: Role,
    pub priority: Option<u16>,
    pub data: Option<Object>,
}

impl KeyParams {
    pub fn new(database: Ref, role: Role) -> (r: KeyParams)
        ensures
            r.database == database,
            r.role == role,
            r.priority is None && r.data is None,
    {
        KeyParams { database, role, priority: None, data: None }
    }

    pub fn priority(&mut self, priority: u16) -> (r: &mut Self)
        ensures
            *r == (KeyParams { priority: Some(priority), ..*old(self) }),
            *final(self) == *final(r),
    {
        self.priority = Some(priority);
        self
    }

    pub fn data(&mut self, data: Object) -> (r: &mut Self)
        ensures
            *r == (KeyParams { data: Some(data), ..*old(self) }),
            *final(self) == *final(r),
    {
        self.data = Some(data);
        self
    }

    /// The model of the settings object.
    pub open spec fn model(self) -> ValueV {
        ValueV::Object(bound(seq![
            ("database"@, ValueV::Ref(self.database@)),
            ("role"@, ValueV::String(self.role.wire_name())),
            ("priority"@, match self.priority {
                Some(p) => ValueV::Number(Number::UInt(p as u64)),
                None => ValueV::Number(Number::Int(1)),
            }),
        ] + optional_object("data"@, self.data)))
    }

    /// The settings object.
    pub fn into_value(self) -> (r: Value)
        ensures
            r@ == self.model(),
    {
        let ghost expected = seq![
            ("database"@, ValueV::Ref(self.database@)),
            ("role"@, ValueV::String(self.role.wire_name())),
            ("priority"@, match self.priority {
                Some(p) => ValueV::Number(Number::UInt(p as u64)),
                None => ValueV::Number(Number::Int(1)),
            }),
        ] + optional_object("data"@, self.data);
        let mut args: Vec<(String, Value)> = Vec::new();
        push_arg(&mut args, "database", Value::from_ref(self.database));
        push_arg(&mut args, "role", self.role.to_value());
        let priority = match self.priority {
            Some(p) => Value::from_u64(p as u64),
            None => Value::from_i64(1),
        };
        push_arg(&mut args, "priority", priority);
        push_optional(&mut args, "data", object_value(self.data));
        assert(entries_view(&args) =~= expected);
        Value::Object(object_from(args))
    }
}

/// Creates a key.
pub struct CreateKey;

impl CreateKey {
    pub fn new(params: KeyParams) -> (r: Value)
        ensures
            r@ == ValueV::Query(seq![("create_key"@, params.model())]),
    {
        node1("create_key", params.into_value())
    }
}

/// The data, credentials and delegates of an event.
pub struct InsertParams {
    pub data: Value,
    pub credentials: Value,
    pub delegates: Value,
}

impl InsertParams {
    pub fn new(data: Value, credentials: Value, delegates: Value) -> (r: InsertParams)
        ensures
            r == (InsertParams { data, credentials, delegates }),
    {
        InsertParams { data, credentials, delegates }
    }

    /// The model of the params object.
    pub open spec fn model(self) -> ValueV {
        ValueV::Object(bound(seq![
            ("data"@, self.data@),
            ("credentials"@, self.credentials@),
            ("delegates"@, self.delegates@),
        ]))
    }

    /// The params object.
    pub fn into_value(self) -> (r: Value)
        ensures
            r@ == self.model(),
    {
        let ghost expected = seq![
            ("data"@, self.data@),
            ("credentials"@, self.credentials@),
            ("delegates"@, self.delegates@),
        ];
        let mut args: Vec<(String, Value)> = Vec::new();
        push_arg(&mut args, "data", self.data);
        push_arg(&mut args, "credentials", self.credentials);
        push_arg(&mut args, "delegates", self.delegates);
        assert(entries_view(&args) =~= expected);
        Value::Object(object_from(args))
    }
}

/// Adds an event to an instance's history.
pub struct Insert;

impl Insert {
    pub fn new(reference: Ref, ts: Timestamp, action: Action, params: InsertParams) -> (r: Value)
        ensures
            r@ == ValueV::Query(seq![
                ("insert"@, ValueV::Ref(reference@)),
                ("ts"@, ValueV::Timestamp(ts.spec_secs(), ts.spec_nanos())),
                ("action"@, ValueV::String(action.wire_name())),
                ("params"@, params.model()),
            ]),
    {
        let ghost expected = seq![
            ("insert"@, ValueV::Ref(reference@)),
            ("ts"@, ValueV::Timestamp(ts.spec_secs(), ts.spec_nanos())),
            ("action"@, ValueV::String(action.wire_name())),
            ("params"@, params.model()),
        ];
        let mut args: Vec<(String, Value)> = Vec::new();
        push_arg(&mut args, "insert", Value::from_ref(reference));
        push_arg(&mut args, "ts", Value::from_timestamp(ts));
        push_arg(&mut args, "action", action.to_value());
        push_arg(&mut args, "params", params.into_value());
        assert(entries_view(&args) =~= expected);
        crate::query::call_of(args)
    }
}

/// The parts of an instance to change.
pub struct UpdateParams {
    pub data: Option<Value>,
    pub credentials: Option<Value>,
    pub delegates: Option<Value>,
}

impl UpdateParams {
    pub fn new() -> (r: UpdateParams)
        ensures
            r.data is None && r.credentials is None && r.delegates is None,
    {
        UpdateParams { data: None, credentials: None, delegates: None }
    }

    pub fn data(&mut self, data: Value) -> (r: &mut Self)
        ensures
            *r == (UpdateParams { data: Some(data), ..*old(self) }),
            *final(self) == *final(r),
    {
        self.data = Some(data);
        self
    }

    pub fn credentials(&mut self, credentials: Value) -> (r: &mut Self)
        ensures
            *r == (UpdateParams { credentials: Some(credentials), ..*old(self) }),
            *final(self) == *final(r),
    {
        self.credentials = Some(credentials);
        self
    }

    pub fn delegates(&mut self, delegates: Value) -> (r: &mut Self)
        ensures
            *r == (UpdateParams { delegates: Some(delegates), ..*old(self) }),
            *final(self) == *final(r),
    {
        self.delegates = Some(delegates);
        self
    }

    /// The model of the params object: the parts that are set.
    pub open spec fn model(self) -> ValueV {
        ValueV::Object(bound(optional("data"@, self.data) + optional("credentials"@, self.credentials)
            + optional("delegates"@, self.delegates)))
    }

    /// The params object.
    pub fn into_value(self) -> (r: Value)
        ensures
            r@ == self.model(),
    {
        let ghost expected = optional("data"@, self.data) + optional("credentials"@, self.credentials)
            + optional("delegates"@, self.delegates);
        let mut args: Vec<(String, Value)> = Vec::new();
        push_optional(&mut args, "data", self.data);
        push_optional(&mut args, "credentials", self.credentials);
        push_optional(&mut args, "delegates", self.delegates);
        assert(entries_view(&args) =~= expected);
        Value::Object(object_from(args))
    }
}

impl Default for UpdateParams {
    fn default() -> (r: UpdateParams)
        ensures
            r.data is None && r.credentials is None && r.delegates is None,
    {
        UpdateParams::new()
    }
}

/// Changes parts of an instance.
pub struct Update;

impl Update {
    pub fn new(reference: Value, params: UpdateParams) -> (r: Value)
        ensures
            r@ == ValueV::Query(seq![("update"@, reference@), ("params"@, params.model())]),
    {
        node2("update", reference, "params", params.into_value())
    }
}

} // verus!
