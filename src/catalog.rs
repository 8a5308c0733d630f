use vstd::prelude::*;
use crate::value::{value_view, Value, ValueV};

verus! {

/// A permission level that admits any key.
#[derive(Clone, Copy, Debug, PartialEq, Eq, Structural)]
pub enum SimpleLevel {
    Public,
}

/// The unit of a number of time units since the epoch.
#[derive(Clone, Copy, Debug, PartialEq, Eq, Structural)]
pub enum EpochUnit {
    Second,
    Millisecond,
    Microsecond,
    Nanosecond,
}

/// A Unicode normalization applied when case-folding.
#[derive(Clone, Copy, Debug, PartialEq, Eq, Structural)]
pub enum Normalizer {
    NFKCCaseFold,
    NFC,
    NFD,
    NFKC,
    NFKD,
}

/// The kind of change recorded in an instance's history.
#[derive(Clone, Copy, Debug, PartialEq, Eq, Structural)]
pub enum Action {
    Create,
    Delete,
    Update,
}

/// The role that a key grants.
#[derive(Clone, Copy, Debug, PartialEq, Eq, Structural)]
pub enum Role {
    Admin,
    Server,
    ServerReadOnly,
    Client,
}

/// A path into an instance, one key per level.
#[derive(Debug)]
pub struct Field(pub Vec<String>);

/// The path of a field that an index covers, one key per level.
#[derive(Debug)]
pub struct IndexField(pub Vec<String>);

/// The name of a binding that an index covers.
#[derive(Debug)]
pub struct IndexBinding(pub String);

impl SimpleLevel {
    pub open spec fn wire_name(self) -> Seq<char> {
        "public"@
    }

    /// The level as a value.
    pub fn to_value(&self) -> (r: Value)
        ensures
            r@ == ValueV::String(self.wire_name()),
    {
        Value::String("public".to_owned())
    }
}

impl EpochUnit {
    pub open spec fn wire_name(self) -> Seq<char> {
        match self {
            EpochUnit::Second => "second"@,
            EpochUnit::Millisecond => "millisecond"@,
            EpochUnit::Microsecond => "microsecond"@,
            EpochUnit::Nanosecond => "nanosecond"@,
        }
    }

    /// The unit as a value.
    pub fn to_value(&self) -> (r: Value)
        ensures
            r@ == ValueV::String(self.wire_name()),
    {
        let name = match self {
            EpochUnit::Second => "second",
            EpochUnit::Millisecond => "millisecond",
            EpochUnit::Microsecond => "microsecond",
            EpochUnit::Nanosecond => "nanosecond",
        };
        Value::String(name.to_owned())
    }
}

impl Normalizer {
    pub open spec fn wire_name(self) -> Seq<char> {
        match self {
            Normalizer::NFKCCaseFold => "NFKCCaseFold"@,
            Normalizer::NFC => "NFC"@,
            Normalizer::NFD => "NFD"@,
            Normalizer::NFKC => "NFKC"@,
            Normalizer::NFKD => "NFKD"@,
        }
    }

    /// The normalizer as a value.
    pub fn to_value(&self) -> (r: Value)
        ensures
            r@ == ValueV::String(self.wire_name()),
    {
        let name = match self {
            Normalizer::NFKCCaseFold => "NFKCCaseFold",
            Normalizer::NFC => "NFC",
            Normalizer::NFD => "NFD",
            Normalizer::NFKC => "NFKC",
            Normalizer::NFKD => "NFKD",
        };
        Value::String(name.to_owned())
    }
}

impl Action {
    pub open spec fn wire_name(self) -> Seq<char> {
        match self {
            Action::Create => "create"@,
            Action::Delete => "delete"@,
            Action::Update => "update"@,
        }
    }

    /// The action as a value.
    pub fn to_value(&self) -> (r: Value)
        ensures
            r@ == ValueV::String(self.wire_name()),
    {
        let name = match self {
            Action::Create => "create",
            Action::Delete => "delete",
            Action::Update => "update",
        };
        Value::String(name.to_owned())
    }
}

impl Role {
    pub open spec fn wire_name(self) -> Seq<char> {
        match self {
            Role::Admin => "admin"@,
            Role::Server => "server"@,
            Role::ServerReadOnly => "server-readonly"@,
            Role::Client => "client"@,
        }
    }

    /// The role as a value.
    pub fn to_value(&self) -> (r: Value)
        ensures
            r@ == ValueV::String(self.wire_name()),
    {
        let name = match self {
            Role::Admin => "admin",
            Role::Server => "server",
            Role::ServerReadOnly => "server-readonly",
            Role::Client => "client",
        };
        Value::String(name.to_owned())
    }
}

/// An array of the given strings.
fn strings_value(keys: &Vec<String>) -> (r: Value)
    ensures
        r@ == ValueV::Array(Seq::new(keys.len() as nat, |i: int| ValueV::String(keys[i]@))),
{
    let n = keys.len();
    let mut out: Vec<Value> = Vec::new();
    let mut i: usize = 0;
    while i < n
        invariant
            n == keys.len(),
            i <= n,
            out.len() == i,
            forall|k: int| 0 <= k < i ==> #[trigger] value_view(&out[k]) == ValueV::String(keys[k]@),
        decreases n - i,
    {
        let ghost prev = out;
        out.push(Value::String(keys[i].clone()));
        assert forall|k: int| 0 <= k <= i implies #[trigger] value_view(&out[k]) == ValueV::String(keys[k]@) by {
            if k < i {
                assert(out@[k] == prev@[k]);
            }
        }
        i = i + 1;
    }
    let r = Value::Array(out);
    assert(r@->Array_0 =~= Seq::new(n as nat, |i: int| ValueV::String(keys[i]@))) by {
        assert forall|k: int| 0 <= k < n implies #[trigger] r@->Array_0[k] == ValueV::String(keys[k]@) by {
            assert(r@->Array_0[k] == value_view(&out[k]));
        }
    }
    r
}

impl Field {
    /// The path as a value: an array of its keys.
    pub fn to_value(&self) -> (r: Value)
        ensures
            r@ == ValueV::Array(Seq::new(self.0.len() as nat, |i: int| ValueV::String(self.0[i]@))),
    {
        strings_value(&self.0)
    }
}

impl IndexField {
    /// The path as a value: an array of its keys.
    pub fn to_value(&self) -> (r: Value)
        ensures
            r@ == ValueV::Array(Seq::new(self.0.len() as nat, |i: int| ValueV::String(self.0[i]@))),
    {
        strings_value(&self.0)
    }
}

impl IndexBinding {
    /// The binding as a value: its name.
    pub fn to_value(&self) -> (r: Value)
        ensures
            r@ == ValueV::String(self.0@),
    {
        Value::String(self.0.clone())
    }
}

} // verus!
