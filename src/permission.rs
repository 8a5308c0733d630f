use vstd::prelude::*;
use crate::catalog::SimpleLevel;
use crate::query::{bound, object_from, push_optional};
use crate::reference::Ref;
use crate::value::{entries_view, Value, ValueV};

verus! {

/// Who may perform an action: any key, or the tokens that belong to a
/// reference (an instance, or the instances of a class).
pub enum Level {
    Simple(SimpleLevel),
    Reference(Ref),
}

/// The model of a level as it is written.
pub open spec fn level_view(l: Level) -> ValueV {
    match l {
        Level::Simple(_) => ValueV::String("public"@),
        Level::Reference(r) => ValueV::Ref(r@),
    }
}

impl Level {
    /// Any key is allowed.
    pub fn public() -> (r: Level)
        ensures
            r is Simple,
    {
        Level::Simple(SimpleLevel::Public)
    }

    /// Only tokens that belong to `reference` are allowed.
    pub fn reference(reference: Ref) -> (r: Level)
        ensures
            r == Level::Reference(reference),
    {
        Level::Reference(reference)
    }

    /// The level as a value.
    pub fn into_value(self) -> (r: Value)
        ensures
            r@ == level_view(self),
    {
        match self {
            Level::Simple(s) => s.to_value(),
            Level::Reference(r) => Value::from_ref(r),
        }
    }
}

/// The value of a level, if one is given.
fn level_value(level: Option<Level>) -> (r: Option<Value>)
    ensures
        match level {
            Some(l) => r matches Some(v) && v@ == level_view(l),
            None => r is None,
        },
{
    match level {
        Some(l) => Some(l.into_value()),
        None => None,
    }
}

/// The model of an optional level under a key.
pub open spec fn optional_level(k: Seq<char>, l: Option<Level>) -> Seq<(Seq<char>, ValueV)> {
    match l {
        Some(x) => seq![(k, level_view(x))],
        None => Seq::empty(),
    }
}

/// Who may create, read and write the instances of a class.
pub struct ClassPermission {
    pub create: Option<Level>,
    pub read: Option<Level>,
    pub write: Option<Level>,
}

impl ClassPermission {
    pub fn new() -> (r: ClassPermission)
        ensures
            r.create is None && r.read is None && r.write is None,
    {
        ClassPermission { create: None, read: None, write: None }
    }

    pub fn create(&mut self, level: Level) -> (r: &mut Self)
        ensures
            *r == (ClassPermission { create: Some(level), ..*old(self) }),
            *final(self) == *final(r),
    {
        self.create = Some(level);
        self
    }

    pub fn read(&mut self, level: Level) -> (r: &mut Self)
        ensures
            *r == (ClassPermission { read: Some(level), ..*old(self) }),
            *final(self) == *final(r),
    {
        self.read = Some(level);
        self
    }

    pub fn write(&mut self, level: Level) -> (r: &mut Self)
        ensures
            *r == (ClassPermission { write: Some(level), ..*old(self) }),
            *final(self) == *final(r),
    {
        self.write = Some(level);
        self
    }

    /// The model of the permission object: the levels that are set.
    pub open spec fn model(self) -> ValueV {
        ValueV::Object(bound(optional_level("create"@, self.create) + optional_level("read"@, self.read)
            + optional_level("write"@, self.write)))
    }

    /// The permission object, with the levels that are set.
    pub fn into_value(self) -> (r: Value)
        ensures
            r@ == self.model(),
    {
        let ghost expected = optional_level("create"@, self.create) + optional_level("read"@, self.read)
            + optional_level("write"@, self.write);
        let mut args: Vec<(String, Value)> = Vec::new();
        push_optional(&mut args, "create", level_value(self.create));
        push_optional(&mut args, "read", level_value(self.read));
        push_optional(&mut args, "write", level_value(self.write));
        assert(entries_view(&args) =~= expected);
        Value::Object(object_from(args))
    }
}

impl Default for ClassPermission {
    fn default() -> (r: ClassPermission)
        ensures
            r.create is None && r.read is None && r.write is None,
    {
        ClassPermission::new()
    }
}

/// Who may read and write an instance.
pub struct InstancePermission {
    pub read: Option<Level>,
    pub write: Option<Level>,
}

impl InstancePermission {
    pub fn new() -> (r: InstancePermission)
        ensures
            r.read is None && r.write is None,
    {
        InstancePermission { read: None, write: None }
    }

    pub fn read(&mut self, level: Level) -> (r: &mut Self)
        ensures
            *r == (InstancePermission { read: Some(level), ..*old(self) }),
            *final(self) == *final(r),
    {
        self.read = Some(level);
        self
    }

    pub fn write(&mut self, level: Level) -> (r: &mut Self)
        ensures
            *r == (InstancePermission { write: Some(level), ..*old(self) }),
            *final(self) == *final(r),
    {
        self.write = Some(level);
        self
    }

    /// The permission object, with the levels that are set.
    pub fn into_value(self) -> (r: Value)
        ensures
            r@ == ValueV::Object(bound(optional_level("read"@, self.read) + optional_level("write"@, self.write))),
    {
        let ghost expected = optional_level("read"@, self.read) + optional_level("write"@, self.write);
        let mut args: Vec<(String, Value)> = Vec::new();
        push_optional(&mut args, "read", level_value(self.read));
        push_optional(&mut args, "write", level_value(self.write));
        assert(entries_view(&args) =~= expected);
        Value::Object(object_from(args))
    }
}

impl Default for InstancePermission {
    fn default() -> (r: InstancePermission)
        ensures
            r.read is None && r.write is None,
    {
        InstancePermission::new()
    }
}

/// Who may call a function.
pub struct FunctionPermission {
    pub call: Option<Level>,
}

impl FunctionPermission {
    pub fn new() -> (r: FunctionPermission)
        ensures
            r.call is None,
    {
        FunctionPermission { call: None }
    }

    pub fn call(&mut self, level: Level) -> (r: &mut Self)
        ensures
            (*r).call == Some(level),
            *final(self) == *final(r),
    {
        self.call = Some(level);
        self
    }

    /// The permission object, with the level if it is set.
    pub fn into_value(self) -> (r: Value)
        ensures
            r@ == ValueV::Object(bound(optional_level("call"@, self.call))),
    {
        let ghost expected = optional_level("call"@, self.call);
        let mut args: Vec<(String, Value)> = Vec::new();
        push_optional(&mut args, "call", level_value(self.call));
        assert(entries_view(&args) =~= expected);
        Value::Object(object_from(args))
    }
}

impl Default for FunctionPermission {
    fn default() -> (r: FunctionPermission)
        ensures
            r.call is None,
    {
        FunctionPermission::new()
    }
}

/// Who may read an index.
pub struct IndexPermission {
    pub read: Option<Level>,
}

impl IndexPermission {
    pub fn new() -> (r: IndexPermission)
        ensures
            r.read is None,
    {
        IndexPermission { read: None }
    }

    pub fn read(&mut self, level: Level) -> (r: &mut Self)
        ensures
            (*r).read == Some(level),
            *final(self) == *final(r),
    {
        self.read = Some(level);
        self
    }

    /// The model of the permission object: the level if it is set.
    pub open spec fn model(self) -> ValueV {
        ValueV::Object(bound(optional_level("read"@, self.read)))
    }

    /// The permission object, with the level if it is set.
    pub fn into_value(self) -> (r: Value)
        ensures
            r@ == self.model(),
    {
        let ghost expected = optional_level("read"@, self.read);
        let mut args: Vec<(String, Value)> = Vec::new();
        push_optional(&mut args, "read", level_value(self.read));
        assert(entries_view(&args) =~= expected);
        Value::Object(object_from(args))
    }
}

impl Default for IndexPermission {
    fn default() -> (r: IndexPermission)
        ensures
            r.read is None,
    {
        IndexPermission::new()
    }
}

} // verus!
