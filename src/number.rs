use vstd::prelude::*;

verus! {

/// A number as the wire protocol carries it. The four shapes are distinct:
/// a value keeps the width it was created with and is never promoted.
///
/// Floating-point numbers are held by their IEEE-754 bit patterns, so that
/// a value is compared and carried bit for bit.
#[derive(Clone, Copy, Debug, PartialEq, Eq, Structural)]
pub enum Number {
    UInt(u64),
    Int(i64),
    /// The bits of a 64-bit float.
    Double(u64),
    /// The bits of a 32-bit float.
    Float(u32),
}

impl Number {
    pub fn is_u64(&self) -> (r: bool)
        ensures
            r == (*self is UInt),
    {
        match self {
            Number::UInt(_) => true,
            _ => false,
        }
    }

    pub fn as_u64(&self) -> (r: Option<u64>)
        ensures
            r == (match *self {
                Number::UInt(u) => Some(u),
                _ => None,
            }),
    {
        match self {
            Number::UInt(u) => Some(*u),
            _ => None,
        }
    }

    pub fn is_i64(&self) -> (r: bool)
        ensures
            r == (*self is Int),
    {
        match self {
            Number::Int(_) => true,
            _ => false,
        }
    }

    pub fn as_i64(&self) -> (r: Option<i64>)
        ensures
            r == (match *self {
                Number::Int(i) => Some(i),
                _ => None,
            }),
    {
        match self {
            Number::Int(i) => Some(*i),
            _ => None,
        }
    }

    pub fn is_f64(&self) -> (r: bool)
        ensures
            r == (*self is Double),
    {
        match self {
            Number::Double(_) => true,
            _ => false,
        }
    }

    /// The bits of a 64-bit float, if this is one.
    pub fn as_f64(&self) -> (r: Option<u64>)
        ensures
            r == (match *self {
                Number::Double(b) => Some(b),
                _ => None,
            }),
    {
        match self {
            Number::Double(b) => Some(*b),
            _ => None,
        }
    }

    pub fn is_f32(&self) -> (r: bool)
        ensures
            r == (*self is Float),
    {
        match self {
            Number::Float(_) => true,
            _ => false,
        }
    }

    /// The bits of a 32-bit float, if this is one.
    pub fn as_f32(&self) -> (r: Option<u32>)
        ensures
            r == (match *self {
                Number::Float(b) => Some(b),
                _ => None,
            }),
    {
        match self {
            Number::Float(b) => Some(*b),
            _ => None,
        }
    }

    pub fn from_i64(i: i64) -> (r: Number)
        ensures
            r == Number::Int(i),
    {
        Number::Int(i)
    }

    pub fn from_u64(u: u64) -> (r: Number)
        ensures
            r == Number::UInt(u),
    {
        Number::UInt(u)
    }
}

} // verus!
