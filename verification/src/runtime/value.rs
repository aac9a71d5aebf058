//! Values: constants of the pool and results of scripts.

use vstd::prelude::*;
use crate::util::interner::StringId;

verus! {

/// A value. Numbers that are no small integers are held by their IEEE 754 binary64 bit
/// pattern, objects by their place on the heap.
#[derive(Clone, Copy, PartialEq, Eq, Structural, Debug)]
pub enum Value {
    Undefined,
    Null,
    Bool(bool),
    Int(i32),
    Number(u64),
    Str(StringId),
    Object(usize),
}

impl Value {
    /// The value `undefined`.
    pub fn undefined() -> (value: Value)
        ensures
            value == Value::Undefined,
    {
        Value::Undefined
    }

    /// The value `null`.
    pub fn null() -> (value: Value)
        ensures
            value == Value::Null,
    {
        Value::Null
    }

    /// A string.
    pub fn string(id: StringId) -> (value: Value)
        ensures
            value == Value::Str(id),
    {
        Value::Str(id)
    }

    /// A small integer.
    pub fn small_int(i: i32) -> (value: Value)
        ensures
            value == Value::Int(i),
    {
        Value::Int(i)
    }

    /// A number given by its bit pattern.
    pub fn number(bits: u64) -> (value: Value)
        ensures
            value == Value::Number(bits),
    {
        Value::Number(bits)
    }

    /// An object by its place on the heap.
    pub fn object_id(id: usize) -> (value: Value)
        ensures
            value == Value::Object(id),
    {
        Value::Object(id)
    }

    /// Whether the value is `undefined`.
    pub fn is_undefined(self) -> (result: bool)
        ensures
            result == (self == Value::Undefined),
    {
        match self {
            Value::Undefined => true,
            _ => false,
        }
    }

    /// The small integer, if the value is one.
    pub fn as_int(self) -> (i: Option<i32>)
        ensures
            i == (match self {
                Value::Int(i) => Some(i),
                _ => None,
            }),
    {
        match self {
            Value::Int(i) => Some(i),
            _ => None,
        }
    }

    /// The bit pattern, if the value is a number that is no small integer.
    pub fn as_number(self) -> (bits: Option<u64>)
        ensures
            bits == (match self {
                Value::Number(bits) => Some(bits),
                _ => None,
            }),
    {
        match self {
            Value::Number(bits) => Some(bits),
            _ => None,
        }
    }

    /// The string identifier, if the value is a string.
    pub fn as_string_id(self) -> (id: Option<StringId>)
        ensures
            id == (match self {
                Value::Str(id) => Some(id),
                _ => None,
            }),
    {
        match self {
            Value::Str(id) => Some(id),
            _ => None,
        }
    }

    /// The place on the heap, if the value is an object.
    pub fn as_object_id(self) -> (id: Option<usize>)
        ensures
            id == (match self {
                Value::Object(id) => Some(id),
                _ => None,
            }),
    {
        match self {
            Value::Object(id) => Some(id),
            _ => None,
        }
    }
}

} // verus!
