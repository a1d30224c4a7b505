use vstd::prelude::*;

verus! {

/// A value read from a remote attribute, before it is decoded into the type
/// that the caller asked for.
#[derive(Clone, Debug, PartialEq, Eq)]
pub enum Value {
    Null,
    Bool(bool),
    Int(i64),
    Text(String),
    /// Any other value (a fraction, an array, a composite), in its JSON text.
    Other(String),
}

/// Types that an attribute value can be decoded into.
pub trait FromValue: Sized {
    /// The decoded value, or `None` where `v` does not hold a value of this type.
    spec fn decode(v: Value) -> Option<Self>;

    fn from_value(v: Value) -> (r: Option<Self>)
        ensures
            r == Self::decode(v),
    ;
}

impl FromValue for Value {
    open spec fn decode(v: Value) -> Option<Value> {
        Some(v)
    }

    fn from_value(v: Value) -> (r: Option<Value>) {
        Some(v)
    }
}

impl FromValue for bool {
    open spec fn decode(v: Value) -> Option<bool> {
        match v {
            Value::Bool(b) => Some(b),
            _ => None,
        }
    }

    fn from_value(v: Value) -> (r: Option<bool>) {
        match v {
            Value::Bool(b) => Some(b),
            _ => None,
        }
    }
}

impl FromValue for i64 {
    open spec fn decode(v: Value) -> Option<i64> {
        match v {
            Value::Int(i) => Some(i),
            _ => None,
        }
    }

    fn from_value(v: Value) -> (r: Option<i64>) {
        match v {
            Value::Int(i) => Some(i),
            _ => None,
        }
    }
}

impl FromValue for i32 {
    open spec fn decode(v: Value) -> Option<i32> {
        match v {
            Value::Int(i) => if i32::MIN <= i <= i32::MAX {
                Some(i as i32)
            } else {
                None
            },
            _ => None,
        }
    }

    fn from_value(v: Value) -> (r: Option<i32>) {
        match v {
            Value::Int(i) => if i32::MIN as i64 <= i && i <= i32::MAX as i64 {
                Some(i as i32)
            } else {
                None
            },
            _ => None,
        }
    }
}

impl FromValue for u64 {
    open spec fn decode(v: Value) -> Option<u64> {
        match v {
            Value::Int(i) => if 0 <= i {
                Some(i as u64)
            } else {
                None
            },
            _ => None,
        }
    }

    fn from_value(v: Value) -> (r: Option<u64>) {
        match v {
            Value::Int(i) => if 0 <= i {
                Some(i as u64)
            } else {
                None
            },
            _ => None,
        }
    }
}

impl FromValue for String {
    open spec fn decode(v: Value) -> Option<String> {
        match v {
            Value::Text(s) => Some(s),
            _ => None,
        }
    }

    fn from_value(v: Value) -> (r: Option<String>) {
        match v {
            Value::Text(s) => Some(s),
            _ => None,
        }
    }
}

impl<T: FromValue> FromValue for Option<T> {
    /// `Null` decodes to `None`; anything else as `T` does.
    open spec fn decode(v: Value) -> Option<Option<T>> {
        match v {
            Value::Null => Some(None),
            _ => match T::decode(v) {
                Some(t) => Some(Some(t)),
                None => None,
            },
        }
    }

    fn from_value(v: Value) -> (r: Option<Option<T>>) {
        match v {
            Value::Null => Some(None),
            _ => match T::from_value(v) {
                Some(t) => Some(Some(t)),
                None => None,
            },
        }
    }
}

} // verus!
