//! A message wrapper carrying either one payload or a batch of payloads.
use vstd::prelude::*;

verus! {

/// Represents a wrapper around a message, supporting single and batch payloads.
#[derive(Clone, Debug, PartialEq, Eq)]
pub enum Msg<T> {
    Single(T),
    Batch(Vec<T>),
}

impl<T> Msg<T> {
    /// The payloads carried by the message, in order.
    pub open spec fn payloads(&self) -> Seq<T> {
        match self {
            Msg::Single(x) => seq![*x],
            Msg::Batch(v) => v@,
        }
    }

    /// Creates a new msg with a singular payload.
    pub fn single(payload: T) -> (r: Self)
        ensures
            r == Msg::Single(payload),
    {
        Msg::Single(payload)
    }

    /// Creates a new msg with a batch payload.
    pub fn batch(payloads: Vec<T>) -> (r: Self)
        ensures
            r matches Msg::Batch(v) && v@ == payloads@,
    {
        Msg::Batch(payloads)
    }

    /// Returns true if msg has a single payload.
    pub fn is_single(&self) -> (r: bool)
        ensures
            r == (self is Single),
    {
        match self {
            Msg::Single(_) => true,
            _ => false,
        }
    }

    /// Returns reference to single value if msg is single variant.
    pub fn as_single(&self) -> (r: Option<&T>)
        ensures
            match self {
                Msg::Single(x) => r == Some(x),
                Msg::Batch(_) => r is None,
            },
    {
        match self {
            Msg::Single(x) => Some(x),
            _ => None,
        }
    }

    /// Returns mutable reference to single value if msg is single variant.
    pub fn as_mut_single(&mut self) -> (r: Option<&mut T>)
        ensures
            match *old(self) {
                Msg::Single(x) => r matches Some(m) && *m == x && *final(self) == Msg::Single(
                    *final(m),
                ),
                Msg::Batch(_) => r is None && *final(self) == *old(self),
            },
    {
        match self {
            Msg::Single(x) => Some(x),
            _ => None,
        }
    }

    /// Returns the single value if msg is single variant.
    pub fn into_single(self) -> (r: Option<T>)
        ensures
            match self {
                Msg::Single(x) => r == Some(x),
                Msg::Batch(_) => r is None,
            },
    {
        match self {
            Msg::Single(x) => Some(x),
            _ => None,
        }
    }

    /// Returns true if msg has a batch of payloads.
    pub fn is_batch(&self) -> (r: bool)
        ensures
            r == (self is Batch),
    {
        match self {
            Msg::Batch(_) => true,
            _ => false,
        }
    }

    /// Returns reference to batch value if msg is batch variant.
    pub fn as_batch(&self) -> (r: Option<&[T]>)
        ensures
            match self {
                Msg::Batch(v) => r matches Some(s) && s@ == v@,
                Msg::Single(_) => r is None,
            },
    {
        match self {
            Msg::Batch(x) => Some(x.as_slice()),
            _ => None,
        }
    }

    /// Returns mutable reference to batch value if msg is batch variant.
    pub fn as_mut_batch(&mut self) -> (r: Option<&mut [T]>)
        ensures
            match *old(self) {
                Msg::Batch(v) => r matches Some(s) && s@ == v@ && final(self).payloads() == final(s)@ && *final(self) is Batch,
                Msg::Single(_) => r is None && *final(self) == *old(self),
            },
    {
        match self {
            Msg::Batch(x) => Some(x.as_mut_slice()),
            _ => None,
        }
    }

    /// Returns the batch value if msg is batch variant.
    pub fn into_batch(self) -> (r: Option<Vec<T>>)
        ensures
            match self {
                Msg::Batch(v) => r == Some(v),
                Msg::Single(_) => r is None,
            },
    {
        match self {
            Msg::Batch(x) => Some(x),
            _ => None,
        }
    }

    /// Convert into a collection of payload data.
    pub fn into_vec(self) -> (r: Vec<T>)
        ensures
            r@ == self.payloads(),
    {
        match self {
            Msg::Single(x) => {
                let mut v = Vec::new();
                v.push(x);
                v
            },
            Msg::Batch(x) => x,
        }
    }
}

impl<T> From<T> for Msg<T> {
    fn from(x: T) -> (r: Self) {
        Msg::Single(x)
    }
}

impl<T> vstd::std_specs::convert::FromSpecImpl<T> for Msg<T> {
    open spec fn obeys_from_spec() -> bool {
        true
    }

    open spec fn from_spec(v: T) -> Self {
        Msg::Single(v)
    }
}

impl<T> From<Vec<T>> for Msg<T> {
    fn from(x: Vec<T>) -> (r: Self) {
        Msg::Batch(x)
    }
}

impl<T> vstd::std_specs::convert::FromSpecImpl<Vec<T>> for Msg<T> {
    open spec fn obeys_from_spec() -> bool {
        true
    }

    open spec fn from_spec(v: Vec<T>) -> Self {
        Msg::Batch(v)
    }
}

} // verus!
