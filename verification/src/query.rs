//! The parameters of a request.

use vstd::prelude::*;
use vstd::string::*;
use crate::decimal::{decimal, to_decimal};

verus! {

/// A value that can be sent as a parameter.
pub trait IntoArg {
    /// The value as it is written on the wire.
    spec fn wire(&self) -> Seq<char>;

    /// Writes the value as it goes on the wire.
    fn into_arg(self) -> (s: String)
        ensures
            s@ == self.wire(),
    ;
}

/// An integer is sent in decimal.
impl IntoArg for u64 {
    open spec fn wire(&self) -> Seq<char> {
        decimal(*self as nat)
    }

    fn into_arg(self) -> (s: String) {
        to_decimal(self)
    }
}

/// An integer is sent in decimal.
impl IntoArg for usize {
    open spec fn wire(&self) -> Seq<char> {
        decimal(*self as nat)
    }

    fn into_arg(self) -> (s: String) {
        to_decimal(self as u64)
    }
}

/// A boolean is sent as `true` or `false`.
impl IntoArg for bool {
    open spec fn wire(&self) -> Seq<char> {
        if *self {
            "true"@
        } else {
            "false"@
        }
    }

    fn into_arg(self) -> (s: String) {
        if self {
            "true".to_owned()
        } else {
            "false".to_owned()
        }
    }
}

/// A string is sent as it is.
impl IntoArg for &str {
    open spec fn wire(&self) -> Seq<char> {
        (*self)@
    }

    fn into_arg(self) -> (s: String) {
        self.to_owned()
    }
}

/// A string is sent as it is.
impl IntoArg for String {
    open spec fn wire(&self) -> Seq<char> {
        self@
    }

    fn into_arg(self) -> (s: String) {
        self
    }
}

/// The wire form of a value that may be absent.
pub open spec fn wire_of<A: IntoArg>(value: Option<A>) -> Option<Seq<char>> {
    match value {
        Some(v) => Some(v.wire()),
        None => None,
    }
}

/// `params`, followed by the parameter `key` where it has a value.
pub open spec fn with_arg(
    params: Seq<(Seq<char>, Seq<char>)>,
    key: Seq<char>,
    value: Option<Seq<char>>,
) -> Seq<(Seq<char>, Seq<char>)> {
    match value {
        Some(v) => params.push((key, v)),
        None => params,
    }
}

/// A builder of the parameters of one request. Each parameter is a name and a
/// value in wire form; the parameters keep the order in which they were added.
pub struct Query {
    params: Vec<(String, String)>,
}

impl View for Query {
    type V = Seq<(Seq<char>, Seq<char>)>;

    closed spec fn view(&self) -> Seq<(Seq<char>, Seq<char>)> {
        self.params.deep_view()
    }
}

impl Query {
    /// A builder that holds the one parameter `key`, with `value`.
    pub fn with<A: IntoArg>(key: &str, value: A) -> (q: Query)
        ensures
            q@ == seq![(key@, value.wire())],
    {
        let mut params: Vec<(String, String)> = Vec::new();
        params.push((key.to_owned(), value.into_arg()));
        assert(params.deep_view() =~= seq![(key@, value.wire())]);
        Query { params }
    }

    /// Adds the parameter `key` where a value is given. Without a value the
    /// parameter is left out: nothing stands for it on the wire.
    pub fn arg<A: IntoArg>(self, key: &str, value: Option<A>) -> (q: Query)
        ensures
            q@ == with_arg(self@, key@, wire_of(value)),
    {
        match value {
            Some(v) => {
                let mut params = self.params;
                let ghost before = params.deep_view();
                params.push((key.to_owned(), v.into_arg()));
                assert(params.deep_view() =~= before.push((key@, v.wire())));
                Query { params }
            },
            None => self,
        }
    }

    /// The parameters, ready for the wire. The builder is used up.
    pub fn build(self) -> (params: Vec<(String, String)>)
        ensures
            params.deep_view() == self@,
    {
        self.params
    }
}

} // verus!
