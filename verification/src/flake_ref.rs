//! A flake reference: the location of a flake, kept as the text it was given as.

use vstd::prelude::*;
use vstd::std_specs::cmp::PartialEqSpecImpl;
use vstd::std_specs::convert::FromSpecImpl;

verus! {

/// A flake reference. It holds the text it was made from, unchanged and
/// unchecked: whether the text names a flake that exists is for whoever
/// builds it to find out.
#[derive(Debug)]
pub struct FlakeRef(String);

impl View for FlakeRef {
    type V = Seq<char>;

    closed spec fn view(&self) -> Seq<char> {
        self.0@
    }
}

impl FlakeRef {
    /// The reference that holds `text`.
    pub fn new(text: String) -> (r: FlakeRef)
        ensures
            r@ == text@,
    {
        FlakeRef(text)
    }

    /// The text of the reference.
    pub fn as_str(&self) -> (r: &str)
        ensures
            r@ == self@,
    {
        self.0.as_str()
    }

    /// The text of the reference, as it is shown to the user.
    pub fn to_string(&self) -> (r: String)
        ensures
            r@ == self@,
    {
        self.0.clone()
    }

    /// The text of the reference, given up by value.
    pub fn into_string(self) -> (r: String)
        ensures
            r@ == self@,
    {
        self.0
    }
}

impl From<&str> for FlakeRef {
    fn from(s: &str) -> (r: FlakeRef)
        ensures
            r@ == s@,
    {
        FlakeRef(s.to_owned())
    }
}

impl FromSpecImpl<&str> for FlakeRef {
    open spec fn obeys_from_spec() -> bool {
        false
    }

    open spec fn from_spec(s: &str) -> FlakeRef {
        arbitrary()
    }
}

impl Clone for FlakeRef {
    fn clone(&self) -> (r: FlakeRef)
        ensures
            r@ == self@,
    {
        FlakeRef(self.0.clone())
    }
}

impl core::ops::Deref for FlakeRef {
    type Target = String;

    fn deref(&self) -> (r: &String)
        ensures
            r@ == self@,
    {
        &self.0
    }
}

impl AsRef<str> for FlakeRef {
    fn as_ref(&self) -> (r: &str)
        ensures
            r@ == self@,
    {
        self.0.as_str()
    }
}

impl Default for FlakeRef {
    fn default() -> (r: FlakeRef)
        ensures
            r@ == Seq::<char>::empty(),
    {
        FlakeRef(String::new())
    }
}

impl PartialEq for FlakeRef {
    fn eq(&self, other: &FlakeRef) -> (r: bool) {
        self.0 == other.0
    }
}

impl Eq for FlakeRef {}

impl PartialEqSpecImpl for FlakeRef {
    open spec fn obeys_eq_spec() -> bool {
        true
    }

    open spec fn eq_spec(&self, other: &FlakeRef) -> bool {
        self@ == other@
    }
}

} // verus!
