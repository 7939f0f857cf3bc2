//! Account addresses and role names.
//!
//! Both are identities: the rest of the library only ever asks whether two of
//! them are the same. Each is held in its textual form and viewed as the
//! sequence of its characters.

use vstd::prelude::*;
use vstd::std_specs::cmp::PartialEqSpecImpl;

verus! {

/// The identity of an account or contract, in its textual form.
#[derive(Debug, Eq, Hash)]
pub struct Address {
    text: String,
}

impl View for Address {
    type V = Seq<char>;

    closed spec fn view(&self) -> Seq<char> {
        self.text@
    }
}

impl Address {
    /// The address written as `text`.
    pub fn new(text: &str) -> (address: Address)
        ensures
            address@ == text@,
    {
        Address { text: text.to_owned() }
    }

    /// The textual form of the address.
    pub fn as_str(&self) -> (text: &str)
        ensures
            text@ == self@,
    {
        self.text.as_str()
    }
}

impl Clone for Address {
    fn clone(&self) -> (copy: Address)
        ensures
            copy@ == self@,
    {
        Address { text: self.text.clone() }
    }
}

impl PartialEq for Address {
    fn eq(&self, other: &Address) -> (same: bool) {
        self.text == other.text
    }
}

impl PartialEqSpecImpl for Address {
    open spec fn obeys_eq_spec() -> bool {
        true
    }

    open spec fn eq_spec(&self, other: &Address) -> bool {
        self@ == other@
    }
}

/// A short name, used for roles and for event topics.
#[derive(Debug, Eq, Hash)]
pub struct Symbol {
    name: String,
}

impl View for Symbol {
    type V = Seq<char>;

    closed spec fn view(&self) -> Seq<char> {
        self.name@
    }
}

impl Symbol {
    /// The symbol spelled `name`.
    pub fn new(name: &str) -> (symbol: Symbol)
        ensures
            symbol@ == name@,
    {
        Symbol { name: name.to_owned() }
    }

    /// The spelling of the symbol.
    pub fn as_str(&self) -> (name: &str)
        ensures
            name@ == self@,
    {
        self.name.as_str()
    }
}

impl Clone for Symbol {
    fn clone(&self) -> (copy: Symbol)
        ensures
            copy@ == self@,
    {
        Symbol { name: self.name.clone() }
    }
}

impl PartialEq for Symbol {
    fn eq(&self, other: &Symbol) -> (same: bool) {
        self.name == other.name
    }
}

impl PartialEqSpecImpl for Symbol {
    open spec fn obeys_eq_spec() -> bool {
        true
    }

    open spec fn eq_spec(&self, other: &Symbol) -> bool {
        self@ == other@
    }
}

} // verus!
