use vstd::prelude::*;

verus! {

/// A ledger address, held as its strkey text (`G...` for accounts, `C...`
/// for contracts).
#[derive(Clone, Debug)]
pub struct Address {
    pub strkey: String,
}

impl View for Address {
    type V = Seq<char>;

    open spec fn view(&self) -> Seq<char> {
        self.strkey@
    }
}

impl Address {
    /// An address from its strkey text.
    pub fn from_strkey(s: &str) -> (r: Address)
        ensures
            r@ == s@,
    {
        Address { strkey: s.to_owned() }
    }

    /// A copy that is the same value as `self`.
    pub fn copied(&self) -> (r: Address)
        ensures
            r == *self,
    {
        Address { strkey: self.strkey.clone() }
    }

    /// Whether both name the same ledger address.
    pub fn same_as(&self, other: &Address) -> (r: bool)
        ensures
            r == (self@ == other@),
    {
        self.strkey == other.strkey
    }
}

impl PartialEq for Address {
    fn eq(&self, other: &Address) -> (r: bool) {
        self.same_as(other)
    }
}

impl vstd::std_specs::cmp::PartialEqSpecImpl for Address {
    open spec fn obeys_eq_spec() -> bool {
        true
    }

    open spec fn eq_spec(&self, other: &Address) -> bool {
        self@ == other@
    }
}

impl Eq for Address {
}

} // verus!
