//! Account and contract addresses, held as their strkey text.
use vstd::prelude::*;

verus! {

/// An account or contract address, held by its strkey text
/// (for example `GA...` for an account, `CA...` for a contract).
#[derive(Debug, PartialEq, Eq)]
pub struct Address {
    strkey: String,
}

impl View for Address {
    type V = Seq<char>;

    closed spec fn view(&self) -> Seq<char> {
        self.strkey@
    }
}

impl Address {
    /// The address whose strkey text is `strkey`.
    pub fn from_strkey(strkey: String) -> (a: Address)
        ensures
            a@ == strkey@,
    {
        Address { strkey }
    }

    /// The strkey text of this address.
    pub fn strkey(&self) -> (s: &String)
        ensures
            s@ == self@,
    {
        &self.strkey
    }

    /// Whether two addresses are the same.
    pub fn same_as(&self, other: &Address) -> (b: bool)
        ensures
            b == (self@ == other@),
    {
        self.strkey == other.strkey
    }
}

/// The strkey text of an optional address.
pub open spec fn address_view(a: Option<Address>) -> Option<Seq<char>> {
    match a {
        Some(a) => Some(a@),
        None => None,
    }
}

impl Clone for Address {
    fn clone(&self) -> (a: Self)
        ensures
            a@ == self@,
    {
        Address { strkey: self.strkey.clone() }
    }
}

} // verus!
