use vstd::prelude::*;

verus! {

/// The manufacturer name that the JEP106 table assigns to a continuation
/// code `cc` and an identification code `id`, if it lists one.
pub uninterp spec fn jep106_manufacturer(cc: u8, id: u8) -> Option<Seq<char>>;

/// Looks up a manufacturer name with `jep106::JEP106Code::get_raw`.
///
/// Trusted: the contract claims only that the result is the table's entry for
/// `(cc, id)`, named by `jep106_manufacturer`; the table itself is not stated.
#[verifier::external_body]
fn manufacturer_name(cc: u8, id: u8) -> (r: Option<&'static str>)
    ensures
        r is Some <==> jep106_manufacturer(cc, id) is Some,
        r matches Some(name) ==> jep106_manufacturer(cc, id) == Some(name@),
{
    jep106::JEP106Code::get_raw(cc, id)
}

/// A JEP106 manufacturer code: a bank (continuation code) and an id within it.
#[derive(Debug, Clone, Copy, PartialEq, Eq)]
pub struct Jep106Code {
    /// JEP106 identification code within the bank `cc`.
    pub id: u8,
    /// JEP106 continuation code (the bank).
    pub cc: u8,
}

impl Jep106Code {
    /// Creates a code from a continuation code and an identification code.
    pub fn new(cc: u8, id: u8) -> (r: Self)
        ensures
            r.cc == cc,
            r.id == id,
    {
        Jep106Code { id, cc }
    }

    /// The manufacturer this code designates, as the JEP106 table lists it.
    pub open spec fn spec_manufacturer(self) -> Option<Seq<char>> {
        jep106_manufacturer(self.cc, self.id)
    }

    /// Returns the manufacturer name of this code, if the table knows it.
    pub fn get(&self) -> (r: Option<&'static str>)
        ensures
            r is Some <==> self.spec_manufacturer() is Some,
            r matches Some(name) ==> self.spec_manufacturer() == Some(name@),
    {
        manufacturer_name(self.cc, self.id)
    }
}

/// Compares two string slices character by character.
pub(crate) fn str_eq(a: &str, b: &str) -> (r: bool)
    ensures
        r == (a@ == b@),
{
    let n = a.unicode_len();
    let m = b.unicode_len();
    if n != m {
        return false;
    }
    let mut i: usize = 0;
    while i < n
        invariant
            n == a@.len(),
            m == b@.len(),
            n == m,
            i <= n,
            forall|j: int| 0 <= j < i ==> a@[j] == b@[j],
        decreases n - i,
    {
        let x = a.get_char(i);
        let y = b.get_char(i);
        if x != y {
            return false;
        }
        i = i + 1;
    }
    assert(a@ =~= b@);
    true
}

} // verus!
