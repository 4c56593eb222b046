use vstd::prelude::*;

verus! {

/// Owned handle on a native image collection, identified by the address of
/// the native structure. Two handles on the same address compare equal.
#[derive(Debug, PartialEq, Eq, Structural)]
pub struct Pixa {
    addr: usize,
}

impl View for Pixa {
    type V = usize;

    closed spec fn view(&self) -> usize {
        self.addr
    }
}

impl Pixa {
    /// Takes ownership of the native collection at `addr`.
    pub fn new_from_pointer(addr: usize) -> (r: Pixa)
        ensures
            r@ == addr,
    {
        Pixa { addr }
    }

    /// The handle for the address that a native constructor returned: none
    /// when the constructor returned null, as it does for a file that is
    /// missing or that it cannot parse.
    pub fn from_native(addr: usize) -> (r: Option<Pixa>)
        ensures
            r is None <==> addr == 0,
            r matches Some(p) ==> p@ == addr,
    {
        if addr == 0 {
            None
        } else {
            Some(Pixa { addr })
        }
    }

    /// The address of the native collection.
    pub fn address(&self) -> (r: usize)
        ensures
            r == self@,
    {
        self.addr
    }
}

/// Handles are compared by the native structure they stand for.
pub proof fn lemma_same_address_same_handle(a: Pixa, b: Pixa)
    requires
        a@ == b@,
    ensures
        a == b,
{
}

/// The element of a native collection that holds `count` elements which the
/// index `i` designates: none when `i` lies outside `0..count`.
pub fn checked_index(count: i32, i: isize) -> (r: Option<i32>)
    ensures
        r == (if 0 <= i < count {
            Some(i as i32)
        } else {
            None::<i32>
        }),
{
    if i < 0 || i >= count as isize {
        None
    } else {
        Some(i as i32)
    }
}

} // verus!
