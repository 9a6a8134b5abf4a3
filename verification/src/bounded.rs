//! Byte strings of bounded length.

use vstd::prelude::*;

verus! {

/// A byte string of at most `S` bytes.
#[derive(Debug, PartialEq, Eq)]
pub struct BoundedBytes<const S: usize> {
    bytes: Vec<u8>,
}

impl<const S: usize> View for BoundedBytes<S> {
    type V = Seq<u8>;

    closed spec fn view(&self) -> Seq<u8> {
        self.bytes@
    }
}

impl<const S: usize> BoundedBytes<S> {
    #[verifier::type_invariant]
    spec fn within_bound(&self) -> bool {
        self.bytes@.len() <= S
    }

    /// The first `S` bytes of `unbound`, or all of it if it is shorter.
    pub open spec fn truncated(unbound: Seq<u8>) -> Seq<u8> {
        if unbound.len() <= S {
            unbound
        } else {
            unbound.take(S as int)
        }
    }

    /// The empty string.
    pub fn new() -> (r: Self)
        ensures
            r@ == Seq::<u8>::empty(),
    {
        BoundedBytes { bytes: Vec::new() }
    }

    /// Keeps the first `S` bytes of `unbound` and drops the rest.
    pub fn truncate_from(unbound: Vec<u8>) -> (r: Self)
        ensures
            r@ == Self::truncated(unbound@),
            r@.len() <= S,
    {
        let mut bytes = unbound;
        if bytes.len() > S {
            bytes.truncate(S);
        }
        assert(bytes@ =~= Self::truncated(unbound@));
        BoundedBytes { bytes }
    }

    /// `unbound` as it is, if it has at most `S` bytes.
    pub fn try_from_vec(unbound: Vec<u8>) -> (r: Option<Self>)
        ensures
            unbound@.len() <= S <==> r is Some,
            r is Some ==> r->0@ == unbound@,
    {
        if unbound.len() <= S {
            Some(BoundedBytes { bytes: unbound })
        } else {
            None
        }
    }

    /// The number of bytes.
    pub fn len(&self) -> (r: usize)
        ensures
            r == self@.len(),
            r <= S,
    {
        proof {
            use_type_invariant(self);
        }
        self.bytes.len()
    }

    /// The bytes.
    pub fn to_vec(&self) -> (r: Vec<u8>)
        ensures
            r@ == self@,
    {
        let r = self.bytes.clone();
        assert(r@ =~= self.bytes@);
        r
    }
}

impl<const S: usize> Clone for BoundedBytes<S> {
    fn clone(&self) -> (r: Self)
        ensures
            r@ == self@,
    {
        proof {
            use_type_invariant(self);
        }
        let bytes = self.bytes.clone();
        assert(bytes@ =~= self.bytes@);
        BoundedBytes { bytes }
    }
}

} // verus!
