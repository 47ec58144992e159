use vstd::prelude::*;
use crate::extern_git::{oid_bytes, oid_bytes_of};

verus! {

/// Length in bytes of a SHA-1 object identifier.
pub const OID_LEN: usize = 20;

/// The content hash that names a git object, held as its raw bytes.
#[derive(Debug)]
pub struct ObjectId {
    bytes: Vec<u8>,
}

impl View for ObjectId {
    type V = Seq<u8>;

    closed spec fn view(&self) -> Seq<u8> {
        self.bytes@
    }
}

impl ObjectId {
    #[verifier::type_invariant]
    closed spec fn inv(&self) -> bool {
        self.bytes@.len() == OID_LEN
    }

    /// Builds an identifier from its raw bytes; `None` unless there are
    /// exactly `OID_LEN` of them.
    pub fn from_bytes(bytes: Vec<u8>) -> (r: Option<ObjectId>)
        ensures
            r is Some <==> bytes@.len() == OID_LEN,
            r matches Some(id) ==> id@ == bytes@,
    {
        if bytes.len() == OID_LEN {
            Some(ObjectId { bytes })
        } else {
            None
        }
    }

    /// The identifier that git reports in `o`.
    pub(crate) fn from_git(o: &git2::Oid) -> (r: ObjectId)
        ensures
            r@ == oid_bytes_of(*o),
    {
        ObjectId { bytes: oid_bytes(o) }
    }

    /// The raw bytes of the identifier.
    pub fn as_bytes(&self) -> (r: &[u8])
        ensures
            r@ == self@,
            r@.len() == OID_LEN,
    {
        proof {
            use_type_invariant(self);
        }
        self.bytes.as_slice()
    }
}

impl Clone for ObjectId {
    fn clone(&self) -> (r: ObjectId)
        ensures
            r@ == self@,
    {
        proof {
            use_type_invariant(self);
        }
        ObjectId { bytes: self.bytes.clone() }
    }
}

impl PartialEq for ObjectId {
    fn eq(&self, other: &ObjectId) -> (r: bool) {
        proof {
            use_type_invariant(self);
            use_type_invariant(other);
        }
        let mut i: usize = 0;
        while i < OID_LEN
            invariant
                i <= OID_LEN,
                self.bytes@.len() == OID_LEN,
                other.bytes@.len() == OID_LEN,
                forall|j: int| 0 <= j < i ==> self.bytes@[j] == other.bytes@[j],
            decreases OID_LEN - i,
        {
            if self.bytes[i] != other.bytes[i] {
                return false;
            }
            i = i + 1;
        }
        assert(self.bytes@ =~= other.bytes@);
        true
    }
}

impl vstd::std_specs::cmp::PartialEqSpecImpl for ObjectId {
    open spec fn obeys_eq_spec() -> bool {
        true
    }

    open spec fn eq_spec(&self, other: &ObjectId) -> bool {
        self@ == other@
    }
}

} // verus!
