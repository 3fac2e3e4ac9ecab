//! Account identifiers.
//!
//! A principal is an opaque identifier of at most 29 raw bytes.  It names the
//! ledger, the miners, their owners and every account that holds a balance.

use vstd::prelude::*;
use vstd::slice::slice_subrange;
use vstd::std_specs::cmp::PartialEqSpecImpl;

verus! {

/// The greatest number of bytes an identifier may hold.
pub const MAX_PRINCIPAL_LEN: usize = 29;

/// The only byte of the anonymous identifier.
pub const ANONYMOUS_TAG: u8 = 4;

/// An account identifier: up to 29 raw bytes.
///
/// The bytes are kept in a fixed buffer that is zero past the length, so two
/// identifiers are the same value exactly when they hold the same bytes.
#[derive(Clone, Copy, Debug)]
pub struct Principal {
    len: u8,
    bytes: [u8; 29],
}

/// The textual form of an identifier, as ASCII bytes: the base-32 rendering
/// of a checksum followed by the identifier's bytes, in groups of five
/// characters separated by dashes.
pub uninterp spec fn principal_text(bytes: Seq<u8>) -> Seq<u8>;

impl Principal {
    /// The length is within the buffer and the unused tail is zero.
    #[verifier::type_invariant]
    pub closed spec fn wf(self) -> bool {
        &&& self.len <= 29
        &&& forall|i: int| self.len <= i < 29 ==> self.bytes[i] == 0
    }

    /// The identifier as a sequence of bytes.
    pub closed spec fn view(self) -> Seq<u8> {
        self.bytes@.take(self.len as int)
    }

    /// The byte sequence of the anonymous identifier.
    pub open spec fn anonymous_bytes() -> Seq<u8> {
        seq![ANONYMOUS_TAG]
    }

    /// Whether this is the anonymous identifier.
    pub open spec fn is_anonymous_spec(self) -> bool {
        self@ == Self::anonymous_bytes()
    }

    /// The identifier that holds exactly `bytes`.
    pub open spec fn with_bytes(bytes: Seq<u8>) -> Principal {
        choose|p: Principal| p.wf() && p@ == bytes
    }

    /// An identifier is the one that holds its bytes.
    pub proof fn lemma_with_bytes(self)
        requires
            self.wf(),
        ensures
            Self::with_bytes(self@) == self,
    {
        let p = Self::with_bytes(self@);
        p.lemma_view_injective(self);
    }

    /// Well-formed identifiers with the same bytes are the same value.
    pub proof fn lemma_view_injective(self, other: Principal)
        requires
            self.wf(),
            other.wf(),
            self@ == other@,
        ensures
            self == other,
    {
        assert(self.len == other.len) by {
            assert(self@.len() == self.len);
            assert(other@.len() == other.len);
        }
        assert forall|i: int| 0 <= i < 29 implies self.bytes[i] == other.bytes[i] by {
            if i < self.len {
                assert(self@[i] == self.bytes[i]);
                assert(other@[i] == other.bytes[i]);
            }
        }
        assert(self.bytes =~= other.bytes);
    }

    /// Builds an identifier from raw bytes; `None` when there are more than 29.
    pub fn from_slice(data: &[u8]) -> (r: Option<Principal>)
        ensures
            r is Some <==> data@.len() <= 29,
            r is Some ==> r->0.wf() && r->0@ == data@,
    {
        if data.len() > MAX_PRINCIPAL_LEN {
            return None;
        }
        let mut bytes: [u8; 29] = [0u8; 29];
        let mut i: usize = 0;
        while i < data.len()
            invariant
                i <= data.len() <= 29,
                forall|j: int| 0 <= j < i ==> bytes[j] == data@[j],
                forall|j: int| i <= j < 29 ==> bytes[j] == 0,
            decreases data.len() - i,
        {
            bytes[i] = data[i];
            i += 1;
        }
        let p = Principal { len: data.len() as u8, bytes };
        assert(p@ =~= data@);
        Some(p)
    }

    /// The anonymous identifier: the single byte 4.
    pub fn anonymous() -> (r: Principal)
        ensures
            r.wf(),
            r.is_anonymous_spec(),
    {
        let mut bytes: [u8; 29] = [0u8; 29];
        bytes[0] = ANONYMOUS_TAG;
        let p = Principal { len: 1, bytes };
        assert(p@ =~= Self::anonymous_bytes());
        p
    }

    /// The identifier of the platform's management interface: no bytes.
    pub fn management_canister() -> (r: Principal)
        ensures
            r.wf(),
            r@ == Seq::<u8>::empty(),
    {
        let p = Principal { len: 0, bytes: [0u8; 29] };
        assert(p@ =~= Seq::<u8>::empty());
        p
    }

    /// Builds an identifier from ten bytes, the length of a canister's.
    pub fn from_array(bytes: [u8; 10]) -> (r: Principal)
        ensures
            r.wf(),
            r@ == bytes@,
    {
        match Principal::from_slice(bytes.as_slice()) {
            Some(p) => p,
            None => Principal::management_canister(),
        }
    }

    /// The identifier's bytes.
    pub fn as_slice(&self) -> (r: &[u8])
        ensures
            self.wf(),
            r@ == self@,
            r@.len() <= 29,
    {
        proof {
            use_type_invariant(self);
        }
        let all = self.bytes.as_slice();
        slice_subrange(all, 0, self.len as usize)
    }

    /// The number of bytes in the identifier.
    pub fn len(&self) -> (r: usize)
        ensures
            r == self@.len(),
            r <= 29,
    {
        proof {
            use_type_invariant(self);
        }
        self.len as usize
    }

    /// Whether this is the anonymous identifier.
    pub fn is_anonymous(&self) -> (r: bool)
        ensures
            r == self.is_anonymous_spec(),
    {
        proof {
            use_type_invariant(self);
        }
        let r = self.len == 1 && self.bytes[0] == ANONYMOUS_TAG;
        proof {
            if r {
                assert(self@ =~= Self::anonymous_bytes());
            } else if self.len == 1 {
                assert(self@[0] == self.bytes[0]);
            } else {
                assert(self@.len() != 1);
            }
        }
        r
    }

    /// The textual form of the identifier, as ASCII bytes.
    ///
    /// Calls `candid::Principal::to_text` on the same bytes; the contract
    /// names its result and claims nothing else of it.
    #[verifier::external_body]
    pub(crate) fn text_of(&self) -> (r: Vec<u8>)
        requires
            self.wf(),
        ensures
            r@ == principal_text(self@),
    {
        candid::Principal::from_slice(self.as_slice()).to_text().into_bytes()
    }

    /// The textual form of the identifier, as ASCII bytes.
    pub fn text_bytes(&self) -> (r: Vec<u8>)
        ensures
            r@ == principal_text(self@),
    {
        proof {
            use_type_invariant(self);
        }
        self.text_of()
    }
}

impl PartialEq for Principal {
    fn eq(&self, other: &Principal) -> (r: bool) {
        if self.len != other.len {
            return false;
        }
        let mut i: usize = 0;
        while i < 29
            invariant
                i <= 29,
                forall|j: int| 0 <= j < i ==> self.bytes[j] == other.bytes[j],
            decreases 29 - i,
        {
            if self.bytes[i] != other.bytes[i] {
                return false;
            }
            i += 1;
        }
        assert(self.bytes =~= other.bytes);
        true
    }
}

impl PartialEqSpecImpl for Principal {
    open spec fn obeys_eq_spec() -> bool {
        true
    }

    open spec fn eq_spec(&self, other: &Principal) -> bool {
        *self == *other
    }
}

impl Eq for Principal {

}

} // verus!
