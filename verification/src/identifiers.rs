//! Identifier type.
//!
//! Identifiers normally map to address types for different networks; here
//! they are always carried as 32 bytes, with EVM-style 20-byte addresses
//! right-aligned in the last 20 positions.

use vstd::prelude::*;

use crate::primitives::{H160, H256};

verus! {

/// A chain-agnostic 32-byte identifier for contracts and accounts.
#[derive(Clone, Copy, Debug, PartialEq, Eq, Hash)]
pub struct AetheriumIdentifier(pub H256);

/// True when the first 12 bytes are zero, so the value fits a 20-byte address.
pub open spec fn spec_is_ethereum_address(bytes: Seq<u8>) -> bool {
    forall|i: int| 0 <= i < 12 ==> bytes[i] == 0u8
}

impl View for AetheriumIdentifier {
    type V = Seq<u8>;

    open spec fn view(&self) -> Seq<u8> {
        self.0@
    }
}

impl AetheriumIdentifier {
    /// Check if the identifier is an ethereum address: the first 12 bytes
    /// must all be zero.
    pub fn is_ethereum_address(&self) -> (r: bool)
        ensures
            r == spec_is_ethereum_address(self@),
    {
        let bytes = self.0.as_bytes();
        let mut i: usize = 0;
        while i < 12
            invariant
                i <= 12,
                bytes@ == self@,
                self@.len() == 32,
                forall|j: int| 0 <= j < i ==> self@[j] == 0u8,
            decreases 12 - i,
        {
            if bytes[i] != 0 {
                return false;
            }
            i = i + 1;
        }
        true
    }

    /// Cast to an ethereum address by truncating to the last 20 bytes.
    pub fn as_ethereum_address(&self) -> (r: H160)
        ensures
            r@ == self@.subrange(12, 32),
    {
        let bytes = vstd::slice::slice_subrange(self.0.as_bytes(), 12, 32);
        H160::from_slice(bytes)
    }
}

impl Default for AetheriumIdentifier {
    fn default() -> (r: AetheriumIdentifier)
        ensures
            r@ == crate::primitives::spec_h256_zero(),
    {
        AetheriumIdentifier(H256::zero())
    }
}

impl From<H256> for AetheriumIdentifier {
    fn from(address: H256) -> AetheriumIdentifier {
        AetheriumIdentifier(address)
    }
}

impl vstd::std_specs::convert::FromSpecImpl<H256> for AetheriumIdentifier {
    open spec fn obeys_from_spec() -> bool {
        true
    }

    open spec fn from_spec(address: H256) -> AetheriumIdentifier {
        AetheriumIdentifier(address)
    }
}

impl From<AetheriumIdentifier> for H256 {
    fn from(addr: AetheriumIdentifier) -> H256 {
        addr.0
    }
}

impl vstd::std_specs::convert::FromSpecImpl<AetheriumIdentifier> for H256 {
    open spec fn obeys_from_spec() -> bool {
        true
    }

    open spec fn from_spec(addr: AetheriumIdentifier) -> H256 {
        addr.0
    }
}

/// The 32-byte widening of a 20-byte address: 12 zero bytes, then the address.
pub open spec fn spec_widen_address(addr: Seq<u8>) -> Seq<u8> {
    Seq::new(32, |i: int| if i < 12 { 0u8 } else { addr[i - 12] })
}

impl From<H160> for AetheriumIdentifier {
    fn from(address: H160) -> AetheriumIdentifier {
        let mut buf = [0u8; 32];
        let bytes = address.as_bytes();
        let mut i: usize = 0;
        while i < 20
            invariant
                i <= 20,
                bytes@ == address@,
                address@.len() == 20,
                buf@.len() == 32,
                forall|j: int| 0 <= j < 12 ==> buf@[j] == 0u8,
                forall|j: int| 12 <= j < 12 + i ==> buf@[j] == address@[j - 12],
                forall|j: int| 12 + i <= j < 32 ==> buf@[j] == 0u8,
            decreases 20 - i,
        {
            buf.set(12 + i, bytes[i]);
            i = i + 1;
        }
        let r = AetheriumIdentifier(H256(buf));
        assert(r@ =~= spec_widen_address(address@));
        proof {
            broadcast use vstd::array::group_array_axioms;

            assert(exists|x: AetheriumIdentifier| x@ == spec_widen_address(address@)) by {
                assert(r@ == spec_widen_address(address@));
            }
            let w = choose|x: AetheriumIdentifier| x@ == spec_widen_address(address@);
            assert(w.0.0@ =~= r.0.0@);
            assert(w.0.0 == r.0.0);
        }
        r
    }
}

impl vstd::std_specs::convert::FromSpecImpl<H160> for AetheriumIdentifier {
    open spec fn obeys_from_spec() -> bool {
        true
    }

    open spec fn from_spec(address: H160) -> AetheriumIdentifier {
        choose|x: AetheriumIdentifier| x@ == spec_widen_address(address@)
    }
}

} // verus!
