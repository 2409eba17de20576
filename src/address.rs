//! Account addresses and the canonical associated-token-account derivation.
use vstd::prelude::*;

verus! {

/// A 32-byte ledger account address.
#[derive(Clone, Copy, Debug, PartialEq, Eq, Hash)]
pub struct Address {
    pub bytes: [u8; 32],
}

impl View for Address {
    type V = Seq<u8>;

    open spec fn view(&self) -> Seq<u8> {
        self.bytes@
    }
}

/// The associated token account that the ledger derives for `owner` and `mint`.
pub uninterp spec fn associated_address_of(owner: Seq<u8>, mint: Seq<u8>) -> Seq<u8>;

/// Relies on anchor_spl::associated_token::get_associated_token_address: a program
/// address found from the owner, the token program and the mint, which depends on
/// those bytes alone.
#[verifier::external_body]
fn derive_associated(owner: &Address, mint: &Address) -> (r: Address)
    ensures
        r@ == associated_address_of(owner@, mint@),
{
    let ata = anchor_spl::associated_token::get_associated_token_address(
        &owner.bytes.into(),
        &mint.bytes.into(),
    );
    Address { bytes: ata.to_bytes() }
}

impl Address {
    /// Builds an address from its 32 bytes.
    pub fn new(bytes: [u8; 32]) -> (r: Address)
        ensures
            r.bytes == bytes,
    {
        Address { bytes }
    }

    /// Whether two addresses hold the same bytes.
    pub fn same_as(&self, other: &Address) -> (r: bool)
        ensures
            r == (self@ == other@),
    {
        let mut i: usize = 0;
        while i < 32
            invariant
                i <= 32,
                forall|j: int| 0 <= j < i ==> self@[j] == other@[j],
            decreases 32 - i,
        {
            if self.bytes[i] != other.bytes[i] {
                return false;
            }
            i = i + 1;
        }
        assert(self@ =~= other@);
        true
    }
}

/// The canonical associated token account for `owner` and `mint`.
pub fn associated_token_address(owner: &Address, mint: &Address) -> (r: Address)
    ensures
        r@ == associated_address_of(owner@, mint@),
{
    derive_associated(owner, mint)
}

/// Whether `account` is the canonical associated token account for `owner` and `mint`.
pub fn is_associated_token_address(account: &Address, owner: &Address, mint: &Address) -> (r: bool)
    ensures
        r == (account@ == associated_address_of(owner@, mint@)),
{
    let expected = derive_associated(owner, mint);
    account.same_as(&expected)
}

/// The derivation is a function of its inputs: equal owners and mints give
/// the same associated token account.
pub proof fn associated_address_deterministic(
    owner1: Address,
    mint1: Address,
    owner2: Address,
    mint2: Address,
)
    requires
        owner1@ == owner2@,
        mint1@ == mint2@,
    ensures
        associated_address_of(owner1@, mint1@) == associated_address_of(owner2@, mint2@),
{
}

} // verus!
