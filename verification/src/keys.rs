use anchor_lang::prelude::Pubkey;
use vstd::prelude::*;

verus! {

/// The ledger's 32-byte address type. The verifier carries its values around
/// without looking inside them.
#[verifier::external_type_specification]
#[verifier::external_body]
pub struct ExPubkey(anchor_lang::prelude::Pubkey);

/// Whether two addresses are the same, decided by `Pubkey`'s own `PartialEq::eq`.
///
/// `Pubkey` is a wrapper around its 32 bytes with a derived `PartialEq`, so `eq`
/// answers `true` exactly when both arguments are the same value. That is what
/// the contract claims; it is believed, not proved.
#[verifier::external_body]
pub(crate) fn same_key(a: &Pubkey, b: &Pubkey) -> (r: bool)
    ensures
        r == (*a == *b),
{
    a == b
}

} // verus!
