//! The types of ink_primitives and parity-scale-codec that the library carries.
use ink_primitives::{AccountId, LangError};
use vstd::prelude::*;

verus! {

/// The 32-byte address of a deployed contract; Verus sees it as an opaque value.
#[verifier::external_type_specification]
#[verifier::external_body]
pub struct ExAccountId(AccountId);

/// The failure code that an ink! contract reports when it cannot route a call.
#[verifier::external_type_specification]
#[verifier::external_body]
pub struct ExLangError(LangError);

/// The error that SCALE decoding reports.
#[verifier::external_type_specification]
#[verifier::external_body]
pub struct ExScaleError(parity_scale_codec::Error);

/// Relies on the `Clone` that ink_primitives derives for `AccountId`, a `Copy` type: the
/// clone is the same address.
pub assume_specification[ <AccountId as Clone>::clone ](a: &AccountId) -> (r: AccountId)
    ensures
        r == *a,
;

/// Relies on the `PartialEq` that ink_primitives derives for `AccountId`: it compares
/// the 32 bytes that the address holds, so it agrees with equality of the values.
#[verifier::external_body]
pub(crate) fn same_account(a: &AccountId, b: &AccountId) -> (r: bool)
    ensures
        r == (*a == *b),
{
    a == b
}

} // verus!
