//! The account that holds the treasury's funds.

use vstd::prelude::*;
use sp_runtime::traits::AccountIdConversion;
use crate::types::AccountId;

verus! {

/// The eight bytes that identify this pallet: `treasury`.
pub open spec fn pallet_id() -> Seq<u8> {
    seq![0x74u8, 0x72u8, 0x65u8, 0x61u8, 0x73u8, 0x75u8, 0x72u8, 0x79u8]
}

/// The account of the pallet with identifier `id`: the little-endian number whose
/// first four bytes spell `modl` and whose last four are the first four of `id`.
pub open spec fn account_of(id: Seq<u8>) -> int
    recommends
        id.len() == 8,
{
    0x6c64_6f6d + id[0] * 0x1_0000_0000 + id[1] * 0x100_0000_0000 + id[2] * 0x1_0000_0000_0000
        + id[3] * 0x100_0000_0000_0000
}

/// The account of the treasury.
pub open spec fn treasury_account() -> AccountId {
    0x6165_7274_6c64_6f6d
}

/// Calls `AccountIdConversion::into_account_truncating` of `sp_runtime` on a
/// `frame_support::PalletId`.
///
/// Trusted: the identifier is encoded behind the four bytes `modl`, and the account
/// is decoded from the first eight bytes of that, least significant byte first.
#[verifier::external_body]
fn pallet_account(id: [u8; 8]) -> (r: AccountId)
    ensures
        r == account_of(id@),
{
    frame_support::PalletId(id).into_account_truncating()
}

/// The account of the treasury.
pub fn treasury_account_id() -> (r: AccountId)
    ensures
        r == treasury_account(),
{
    let id: [u8; 8] = [0x74, 0x72, 0x65, 0x61, 0x73, 0x75, 0x72, 0x79];
    proof {
        assert(id@ =~= pallet_id());
    }
    pallet_account(id)
}

} // verus!
