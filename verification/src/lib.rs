//! A minimal on-chain program: a single-instruction codec and a dispatcher
//! that validates the program identifier, decodes the instruction payload,
//! and routes to the matching handler.

pub mod error;
pub mod instruction;
pub mod processor;
pub mod pubkey;

use vstd::prelude::*;

use crate::pubkey::Pubkey;

verus! {

/// The identifier this program is deployed under, as a byte sequence.
pub open spec fn spec_id() -> Seq<u8> {
    seq![
        54u8, 121, 171, 115, 160, 50, 207, 116, 66, 172, 86, 15, 244, 8, 210, 51,
        7, 113, 233, 70, 131, 73, 193, 65, 201, 218, 134, 47, 136, 148, 90, 16,
    ]
}

/// The identifier this program is deployed under, fixed at deployment.
pub fn id() -> (r: Pubkey)
    ensures
        r@ == spec_id(),
{
    let r = Pubkey::new([
        54u8, 121, 171, 115, 160, 50, 207, 116, 66, 172, 86, 15, 244, 8, 210, 51,
        7, 113, 233, 70, 131, 73, 193, 65, 201, 218, 134, 47, 136, 148, 90, 16,
    ]);
    proof {
        assert(r@ =~= spec_id());
    }
    r
}

} // verus!
