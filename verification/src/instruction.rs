//! Instruction types: the closed set of operations this program supports,
//! their wire encoding, and builders that produce ready-to-submit requests.

use vstd::prelude::*;

use crate::error::ErrorKind;
use crate::pubkey::Pubkey;

verus! {

/// The wire tag of `SkeletonInstruction::DoSomething`.
pub const DO_SOMETHING_TAG: u8 = 0;

/// The operations this program supports, identified on the wire by a
/// one-byte tag.
#[derive(Clone, Copy, Debug, PartialEq, Eq, Structural)]
pub enum SkeletonInstruction {
    ///   Do something
    ///
    ///   0. `[]` Some account
    DoSomething,
}

impl SkeletonInstruction {
    /// The canonical serialized form of a variant: its tag byte followed by
    /// its fields (none yet).
    pub open spec fn spec_encode(self) -> Seq<u8> {
        match self {
            SkeletonInstruction::DoSomething => seq![DO_SOMETHING_TAG],
        }
    }

    /// The variant a byte sequence decodes to, if any: decoding succeeds on
    /// exactly the canonical encodings and nothing else.
    pub open spec fn spec_decode(bytes: Seq<u8>) -> Option<SkeletonInstruction> {
        if bytes.len() == 1 && bytes[0] == DO_SOMETHING_TAG {
            Some(SkeletonInstruction::DoSomething)
        } else {
            None
        }
    }

    /// What decoding returns: the decoded variant, or the error that marks a
    /// payload no variant produced.
    pub open spec fn spec_decode_result(bytes: Seq<u8>) -> Result<SkeletonInstruction, ErrorKind> {
        match Self::spec_decode(bytes) {
            Some(v) => Ok(v),
            None => Err(ErrorKind::MalformedInstructionData),
        }
    }

    /// Serializes the variant; deterministic, so equal inputs give equal
    /// bytes across calls.
    pub fn encode(&self) -> (r: Vec<u8>)
        ensures
            r@ == self.spec_encode(),
    {
        let mut r: Vec<u8> = Vec::new();
        match self {
            SkeletonInstruction::DoSomething => {
                r.push(DO_SOMETHING_TAG);
            },
        }
        proof {
            assert(r@ =~= self.spec_encode());
        }
        r
    }

    /// Deserializes a payload, rejecting anything that is not the canonical
    /// encoding of a variant.
    pub fn decode(input: &[u8]) -> (r: Result<SkeletonInstruction, ErrorKind>)
        ensures
            r == Self::spec_decode_result(input@),
    {
        if input.len() == 1 && input[0] == DO_SOMETHING_TAG {
            Ok(SkeletonInstruction::DoSomething)
        } else {
            Err(ErrorKind::MalformedInstructionData)
        }
    }
}

/// One account a request names, with its access flags.
#[derive(Clone, Copy, Debug, PartialEq, Eq)]
pub struct AccountMeta {
    pub pubkey: Pubkey,
    pub is_signer: bool,
    pub is_writable: bool,
}

/// A ready-to-submit request: the program to invoke, the ordered accounts it
/// will see, and the serialized instruction payload.
pub struct Instruction {
    pub program_id: Pubkey,
    pub accounts: Vec<AccountMeta>,
    pub data: Vec<u8>,
}

/// Creates a `DoSomething` instruction: one read-only, non-signer account and
/// the canonical `DoSomething` payload.
pub fn do_something(program_id: &Pubkey, some_account: &Pubkey) -> (r: Instruction)
    ensures
        r.program_id@ == program_id@,
        r.accounts@.len() == 1,
        r.accounts@[0].pubkey@ == some_account@,
        !r.accounts@[0].is_signer,
        !r.accounts@[0].is_writable,
        r.data@ == SkeletonInstruction::DoSomething.spec_encode(),
{
    let data = SkeletonInstruction::DoSomething.encode();
    let mut accounts: Vec<AccountMeta> = Vec::new();
    accounts.push(AccountMeta { pubkey: *some_account, is_signer: false, is_writable: false });

    Instruction { program_id: *program_id, accounts, data }
}

/// Round-trip law: decoding the canonical encoding of any variant yields
/// exactly that variant.
pub proof fn lemma_round_trip(v: SkeletonInstruction)
    ensures
        SkeletonInstruction::spec_decode(v.spec_encode()) == Some(v),
{
}

/// Rejection law: a canonical encoding with any trailing byte appended no
/// longer decodes.
pub proof fn lemma_reject_trailing_byte(v: SkeletonInstruction, garbage: u8)
    ensures
        SkeletonInstruction::spec_decode(v.spec_encode().push(garbage)) is None,
{
}

/// Rejection law: bytes that are not the canonical encoding of any variant
/// fail to decode with `MalformedInstructionData`.
pub proof fn lemma_reject_unknown(bytes: Seq<u8>)
    requires
        forall|v: SkeletonInstruction| bytes != #[trigger] v.spec_encode(),
    ensures
        SkeletonInstruction::spec_decode_result(bytes) == Err::<SkeletonInstruction, ErrorKind>(
            ErrorKind::MalformedInstructionData,
        ),
{
    assert(bytes != SkeletonInstruction::DoSomething.spec_encode());
    if bytes.len() == 1 && bytes[0] == DO_SOMETHING_TAG {
        assert(bytes =~= SkeletonInstruction::DoSomething.spec_encode());
    }
}

} // verus!
