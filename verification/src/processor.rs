//! The dispatcher: the single trust boundary of the program. It validates the
//! program identifier before any other work, decodes the payload, and routes
//! to the handler of the decoded variant. Each invocation is independent and
//! holds no state between calls.

use vstd::prelude::*;

use crate::error::ErrorKind;
use crate::instruction::SkeletonInstruction;
use crate::pubkey::Pubkey;
use crate::spec_id;

verus! {

/// One account handed to an invocation by the runtime: its address and its
/// access flags. Handlers read accounts from the front of the sequence, by
/// position.
#[derive(Clone, Copy, Debug, PartialEq, Eq)]
pub struct AccountInfo {
    pub key: Pubkey,
    pub is_signer: bool,
    pub is_writable: bool,
}

pub struct Processor {}

impl Processor {
    /// What handling `DoSomething` returns, given how many accounts the
    /// runtime supplied: it needs exactly one account at the front.
    pub open spec fn spec_process_do_something(n_accounts: nat) -> Result<(), ErrorKind> {
        if n_accounts >= 1 {
            Ok(())
        } else {
            Err(ErrorKind::MissingRequiredAccount)
        }
    }

    /// What one invocation returns, as a function of the invoked identifier,
    /// the number of supplied accounts, and the payload bytes: the identity
    /// gate first, then decoding, then the variant's handler.
    pub open spec fn spec_process(
        program_id: Seq<u8>,
        n_accounts: nat,
        input: Seq<u8>,
    ) -> Result<(), ErrorKind> {
        if program_id != spec_id() {
            Err(ErrorKind::IncorrectProgramIdentifier)
        } else {
            match SkeletonInstruction::spec_decode(input) {
                Some(SkeletonInstruction::DoSomething) => Self::spec_process_do_something(
                    n_accounts,
                ),
                None => Err(ErrorKind::MalformedInstructionData),
            }
        }
    }

    /// Handles `DoSomething`: pulls the one account it expects from the front
    /// of the sequence, then intentionally does nothing with it.
    fn process_do_something(accounts: &[AccountInfo]) -> (r: Result<(), ErrorKind>)
        ensures
            r == Self::spec_process_do_something(accounts@.len()),
    {
        if accounts.len() < 1 {
            return Err(ErrorKind::MissingRequiredAccount);
        }
        let _some_account_info = &accounts[0];

        // do stuff

        Ok(())
    }

    /// Processes one invocation: rejects a wrong program identifier before
    /// any decoding, rejects a payload that decodes to no variant, and
    /// otherwise dispatches exhaustively on the decoded variant.
    pub fn process(program_id: &Pubkey, accounts: &[AccountInfo], input: &[u8]) -> (r: Result<
        (),
        ErrorKind,
    >)
        ensures
            r == Self::spec_process(program_id@, accounts@.len(), input@),
    {
        let expected = crate::id();
        if !program_id.equals(&expected) {
            return Err(ErrorKind::IncorrectProgramIdentifier);
        }

        let instruction = match SkeletonInstruction::decode(input) {
            Ok(instruction) => instruction,
            Err(e) => {
                return Err(e);
            },
        };

        match instruction {
            SkeletonInstruction::DoSomething => Self::process_do_something(accounts),
        }
    }
}

/// Authorization gate law: an invocation under any identifier other than the
/// one this program was deployed under fails with
/// `IncorrectProgramIdentifier`, whatever the accounts and the payload.
pub proof fn lemma_authorization_gate(program_id: Seq<u8>, n_accounts: nat, input: Seq<u8>)
    requires
        program_id != spec_id(),
    ensures
        Processor::spec_process(program_id, n_accounts, input) == Err::<(), ErrorKind>(
            ErrorKind::IncorrectProgramIdentifier,
        ),
{
}

/// Account arity law: under the right identifier, a canonical `DoSomething`
/// payload with no account supplied fails with `MissingRequiredAccount`.
pub proof fn lemma_account_arity()
    ensures
        Processor::spec_process(spec_id(), 0, SkeletonInstruction::DoSomething.spec_encode())
            == Err::<(), ErrorKind>(ErrorKind::MissingRequiredAccount),
{
}

/// Happy-path law: under the right identifier, a canonical `DoSomething`
/// payload with at least the one account it expects succeeds.
pub proof fn lemma_happy_path(n_accounts: nat)
    requires
        n_accounts >= 1,
    ensures
        Processor::spec_process(
            spec_id(),
            n_accounts,
            SkeletonInstruction::DoSomething.spec_encode(),
        ) == Ok::<(), ErrorKind>(()),
{
}

/// Idempotence law: the outcome of an invocation is a function of its inputs
/// alone, so any two results that `process` may return for equal inputs are
/// equal; there is no hidden invocation-order state.
pub proof fn lemma_process_deterministic(
    r1: Result<(), ErrorKind>,
    r2: Result<(), ErrorKind>,
    program_id: Seq<u8>,
    n_accounts: nat,
    input: Seq<u8>,
)
    requires
        r1 == Processor::spec_process(program_id, n_accounts, input),
        r2 == Processor::spec_process(program_id, n_accounts, input),
    ensures
        r1 == r2,
{
}

} // verus!
