use skeleton::error::ErrorKind;
use skeleton::id;
use skeleton::instruction::{do_something, SkeletonInstruction};
use skeleton::processor::{AccountInfo, Processor};
use skeleton::pubkey::Pubkey;

fn one_account() -> AccountInfo {
    AccountInfo { key: Pubkey::new([7u8; 32]), is_signer: false, is_writable: false }
}

#[test]
fn test_something() {
    assert_eq!(id(), id());
}

#[test]
fn round_trip_do_something() {
    let v = SkeletonInstruction::DoSomething;
    let encoded = v.encode();
    assert_eq!(SkeletonInstruction::decode(&encoded), Ok(v));
}

#[test]
fn encode_is_deterministic() {
    let v = SkeletonInstruction::DoSomething;
    assert_eq!(v.encode(), v.encode());
    assert_eq!(v.encode(), vec![0u8]);
}

#[test]
fn reject_trailing_byte() {
    let mut bytes = SkeletonInstruction::DoSomething.encode();
    bytes.push(0xBA);
    assert_eq!(SkeletonInstruction::decode(&bytes), Err(ErrorKind::MalformedInstructionData));
}

#[test]
fn reject_unknown_tag() {
    assert_eq!(SkeletonInstruction::decode(&[1u8]), Err(ErrorKind::MalformedInstructionData));
    assert_eq!(SkeletonInstruction::decode(&[255u8]), Err(ErrorKind::MalformedInstructionData));
}

#[test]
fn reject_empty_payload() {
    assert_eq!(SkeletonInstruction::decode(&[]), Err(ErrorKind::MalformedInstructionData));
}

#[test]
fn reject_repeated_tag() {
    assert_eq!(SkeletonInstruction::decode(&[0u8, 0u8]), Err(ErrorKind::MalformedInstructionData));
}

#[test]
fn authorization_gate_precedes_decoding() {
    let wrong_id = Pubkey::new([1u8; 32]);
    assert_ne!(wrong_id, id());
    // A payload that decoding would reject: identifier validation comes first.
    let malformed = vec![9u8, 9u8, 9u8];
    let accounts = vec![one_account()];
    let r = Processor::process(&wrong_id, &accounts, &malformed);
    assert_eq!(r, Err(ErrorKind::IncorrectProgramIdentifier));
}

#[test]
fn account_arity() {
    let payload = SkeletonInstruction::DoSomething.encode();
    let r = Processor::process(&id(), &[], &payload);
    assert_eq!(r, Err(ErrorKind::MissingRequiredAccount));
}

#[test]
fn malformed_payload_under_right_identifier() {
    let accounts = vec![one_account()];
    let r = Processor::process(&id(), &accounts, &[42u8]);
    assert_eq!(r, Err(ErrorKind::MalformedInstructionData));
}

#[test]
fn happy_path() {
    let account = one_account();
    let payload = SkeletonInstruction::DoSomething.encode();
    let accounts = vec![account];
    let r = Processor::process(&id(), &accounts, &payload);
    assert_eq!(r, Ok(()));
    // No observable account mutation: the handler never writes the account.
    assert_eq!(accounts[0], one_account());
}

#[test]
fn happy_path_is_idempotent() {
    let first = Processor::process(
        &id(),
        &[one_account()],
        &SkeletonInstruction::DoSomething.encode(),
    );
    let second = Processor::process(
        &id(),
        &[one_account()],
        &SkeletonInstruction::DoSomething.encode(),
    );
    assert_eq!(first, Ok(()));
    assert_eq!(first, second);
}

#[test]
fn builder_do_something() {
    let program_id = Pubkey::new([3u8; 32]);
    let some_account = Pubkey::new([4u8; 32]);
    let instruction = do_something(&program_id, &some_account);
    assert_eq!(instruction.program_id, program_id);
    assert_eq!(instruction.accounts.len(), 1);
    assert_eq!(instruction.accounts[0].pubkey, some_account);
    assert!(!instruction.accounts[0].is_signer);
    assert!(!instruction.accounts[0].is_writable);
    assert_eq!(instruction.data, SkeletonInstruction::DoSomething.encode());
}

#[test]
fn pubkey_equality_is_exact_byte_equality() {
    let mut bytes = id().to_bytes();
    let same = Pubkey::new(bytes);
    assert!(same.equals(&id()));
    bytes[31] = bytes[31].wrapping_add(1);
    let other = Pubkey::new(bytes);
    assert!(!other.equals(&id()));
}
