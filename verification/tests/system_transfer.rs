use pinocchio_kit::account::{AccountCommon, AnyAccount};
use pinocchio_kit::entrypoint_v2::{parse_program_input, ProgramAccountParser};
use pinocchio_kit::instruction::AccountMeta;
use pinocchio_kit::program_error::{ProgramError, ProgramResult};
use pinocchio_kit::pubkey::Pubkey;
use pinocchio_kit::system::transfer::instruction_data;
use pinocchio_kit::system::{check_id, id, CanInvoke, Transfer, ID};
use pinocchio_kit::test_utils::{write_program_input, MockFullAccountData, MockInputEntry};

fn two_accounts() -> (AnyAccount, AnyAccount) {
    let entries = vec![
        MockInputEntry::Full(MockFullAccountData::new().with_address([1; 32]).to_region()),
        MockInputEntry::Full(MockFullAccountData::new().with_address([2; 32]).to_region()),
    ];
    let input = write_program_input(&entries, &[], &[0; 32]);
    let mut accounts = Vec::new();
    let mut refs = Vec::new();
    parse_program_input(&mut accounts, &mut refs, 2, &input).unwrap();
    (
        AnyAccount::parse(&accounts, &refs, 0, 0).unwrap(),
        AnyAccount::parse(&accounts, &refs, 0, 1).unwrap(),
    )
}

#[test]
fn simple_transfer() {
    let (from, to) = two_accounts();
    let res = Transfer { from: &from, to: &to, lamports: 42 }.invoke_via(
        |program_id: &Pubkey, accounts: &[&AnyAccount; 2], metas: &[AccountMeta], data: &[u8]| {
            assert_eq!(*program_id, ID);
            assert_eq!(*accounts[0].address(), [1; 32]);
            assert_eq!(*accounts[1].address(), [2; 32]);
            assert_eq!(metas.len(), 2);
            assert!(metas[0].is_signer && metas[0].is_writable);
            assert!(!metas[1].is_signer && metas[1].is_writable);
            assert_eq!(*metas[1].pubkey, [2; 32]);
            assert_eq!(data, &[2, 0, 0, 0, 42, 0, 0, 0, 0, 0, 0, 0]);
            Ok(())
        },
        |_: &Pubkey, _: &[&Pubkey], _: &[AccountMeta], _: &[u8]| -> ProgramResult {
            panic!("a transfer passes its accounts as an array")
        },
    );
    assert_eq!(res, ProgramResult::Ok(()));
}

#[test]
fn transfer_returns_what_the_invocation_returns() {
    let (from, to) = two_accounts();
    let res = Transfer { from: &from, to: &to, lamports: 1 }.invoke_via(
        |_: &Pubkey, _: &[&AnyAccount; 2], _: &[AccountMeta], _: &[u8]| {
            Err(ProgramError::Custom(3))
        },
        |_: &Pubkey, _: &[&Pubkey], _: &[AccountMeta], _: &[u8]| -> ProgramResult { Ok(()) },
    );
    assert_eq!(res, Err(ProgramError::Custom(3)));
}

#[test]
fn transfer_data_layout() {
    assert_eq!(
        instruction_data(0x0102030405060708),
        [2, 0, 0, 0, 8, 7, 6, 5, 4, 3, 2, 1]
    );
    assert_eq!(instruction_data(u64::MAX)[4..], [0xff; 8]);
}

#[test]
fn system_program_id() {
    assert_eq!(id(), [0u8; 32]);
    assert!(check_id(&[0; 32]));
    let mut other = [0u8; 32];
    other[31] = 1;
    assert!(!check_id(&other));
}

#[test]
fn error_codes() {
    assert_eq!(ProgramError::Custom(0).to_code(), 1 << 32);
    assert_eq!(ProgramError::Custom(7).to_code(), 7);
    assert_eq!(ProgramError::InvalidArgument.to_code(), 2 << 32);
    assert_eq!(ProgramError::InvalidInstructionData.to_code(), 3 << 32);
    assert_eq!(ProgramError::InvalidAccountData.to_code(), 4 << 32);
    assert_eq!(ProgramError::Immutable.to_code(), 25 << 32);
    assert_eq!(ProgramError::IncorrectAuthority.to_code(), 26 << 32);
}
