use pinocchio_kit::account::AccountRegion;
use pinocchio_kit::entrypoint_v2::parse_program_input;
use pinocchio_kit::entrypoint_v2::program_account_parser::NOT_A_DUPLICATE;
use pinocchio_kit::program_error::ProgramError;
use pinocchio_kit::pubkey::Pubkey;
use pinocchio_kit::test_utils::{write_program_input, MockFullAccountData, MockInputEntry};

fn key(b: u8) -> Pubkey {
    [b; 32]
}

fn full(address: u8, data: Vec<u8>) -> MockInputEntry {
    MockInputEntry::Full(
        MockFullAccountData::new()
            .with_address(key(address))
            .with_owner(key(200))
            .with_balance(1000 + address as u64)
            .with_data(data)
            .to_region(),
    )
}

type Parsed = (Vec<Option<AccountRegion>>, Vec<u8>, Result<(u8, Vec<u8>, Pubkey), ProgramError>);

fn parse(input: &[u8], max: usize) -> Parsed {
    let mut accounts = Vec::new();
    let mut refs = Vec::new();
    let r = parse_program_input(&mut accounts, &mut refs, max, input)
        .map(|p| (p.num_accounts, p.instruction_data.to_vec(), p.program_id));
    (accounts, refs, r)
}

#[test]
fn parses_full_and_duplicate_accounts() {
    let entries = vec![full(1, vec![7, 5]), full(2, vec![]), MockInputEntry::Duplicate(0)];
    let input = write_program_input(&entries, &[9, 8, 7], &key(42));
    // 4 bytes of count, the first block (88 + 2 data bytes + 10240 + 8, padded to end on a
    // multiple of 8), the second block (88 + 10240 + 8), a duplicate entry, 8 bytes of length,
    // 3 data bytes, 32 bytes of id.
    assert_eq!(input.len(), 4 + 10340 + 10336 + 8 + 8 + 3 + 32);
    assert_eq!(&input[..4], &[3, 0, 0, 0]);
    let (accounts, refs, r) = parse(&input, 8);
    let (num_accounts, data, program_id) = r.unwrap();
    assert_eq!(num_accounts, 3);
    assert_eq!(data, vec![9, 8, 7]);
    assert_eq!(program_id, key(42));
    assert_eq!(refs, vec![NOT_A_DUPLICATE, NOT_A_DUPLICATE, 0]);
    assert_eq!(accounts.len(), 3);
    let first = accounts[0].as_ref().unwrap();
    assert_eq!(first.header.address, key(1));
    assert_eq!(first.header.owner, key(200));
    assert_eq!(first.header.lamports(), 1001);
    assert_eq!(first.header.data_len(), 2);
    assert_eq!(first.data, vec![7, 5]);
    let second = accounts[1].as_ref().unwrap();
    assert_eq!(second.header.address, key(2));
    assert!(second.data.is_empty());
    assert!(accounts[2].is_none());
}

#[test]
fn records_at_most_max_accounts() {
    let entries = vec![full(1, vec![1]), MockInputEntry::Duplicate(0), full(3, vec![])];
    let input = write_program_input(&entries, &[], &key(5));
    let (accounts, refs, r) = parse(&input, 1);
    let (num_accounts, data, program_id) = r.unwrap();
    assert_eq!(num_accounts, 3);
    assert!(data.is_empty());
    assert_eq!(program_id, key(5));
    assert_eq!(accounts.len(), 1);
    assert_eq!(refs, vec![NOT_A_DUPLICATE]);
}

#[test]
fn parses_input_without_accounts() {
    let input = write_program_input(&[], &[1, 2], &key(6));
    assert_eq!(input.len(), 4 + 8 + 2 + 32);
    let (accounts, refs, r) = parse(&input, 4);
    assert_eq!(r.unwrap(), (0, vec![1, 2], key(6)));
    assert!(accounts.is_empty());
    assert!(refs.is_empty());
}

#[test]
fn short_input_is_invalid_account_data() {
    let (accounts, refs, r) = parse(&[0, 0, 0], 4);
    // Too short for the account count.
    assert_eq!(r.unwrap_err(), ProgramError::InvalidAccountData);
    assert!(accounts.is_empty());
    assert!(refs.is_empty());
}

#[test]
fn truncated_account_is_invalid_account_data() {
    let input = write_program_input(&[full(1, vec![1, 2, 3])], &[], &key(1));
    // Cut inside the header, then inside the data.
    for cut in [4 + 40, 4 + 88 + 1] {
        let (_, _, r) = parse(&input[..cut], 4);
        assert_eq!(r.unwrap_err(), ProgramError::InvalidAccountData);
    }
}

#[test]
fn duplicate_must_reference_an_earlier_full_account() {
    let input = write_program_input(&[MockInputEntry::Duplicate(0)], &[], &key(1));
    let (_, _, r) = parse(&input, 4);
    assert_eq!(r.unwrap_err(), ProgramError::InvalidAccountData);
    let input = write_program_input(
        &[full(1, vec![]), MockInputEntry::Duplicate(0), MockInputEntry::Duplicate(1)],
        &[],
        &key(1),
    );
    let (_, _, r) = parse(&input, 4);
    assert_eq!(r.unwrap_err(), ProgramError::InvalidAccountData);
}

#[test]
fn truncated_instruction_data_or_program_id_is_invalid_instruction_data() {
    let input = write_program_input(&[full(1, vec![])], &[1, 2, 3, 4], &key(1));
    let n = input.len();
    for cut in [n - 1, n - 32, n - 33, n - 36 - 4] {
        let (accounts, refs, r) = parse(&input[..cut], 4);
        assert_eq!(r.unwrap_err(), ProgramError::InvalidInstructionData);
        assert!(accounts.is_empty());
        assert!(refs.is_empty());
    }
}

#[test]
fn more_than_255_accounts_are_refused() {
    let mut entries = vec![full(1, vec![])];
    for _ in 1..255 {
        entries.push(MockInputEntry::Duplicate(0));
    }
    let mut input = write_program_input(&entries, &[], &key(1));
    assert_eq!(parse(&input, 0).2.unwrap().0, 255);
    // Declare one more duplicate entry: 256 accounts.
    input[0] = 0;
    input[1] = 1;
    assert_eq!(&input[..4], &[0, 1, 0, 0]);
    let tail = input.split_off(input.len() - 40);
    input.extend_from_slice(&[0, 0, 0, 0, 0, 0, 0, 0]);
    input.extend_from_slice(&tail);
    let (accounts, refs, r) = parse(&input, 2);
    assert_eq!(r.unwrap_err(), ProgramError::InvalidAccountData);
    // The account lists are recorded all the same.
    assert_eq!(refs, vec![NOT_A_DUPLICATE, 0]);
    assert_eq!(accounts.len(), 2);
    assert!(accounts[0].is_some() && accounts[1].is_none());
}

#[test]
fn documented_layout_with_no_accounts() {
    // A 4 byte account count of 0, an instruction data length of 0, and the program id.
    let mut input = vec![0u8; 4 + 8];
    input.extend_from_slice(&[1u8; 32]);
    let (accounts, refs, r) = parse(&input, 4);
    assert_eq!(r.unwrap(), (0, vec![], [1u8; 32]));
    assert!(accounts.is_empty());
    assert!(refs.is_empty());
}

use pinocchio_kit::account::{AccountCommonMut, Exclusive, OwnAccount};
use pinocchio_kit::account::account_content::{
    is_initialized_by_discriminator, is_of_type_by_discriminator,
};
use pinocchio_kit::account::AccountContent;
use pinocchio_kit::entrypoint_v2::write_back::write_back;
use pinocchio_kit::entrypoint_v2::ProgramAccountParser;

#[derive(Debug)]
struct Ledger;

impl AccountContent for Ledger {
    const DISCRIMINATOR: &'static [u8] = &[7];

    fn is_initialized(data: &[u8]) -> Result<bool, ProgramError> {
        is_initialized_by_discriminator(Self::DISCRIMINATOR, data)
    }

    fn is_of_type(data: &[u8]) -> bool {
        is_of_type_by_discriminator(Self::DISCRIMINATOR, data)
    }

    type AsContent<'data> = &'data [u8];
    type AsContentMut<'data> = &'data mut [u8];

    fn content(data: &[u8]) -> &[u8] {
        data
    }

    fn content_mut(data: &mut [u8]) -> &mut [u8] {
        data
    }
}

#[test]
fn write_back_of_unchanged_accounts_keeps_the_input() {
    let entries = vec![full(1, vec![7, 5]), MockInputEntry::Duplicate(0), full(3, vec![])];
    let mut input = write_program_input(&entries, &[4, 2], &key(8));
    let original = input.clone();
    let mut accounts = Vec::new();
    let mut refs = Vec::new();
    parse_program_input(&mut accounts, &mut refs, 8, &input).unwrap();
    assert_eq!(write_back(&mut input, &accounts, &refs), Ok(()));
    assert_eq!(input, original);
    // A prefix of the lists keeps the accounts past it.
    assert_eq!(write_back(&mut input, &accounts[..1], &refs[..1]), Ok(()));
    assert_eq!(input, original);
}

#[test]
fn write_back_returns_changes_to_the_input() {
    let entries = vec![full(1, vec![7, 5]), full(2, vec![1])];
    let mut input = write_program_input(&entries, &[9], &key(8));
    let mut accounts = Vec::new();
    let mut refs = Vec::new();
    parse_program_input(&mut accounts, &mut refs, 8, &input).unwrap();

    let mut ledger = Exclusive::<OwnAccount<Ledger>>::parse(&accounts, &refs, 0, 0).unwrap();
    let account = ledger.get_mut().require_owner_mut(&key(200)).unwrap();
    account.set_lamport(77);
    account.set_owner(&key(9));
    account.data_mut()[1] = 6;
    accounts[0] = Some(account.region().duplicate());

    assert_eq!(write_back(&mut input, &accounts, &refs), Ok(()));
    let mut again = Vec::new();
    let mut again_refs = Vec::new();
    let (_, data, program_id) = {
        let r = parse_program_input(&mut again, &mut again_refs, 8, &input).unwrap();
        (r.num_accounts, r.instruction_data.to_vec(), r.program_id)
    };
    assert_eq!(data, vec![9]);
    assert_eq!(program_id, key(8));
    let first = again[0].as_ref().unwrap();
    assert_eq!(first.header.lamports(), 77);
    assert_eq!(first.header.owner, key(9));
    assert_eq!(first.data, vec![7, 6]);
    assert_eq!(again[1].as_ref().unwrap().data, vec![1]);
}

#[test]
fn write_back_refusals_leave_the_input() {
    let entries = vec![full(1, vec![])];
    let mut input = write_program_input(&entries, &[], &key(8));
    let original = input.clone();
    let mut accounts = Vec::new();
    let mut refs = Vec::new();
    parse_program_input(&mut accounts, &mut refs, 8, &input).unwrap();
    let mut longer = accounts.iter().map(|a| a.as_ref().map(|r| r.duplicate())).collect::<Vec<_>>();
    longer.push(None);
    let mut longer_refs = refs.clone();
    longer_refs.push(0);
    assert_eq!(
        write_back(&mut input, &longer, &longer_refs),
        Err(ProgramError::InvalidArgument)
    );
    assert_eq!(write_back(&mut input, &accounts, &[]), Err(ProgramError::InvalidArgument));
    assert_eq!(input, original);
    let mut short = vec![0u8, 0];
    assert_eq!(write_back(&mut short, &[], &[]), Err(ProgramError::InvalidAccountData));
    assert_eq!(short, vec![0, 0]);
}

#[test]
fn header_changes_and_data_length_checks_at_write_back() {
    let entries = vec![full(1, vec![7, 5])];
    let mut input = write_program_input(&entries, &[], &key(8));
    let original = input.clone();
    let mut accounts = Vec::new();
    let mut refs = Vec::new();
    parse_program_input(&mut accounts, &mut refs, 8, &input).unwrap();
    let mut ledger = Exclusive::<OwnAccount<Ledger>>::parse(&accounts, &refs, 0, 0).unwrap();
    let account = ledger.get_mut().require_owner_mut(&key(200)).unwrap();
    account.header_mut().set_resize_delta(-1);
    assert_eq!(account.header().resize_delta(), -1);
    assert_eq!(account.data(), &[7, 5]);
    accounts[0] = Some(account.region().duplicate());
    assert_eq!(write_back(&mut input, &accounts, &refs), Ok(()));
    let mut again = Vec::new();
    let mut again_refs = Vec::new();
    parse_program_input(&mut again, &mut again_refs, 8, &input).unwrap();
    assert_eq!(again[0].as_ref().unwrap().header.resize_delta(), -1);

    // A data length that does not match the data is refused.
    let mut input = original.clone();
    account.header_mut().set_data_len(3);
    accounts[0] = Some(account.region().duplicate());
    assert_eq!(write_back(&mut input, &accounts, &refs), Err(ProgramError::InvalidArgument));
    assert_eq!(input, original);
}
