use pinocchio_kit::account::initializable::initialize_bytes_with_sized_self;
use pinocchio_kit::account::account_content::{
    is_initialized_by_discriminator, is_of_type_by_discriminator,
};
use pinocchio_kit::account::{
    AccountCommon, AccountCommonMut, AccountContent, AccountRegion, AnyAccount, Exclusive,
    Initializable, NewAccount, OwnAccount, SysvarAccount, SysvarAccountContent,
};
use pinocchio_kit::entrypoint_v2::{parse_program_input, ProgramAccountParser};
use pinocchio_kit::program_error::ProgramError;
use pinocchio_kit::pubkey::Pubkey;
use pinocchio_kit::test_utils::{write_program_input, MockFullAccountData, MockInputEntry};

#[derive(Debug)]
struct Counter;

impl AccountContent for Counter {
    const DISCRIMINATOR: &'static [u8] = &[7];

    fn is_initialized(data: &[u8]) -> Result<bool, ProgramError> {
        is_initialized_by_discriminator(Self::DISCRIMINATOR, data)
    }

    fn is_of_type(data: &[u8]) -> bool {
        is_of_type_by_discriminator(Self::DISCRIMINATOR, data)
    }

    /// The counter value, the byte after the discriminator.
    type AsContent<'data> = u8;

    /// The bytes after the discriminator.
    type AsContentMut<'data> = &'data mut [u8];

    fn content(data: &[u8]) -> u8 {
        data.get(1).copied().unwrap_or(0)
    }

    fn content_mut(data: &mut [u8]) -> &mut [u8] {
        let start = data.len().min(1);
        &mut data[start..]
    }
}

impl Initializable for Counter {
    type Init = u8;

    fn initialize_bytes(state: u8, data: &mut [u8]) -> Result<(), ProgramError> {
        if data.len() < 2 {
            return Err(ProgramError::AccountDataTooSmall);
        }
        data[0] = 7;
        data[1] = state;
        Ok(())
    }
}

#[derive(Debug)]
struct Clock;

impl SysvarAccountContent for Clock {
    const EXPECTED_ADDRESS: Pubkey = [6; 32];

    type AsContent<'data> = &'data [u8];
    type AsContentMut<'data> = &'data mut [u8];

    fn content(data: &[u8]) -> &[u8] {
        data
    }

    fn content_mut(data: &mut [u8]) -> &mut [u8] {
        data
    }
}

fn key(b: u8) -> Pubkey {
    [b; 32]
}

fn mock(address: u8, writable: bool, signer: bool, data: Vec<u8>) -> MockInputEntry {
    let mut m = MockFullAccountData::new()
        .with_address(key(address))
        .with_owner(key(200))
        .with_balance(500)
        .with_data(data);
    m.writable = writable;
    m.signer = signer;
    MockInputEntry::Full(m.to_region())
}

/// Index: 0 counter (writable, signer), 1 read-only counter, 2 duplicate of 0, 3 empty writable
/// account, 4 the clock, 5 duplicate of 4, 6 account with no data.
fn accounts() -> (Vec<Option<AccountRegion>>, Vec<u8>) {
    let entries = vec![
        mock(1, true, true, vec![7, 5]),
        mock(2, false, false, vec![7, 1]),
        MockInputEntry::Duplicate(0),
        mock(3, true, false, vec![0, 0]),
        mock(6, false, false, vec![1, 2, 3]),
        MockInputEntry::Duplicate(4),
        mock(8, true, false, vec![]),
        mock(9, true, false, vec![0]),
    ];
    let input = write_program_input(&entries, &[], &key(99));
    let mut accounts = Vec::new();
    let mut refs = Vec::new();
    let r = parse_program_input(&mut accounts, &mut refs, 16, &input);
    assert_eq!(r.unwrap().num_accounts, 8);
    (accounts, refs)
}

#[test]
fn any_account_follows_allowed_references() {
    let (accounts, refs) = accounts();
    let a = AnyAccount::parse(&accounts, &refs, 1, 2).unwrap();
    assert_eq!(*a.address(), key(1));
    assert!(a.is_signer());
    assert_eq!(a.lamports(), 500);
    assert_eq!(a.data_len(), 2);
    let e = AnyAccount::parse(&accounts, &refs, 0b10, 2).unwrap_err();
    assert_eq!(e, ProgramError::InvalidAccountData);
    let b = AnyAccount::parse(&accounts, &refs, 0, 1).unwrap();
    assert_eq!(*b.owner(), key(200));
    assert!(!b.is_writable());
}

#[test]
fn exclusive_any_account() {
    let (accounts, refs) = accounts();
    assert_eq!(
        Exclusive::<AnyAccount>::parse(&accounts, &refs, u64::MAX, 2).unwrap_err(),
        ProgramError::AccountBorrowFailed
    );
    assert_eq!(
        Exclusive::<AnyAccount>::parse(&accounts, &refs, 0, 1).unwrap_err(),
        ProgramError::Immutable
    );
    let a = Exclusive::<AnyAccount>::parse(&accounts, &refs, 0, 0).unwrap();
    assert_eq!(*a.get().address(), key(1));
    assert_eq!(*a.into_inner().owner(), key(200));
}

#[test]
fn require_checks() {
    let (accounts, refs) = accounts();
    let a = AnyAccount::parse(&accounts, &refs, 0, 1).unwrap();
    assert_eq!(a.require_signer().unwrap_err(), ProgramError::MissingRequiredSignature);
    assert!(a.require_address(&key(2)).is_ok());
    assert_eq!(a.require_address(&key(3)).unwrap_err(), ProgramError::InvalidSeeds);
    assert!(a.require_owner(&key(200)).is_ok());
    assert_eq!(a.require_owner(&key(1)).unwrap_err(), ProgramError::InvalidAccountOwner);
    let s = AnyAccount::parse(&accounts, &refs, 0, 0).unwrap();
    assert!(s.require_signer().is_ok());
}

#[test]
fn own_account_checks() {
    let (accounts, refs) = accounts();
    let own = OwnAccount::<Counter>::parse(&accounts, &refs, 1, 2).unwrap();
    let account = own.require_owner(&key(200)).unwrap();
    assert_eq!(account.data(), &[7, 5]);
    assert_eq!(own.require_owner(&key(1)).unwrap_err(), ProgramError::InvalidAccountOwner);
    assert_eq!(
        OwnAccount::<Counter>::parse(&accounts, &refs, 0, 3).unwrap_err(),
        ProgramError::UninitializedAccount
    );
    assert_eq!(
        OwnAccount::<Counter>::parse(&accounts, &refs, 0, 6).unwrap_err(),
        ProgramError::AccountDataTooSmall
    );
    assert_eq!(
        Exclusive::<OwnAccount<Counter>>::parse(&accounts, &refs, 0, 1).unwrap_err(),
        ProgramError::Immutable
    );
    let mut own_mut = Exclusive::<OwnAccount<Counter>>::parse(&accounts, &refs, 0, 0).unwrap();
    let account = own_mut.get_mut().require_owner_mut(&key(200)).unwrap();
    account.data_mut()[1] = 9;
    assert_eq!(account.data(), &[7, 9]);
    assert_eq!(account.content(), 9);
    account.content_mut()[0] = 11;
    assert_eq!(account.content(), 11);
    account.data_mut()[1] = 9;
    account.set_lamport(77);
    account.set_owner(&key(5));
    assert_eq!(account.lamports(), 77);
    assert_eq!(*account.owner(), key(5));
    assert_eq!(account.data(), &[7, 9]);
    assert_eq!(account.header().address, key(1));
}

#[test]
fn new_account_initialize() {
    let (accounts, refs) = accounts();
    assert_eq!(
        NewAccount::<Counter>::parse(&accounts, &refs, 0, 0).unwrap_err(),
        ProgramError::AccountAlreadyInitialized
    );
    assert!(NewAccount::<Counter>::parse(&accounts, &refs, 0, 3).is_ok());
    let mut new = Exclusive::<NewAccount<Counter>>::parse(&accounts, &refs, 0, 3).unwrap();
    let account = new.get_mut().initialize(42).unwrap();
    assert_eq!(account.data(), &[7, 42]);
    assert_eq!(Counter::is_initialized(account.data()), Ok(true));
    assert!(Counter::is_of_type(account.data()));
    assert_eq!(
        Exclusive::<NewAccount<Counter>>::parse(&accounts, &refs, 0, 6).unwrap_err(),
        ProgramError::AccountDataTooSmall
    );
    let mut short = Exclusive::<NewAccount<Counter>>::parse(&accounts, &refs, 0, 7).unwrap();
    assert_eq!(short.get_mut().initialize(1).unwrap_err(), ProgramError::AccountDataTooSmall);
}

#[test]
fn sysvar_account_checks_address() {
    let (accounts, refs) = accounts();
    let clock = SysvarAccount::<Clock>::parse(&accounts, &refs, 1 << 4, 5).unwrap();
    assert_eq!(clock.data(), &[1, 2, 3]);
    assert_eq!(clock.content(), &[1, 2, 3]);
    assert_eq!(clock.header().address, Clock::EXPECTED_ADDRESS);
    assert_eq!(
        SysvarAccount::<Clock>::parse(&accounts, &refs, 0, 0).unwrap_err(),
        ProgramError::InvalidArgument
    );
    assert_eq!(
        Exclusive::<SysvarAccount<Clock>>::parse(&accounts, &refs, 0, 4).unwrap_err(),
        ProgramError::Immutable
    );
}

#[test]
fn counter_content_checks() {
    assert_eq!(Counter::is_initialized(&[]), Err(ProgramError::AccountDataTooSmall));
    assert_eq!(Counter::is_initialized(&[0, 1]), Ok(false));
    assert_eq!(Counter::is_initialized(&[3]), Ok(true));
    assert!(Counter::is_of_type(&[7, 0]));
    assert_eq!(Counter::is_initialized(&[7, 0]), Ok(true));
    assert!(!Counter::is_of_type(&[3, 0]));
    assert!(!Counter::is_of_type(&[]));
}

#[test]
fn typed_content_after_initialize() {
    let (accounts, refs) = accounts();
    let mut new = Exclusive::<NewAccount<Counter>>::parse(&accounts, &refs, 0, 3).unwrap();
    let account = new.get_mut().initialize(5).unwrap();
    assert_eq!(account.content(), 5);
    account.content_mut()[0] = 6;
    assert_eq!(account.data(), &[7, 6]);
    let own = OwnAccount::<Counter>::parse(&accounts, &refs, 0, 0).unwrap();
    assert_eq!(own.require_owner(&key(200)).unwrap().content(), 5);
}

#[test]
fn sized_self_initialization() {
    let mut data = [0u8, 0, 9];
    let r = initialize_bytes_with_sized_self::<Counter, _>(4, &mut data, 1, |state, content| {
        assert_eq!(content.len(), 1);
        content[0] = state;
        Ok(())
    });
    assert_eq!(r, Ok(()));
    assert_eq!(data, [7, 4, 9]);
    let mut short = [0u8];
    let r = initialize_bytes_with_sized_self::<Counter, _>(4, &mut short, 1, |_, _| Ok(()));
    assert_eq!(r, Err(ProgramError::AccountDataTooSmall));
    assert_eq!(short, [0]);
    let r = initialize_bytes_with_sized_self::<Counter, _>(4, &mut data, 2, |_, _| {
        Err(ProgramError::Custom(1))
    });
    assert_eq!(r, Err(ProgramError::Custom(1)));
}
