//! Tools for testing programs: mock accounts, and the construction of program input bytes.

use vstd::prelude::*;

use crate::account::{AbiAccountHeader, AccountRegion};
use crate::entrypoint_v2::input_format::{serialize_program_input, InputEntry, ProgramInput};
use crate::entrypoint_v2::program_account_parser::NOT_A_DUPLICATE;
use crate::entrypoint_v2::write_back::{lists_entries, write_program_input_bytes, MAX_ACCOUNT_DATA_LEN};
use crate::pubkey::Pubkey;

verus! {

/// The address [`TestPubkey::new_tl_unique`] hands out.
pub open spec fn spec_test_pubkey() -> Seq<u8> {
    Seq::new(32, |i: int| (i + 1) as u8)
}

/// Addresses for tests.
pub trait TestPubkey: Sized {
    /// The test address of the current thread.  Despite the name, it is not a fresh address per
    /// call: every call returns the same address, the bytes `1, 2, ..., 32`, so that a test can
    /// build a value with it and compare against another call.
    fn new_tl_unique() -> (r: Self);
}

impl TestPubkey for Pubkey {
    fn new_tl_unique() -> (r: Pubkey)
        ensures
            r@ == spec_test_pubkey(),
    {
        let mut r: Pubkey = [0u8; 32];
        let mut i: usize = 0;
        while i < 32
            invariant
                0 <= i <= 32,
                r@.len() == 32,
                forall|j: int| 0 <= j < i ==> r@[j] == (j + 1) as u8,
            decreases 32 - i,
        {
            r[i] = (i + 1) as u8;
            i = i + 1;
        }
        assert(r@ =~= spec_test_pubkey());
        r
    }
}

/// The properties of an account, as a test describes them.
#[derive(Debug)]
pub struct MockFullAccountData {
    pub signer: bool,
    pub writable: bool,
    pub executable: bool,
    pub resize_delta: i32,
    pub address: Pubkey,
    pub owner: Pubkey,
    pub balance: u64,
    pub data: Vec<u8>,
}

impl MockFullAccountData {
    /// A writable account that is neither a signer nor executable, with no balance and no data.
    pub fn new() -> (r: Self)
        ensures
            r.signer == false,
            r.writable == true,
            r.executable == false,
            r.resize_delta == 0,
            r.address@ == spec_test_pubkey(),
            r.owner@ == spec_test_pubkey(),
            r.balance == 0,
            r.data@.len() == 0,
    {
        MockFullAccountData {
            signer: false,
            writable: true,
            executable: false,
            resize_delta: 0,
            address: <Pubkey as TestPubkey>::new_tl_unique(),
            owner: <Pubkey as TestPubkey>::new_tl_unique(),
            balance: 0,
            data: Vec::new(),
        }
    }

    pub fn with_address(self, address: Pubkey) -> (r: Self)
        ensures
            r == (MockFullAccountData { address, ..self }),
    {
        let mut this = self;
        this.address = address;
        this
    }

    pub fn with_owner(self, owner: Pubkey) -> (r: Self)
        ensures
            r == (MockFullAccountData { owner, ..self }),
    {
        let mut this = self;
        this.owner = owner;
        this
    }

    pub fn with_balance(self, balance: u64) -> (r: Self)
        ensures
            r == (MockFullAccountData { balance, ..self }),
    {
        let mut this = self;
        this.balance = balance;
        this
    }

    pub fn with_data(self, data: Vec<u8>) -> (r: Self)
        ensures
            r == (MockFullAccountData { data, ..self }),
    {
        let mut this = self;
        this.data = data;
        this
    }

    /// The account block the runtime would provide for this account.
    pub fn to_region(&self) -> (r: AccountRegion)
        ensures
            r.wf(),
            r.header.duplicate_reference == NOT_A_DUPLICATE,
            r.header.is_signer == (if self.signer { 1u8 } else { 0u8 }),
            r.header.is_writable == (if self.writable { 1u8 } else { 0u8 }),
            r.header.is_executable == (if self.executable { 1u8 } else { 0u8 }),
            r.header.spec_resize_delta() == self.resize_delta,
            r.header.address == self.address,
            r.header.owner == self.owner,
            r.header.spec_lamports() == self.balance,
            r.data@ == self.data@,
    {
        let mut header = AbiAccountHeader {
            duplicate_reference: NOT_A_DUPLICATE,
            is_signer: if self.signer { 1 } else { 0 },
            is_writable: if self.writable { 1 } else { 0 },
            is_executable: if self.executable { 1 } else { 0 },
            resize_delta: [0u8; 4],
            address: self.address,
            owner: self.owner,
            lamports: [0u8; 8],
            data_len: [0u8; 8],
        };
        header.set_resize_delta(self.resize_delta);
        header.set_lamports(self.balance);
        header.set_data_len(self.data.len() as u64);
        AccountRegion { header, data: vstd::slice::slice_to_vec(self.data.as_slice()) }
    }
}

/// One entry of the account list of a program input built by a test.
#[derive(Debug)]
pub enum MockInputEntry {
    /// The first appearance of an account.
    Full(AccountRegion),
    /// A repeated account: the index of its first appearance.
    Duplicate(u8),
}

impl View for MockInputEntry {
    type V = InputEntry;

    open spec fn view(&self) -> InputEntry {
        match self {
            MockInputEntry::Full(region) => InputEntry::Full(region@),
            MockInputEntry::Duplicate(r) => InputEntry::Duplicate(*r),
        }
    }
}

/// The views of the entries.
pub open spec fn entries_view(entries: Seq<MockInputEntry>) -> Seq<InputEntry> {
    entries.map_values(|e: MockInputEntry| e@)
}

/// Lays out a program input the way the runtime does: the account list, the instruction data and
/// the program id.
pub fn write_program_input(entries: &[MockInputEntry], instruction_data: &[u8], program_id: &Pubkey) -> (r:
    Vec<u8>)
    requires
        forall|i: int|
            0 <= i < entries@.len() ==> (#[trigger] entries@[i] matches MockInputEntry::Full(region)
                ==> region.data@.len() <= 0xA0_0000),
        entries@.len() <= 255,
    ensures
        r@ == serialize_program_input(
            ProgramInput {
                entries: entries_view(entries@),
                instruction_data: instruction_data@,
                program_id: program_id@,
            },
        ),
{
    let mut accounts: Vec<Option<AccountRegion>> = Vec::new();
    let mut account_references: Vec<u8> = Vec::new();
    let mut k: usize = 0;
    while k < entries.len()
        invariant
            0 <= k <= entries@.len(),
            entries@.len() <= 255,
            accounts@.len() == k,
            account_references@.len() == k,
            forall|i: int|
                0 <= i < entries@.len() ==> (#[trigger] entries@[i] matches MockInputEntry::Full(
                    region,
                ) ==> region.data@.len() <= 0xA0_0000),
            forall|j: int|
                0 <= j < k ==> #[trigger] lists_entries(accounts@, account_references@)[j]
                    == entries@[j]@,
            forall|j: int|
                0 <= j < k ==> (#[trigger] accounts@[j] matches Some(region)
                    ==> region.data@.len() <= MAX_ACCOUNT_DATA_LEN),
        decreases entries@.len() - k,
    {
        let ghost pa = accounts@;
        let ghost pr = account_references@;
        match &entries[k] {
            MockInputEntry::Full(region) => {
                accounts.push(Some(region.duplicate()));
                account_references.push(NOT_A_DUPLICATE);
            },
            MockInputEntry::Duplicate(r) => {
                accounts.push(None);
                account_references.push(*r);
            },
        }
        k = k + 1;
        assert forall|j: int| 0 <= j < k implies #[trigger] lists_entries(
            accounts@,
            account_references@,
        )[j] == entries@[j]@ by {
            if j < k - 1 {
                assert(accounts@[j] == pa[j]);
                assert(account_references@[j] == pr[j]);
                assert(lists_entries(pa, pr)[j] == entries@[j]@);
            }
        }
    }
    assert(lists_entries(accounts@, account_references@) =~= entries_view(entries@));
    write_program_input_bytes(accounts.as_slice(), account_references.as_slice(), instruction_data, program_id)
}

} // verus!
