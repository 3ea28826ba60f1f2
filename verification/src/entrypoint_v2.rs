//! Parsing of the program input: the account list, the instruction data and the program id, and
//! the construction of typed accounts and typed instruction arguments from it.
//!
//! Most programs select an "instruction" with the first bytes of the instruction data, and give a
//! fixed meaning to the list of accounts for each instruction.  [`parse_program_input`] does the
//! initial parsing of the input, [`ProgramAccountParser`] turns account list entries into typed
//! accounts, and [`ProgramDataParser`] turns the instruction data into typed arguments.

pub mod can_reference;
pub mod input_format;
pub mod program_account_parser;
pub mod program_data_parser;
pub mod write_back;

pub use can_reference::{CanReference, CanReferenceScore, ComputeCanReference};
pub use program_account_parser::{
    parse_single_account_no_references, parse_single_account_with_references, ProgramAccountParser,
};
pub use program_data_parser::ProgramDataParser;

use vstd::prelude::*;

use crate::account::abi_account_header::{lemma_abi_bytes_injective, ABI_ACCOUNT_HEADER_SIZE};
use crate::account::{AbiAccountHeader, AccountRegion};
use crate::bytes::array_from_slice;
use crate::program_error::ProgramError;
use crate::pubkey::Pubkey;

use input_format::{ProgramInput, 
    entries_wf, lemma_header_at,
    spec_parse_entries, spec_parse_entry, spec_parse_program_input, spec_read_program_input, u32_at, u64_at, header_at, InputEntry, ACCOUNT_COUNT_SIZE,
    BPF_ALIGN_OF_U128, DUPLICATE_ENTRY_SIZE, MAX_PERMITTED_DATA_INCREASE, RENT_EPOCH_SIZE,
};
use program_account_parser::{program_accounts_wf, NOT_A_DUPLICATE};

verus! {

/// Output of [`parse_program_input`].
#[derive(Debug)]
pub struct ParseProgramInputResult<'input> {
    pub num_accounts: u8,
    pub instruction_data: &'input [u8],
    pub program_id: Pubkey,
}

/// The account lists hold the first `accounts.len()` entries of `entries`: full accounts have
/// their block and the reference `u8::MAX`, repeated accounts have no block and the index of
/// their first appearance.
pub open spec fn records_entries(
    accounts: Seq<Option<AccountRegion>>,
    account_references: Seq<u8>,
    entries: Seq<InputEntry>,
) -> bool {
    &&& accounts.len() == account_references.len()
    &&& accounts.len() <= entries.len()
    &&& forall|i: int|
        0 <= i < accounts.len() ==> match #[trigger] entries[i] {
            InputEntry::Full(state) => account_references[i] == NOT_A_DUPLICATE && (
            accounts[i] matches Some(region) && region@ == state),
            InputEntry::Duplicate(r) => account_references[i] == r && accounts[i] is None,
        }
}

/// The reference list entry of an input entry.
pub open spec fn entry_reference(entry: InputEntry) -> u8 {
    match entry {
        InputEntry::Full(_) => NOT_A_DUPLICATE,
        InputEntry::Duplicate(r) => r,
    }
}

/// Once reading the account list fails, reading more of it fails the same way.
proof fn lemma_entries_error_persists(input: Seq<u8>, pos: int, c1: nat, c2: nat)
    requires
        c1 <= c2,
        spec_parse_entries(input, pos, c1) is Err,
    ensures
        spec_parse_entries(input, pos, c2) == spec_parse_entries(input, pos, c1),
    decreases c2,
{
    if c2 > c1 {
        lemma_entries_error_persists(input, pos, c1, (c2 - 1) as nat);
    }
}

/// Successfully read account lists are well formed, and each read advances the position.
proof fn lemma_entries_wf(input: Seq<u8>, pos: int, count: nat)
    requires
        0 <= pos,
        spec_parse_entries(input, pos, count) is Ok,
    ensures
        spec_parse_entries(input, pos, count) matches Ok((entries, next)) && entries_wf(entries)
            && entries.len() == count && next >= pos,
    decreases count,
{
    if count > 0 {
        lemma_entries_wf(input, pos, (count - 1) as nat);
        let (prev, next) = spec_parse_entries(input, pos, (count - 1) as nat)->Ok_0;
        let (entry, after) = spec_parse_entry(input, next, prev)->Ok_0;
        let entries = prev.push(entry);
        assert forall|i: int| 0 <= i < entries.len() implies match #[trigger] entries[i] {
            InputEntry::Full(state) => state.header.spec_data_len() == state.data.len(),
            InputEntry::Duplicate(r) => r != NOT_A_DUPLICATE && (r as int) < i && entries[
                r as int] is Full,
        } by {
            if i < prev.len() {
                assert(entries[i] == prev[i]);
                match prev[i] {
                    InputEntry::Full(state) => {},
                    InputEntry::Duplicate(r) => {
                        assert(entries[r as int] == prev[r as int]);
                    },
                }
            } else {
                assert(entries[i] == entry);
                match entry {
                    InputEntry::Full(state) => {
                        let header = header_at(input, next);
                        let data_len = header.spec_data_len() as int;
                        let data_start = next + ABI_ACCOUNT_HEADER_SIZE;
                        assert(state.data == input.subrange(data_start, data_start + data_len));
                        assert(state.header == header);
                    },
                    InputEntry::Duplicate(r) => {
                        assert(entries[r as int] == prev[r as int]);
                    },
                }
            }
        }
    }
}

/// What reading the program input gives: input shorter than the 4 byte account count is
/// refused with `InvalidAccountData`; a successful read has exactly as many accounts as the
/// little-endian count in the first 4 bytes says, at most 255, each duplicate pointing at an
/// earlier full account and each full account's header recording its data length, instruction
/// data no longer than the input, and a 32 byte program id.
pub proof fn lemma_program_input_reading(input: Seq<u8>)
    ensures
        input.len() < 4 ==> spec_parse_program_input(input) == Err::<ProgramInput, ProgramError>(
            ProgramError::InvalidAccountData,
        ),
        spec_parse_program_input(input) matches Ok(p) ==> {
            &&& input.len() >= 4
            &&& p.entries.len() == vstd::bytes::spec_u32_from_le_bytes(input.subrange(0, 4))
            &&& p.entries.len() <= 255
            &&& entries_wf(p.entries)
            &&& p.instruction_data.len() <= input.len()
            &&& p.program_id.len() == 32
        },
{
    if input.len() >= 4 {
        let count = u32_at(input, 0);
        if spec_parse_entries(input, ACCOUNT_COUNT_SIZE as int, count as nat) is Ok {
            lemma_entries_wf(input, ACCOUNT_COUNT_SIZE as int, count as nat);
        }
    }
}

/// A prefix of a well formed account list, recorded in the account lists, is a consistent
/// account list.
proof fn lemma_records_wf(
    accounts: Seq<Option<AccountRegion>>,
    account_references: Seq<u8>,
    entries: Seq<InputEntry>,
)
    requires
        records_entries(accounts, account_references, entries),
        entries_wf(entries),
    ensures
        program_accounts_wf(accounts, account_references),
{
    assert forall|i: int| 0 <= i < accounts.len() implies {
        let r = #[trigger] account_references[i];
        if r == NOT_A_DUPLICATE {
            accounts[i] matches Some(region) && region.wf()
        } else {
            &&& (r as int) < i
            &&& account_references[r as int] == NOT_A_DUPLICATE
        }
    } by {
        let e = entries[i];
        match e {
            InputEntry::Full(state) => {
                assert(account_references[i] == NOT_A_DUPLICATE);
                let region = accounts[i]->Some_0;
                assert(region@ == state);
                assert(state.header.spec_data_len() == state.data.len());
                assert(region.wf());
            },
            InputEntry::Duplicate(r) => {
                assert(account_references[i] == r);
                assert((r as int) < i);
                assert(entries[r as int] is Full);
                let er = entries[r as int];
                assert(match er {
                    InputEntry::Full(state) => account_references[r as int] == NOT_A_DUPLICATE,
                    InputEntry::Duplicate(q) => false,
                });
            },
        }
    }
}

/// An account list entry, as read by [`parse_entry`].
enum ParsedEntry {
    Full(AccountRegion),
    Duplicate(u8),
}

/// Reads the account list entry at `pos`.  `references` holds the reference list entry of each of
/// the earlier entries.
fn parse_entry(input: &[u8], pos: usize, references: &Vec<u8>, earlier: Ghost<Seq<InputEntry>>) -> (r: Result<
    (ParsedEntry, usize),
    ProgramError,
>)
    requires
        input@.len() <= usize::MAX - 0x10000,
        pos <= input@.len() + 0x8000,
        references@.len() == earlier@.len(),
        forall|i: int| 0 <= i < earlier@.len() ==> references@[i] == entry_reference(#[trigger] earlier@[i]),
        entries_wf(earlier@),
    ensures
        match spec_parse_entry(input@, pos as int, earlier@) {
            Ok((entry, after)) => r matches Ok((parsed, next)) && next == after && next <= input@.len() + 0x8000
                && match parsed {
                ParsedEntry::Full(region) => entry == InputEntry::Full(region@),
                ParsedEntry::Duplicate(d) => entry == InputEntry::Duplicate(d),
            },
            Err(e) => r == Err::<(ParsedEntry, usize), ProgramError>(e),
        },
{
    let len = input.len();
    if pos >= len {
        return Err(ProgramError::InvalidAccountData);
    }
    let first = input[pos];
    if first != NOT_A_DUPLICATE {
        if (first as usize) < references.len() && references[first as usize] == NOT_A_DUPLICATE {
            assert(earlier@[first as int] is Full) by {
                if earlier@[first as int] is Duplicate {
                    let d = earlier@[first as int]->Duplicate_0;
                    assert(references@[first as int] == d);
                    assert((d as int) < first as int);
                }
            }
            return Ok((ParsedEntry::Duplicate(first), pos + DUPLICATE_ENTRY_SIZE));
        }
        return Err(ProgramError::InvalidAccountData);
    }
    if len - pos < ABI_ACCOUNT_HEADER_SIZE {
        return Err(ProgramError::InvalidAccountData);
    }
    let header = AbiAccountHeader::from_abi_bytes(input, pos);
    proof {
        lemma_header_at(input@, pos as int, header);
    }
    let data_len = header.data_len();
    let data_start = pos + ABI_ACCOUNT_HEADER_SIZE;
    if data_len > (len - data_start) as u64 {
        return Err(ProgramError::InvalidAccountData);
    }
    let data_end = data_start + data_len as usize;
    let data = vstd::slice::slice_to_vec(vstd::slice::slice_subrange(input, data_start, data_end));
    let end = data_end + MAX_PERMITTED_DATA_INCREASE + RENT_EPOCH_SIZE;
    let next = (end + 7) / BPF_ALIGN_OF_U128 * BPF_ALIGN_OF_U128;
    Ok((ParsedEntry::Full(AccountRegion { header, data }), next))
}

/// Does the initial parsing of the program input: finds all the accounts, the instruction data
/// and the program id.
///
/// The first `max_num_accounts` entries of the account list are recorded in `accounts` and
/// `account_references`: a full account has its block in `accounts` and `u8::MAX` in
/// `account_references`; a repeated account has `None` in `accounts` and the index of its first
/// appearance in `account_references`.  When the input holds more than 255 accounts, the lists
/// are recorded and `InvalidAccountData` is returned; on any other failure both lists are left
/// unchanged.
pub fn parse_program_input<'input>(
    accounts: &mut Vec<Option<AccountRegion>>,
    account_references: &mut Vec<u8>,
    max_num_accounts: usize,
    input: &'input [u8],
) -> (r: Result<ParseProgramInputResult<'input>, ProgramError>)
    requires
        input@.len() <= usize::MAX - 0x10000,
    ensures
        match spec_read_program_input(input@) {
            Ok(p) => {
                &&& if p.entries.len() <= 255 {
                    r matches Ok(res) && res.num_accounts == p.entries.len()
                        && res.instruction_data@ == p.instruction_data && res.program_id@
                        == p.program_id
                } else {
                    r == Err::<ParseProgramInputResult<'input>, ProgramError>(
                        ProgramError::InvalidAccountData,
                    )
                }
                &&& final(accounts)@.len() == vstd::math::min(
                    p.entries.len() as int,
                    max_num_accounts as int,
                )
                &&& records_entries(final(accounts)@, final(account_references)@, p.entries)
                &&& program_accounts_wf(final(accounts)@, final(account_references)@)
            },
            Err(e) => {
                &&& r == Err::<ParseProgramInputResult<'input>, ProgramError>(e)
                &&& final(accounts)@ == old(accounts)@
                &&& final(account_references)@ == old(account_references)@
            },
        },
        r is Ok <==> spec_parse_program_input(input@) is Ok,
{
    let len = input.len();
    if len < ACCOUNT_COUNT_SIZE {
        return Err(ProgramError::InvalidAccountData);
    }
    let num_accounts = vstd::bytes::u32_from_le_bytes(
        vstd::slice::slice_subrange(input, 0, ACCOUNT_COUNT_SIZE),
    );
    let mut pos: usize = ACCOUNT_COUNT_SIZE;
    let mut k: u32 = 0;
    let mut references: Vec<u8> = Vec::new();
    let mut new_accounts: Vec<Option<AccountRegion>> = Vec::new();
    let mut new_references: Vec<u8> = Vec::new();
    let ghost mut entries: Seq<InputEntry> = Seq::empty();

    while k < num_accounts
        invariant
            len == input@.len(),
            input@.len() <= usize::MAX - 0x10000,
            ACCOUNT_COUNT_SIZE <= input@.len(),
            num_accounts == u32_at(input@, 0),
            k <= num_accounts,
            spec_parse_entries(input@, ACCOUNT_COUNT_SIZE as int, k as nat) == Ok::<(Seq<InputEntry>, int), ProgramError>((entries, pos as int)),
            pos <= input@.len() + 0x8000,
            entries.len() == k,
            references@.len() == k,
            entries_wf(entries),
            forall|i: int| 0 <= i < k ==> references@[i] == entry_reference(#[trigger] entries[i]),
            new_accounts@.len() == vstd::math::min(k as int, max_num_accounts as int),
            records_entries(new_accounts@, new_references@, entries),
        decreases num_accounts - k,
    {
        let ghost prev = entries;
        proof {
            lemma_entries_wf(input@, ACCOUNT_COUNT_SIZE as int, k as nat);
        }
        match parse_entry(input, pos, &references, Ghost(entries)) {
            Err(e) => {
                proof {
                    lemma_entries_error_persists(input@, ACCOUNT_COUNT_SIZE as int, (k + 1) as nat, num_accounts as nat);
                }
                return Err(e);
            },
            Ok((parsed, next)) => {
                let record = references.len() < max_num_accounts;
                match parsed {
                    ParsedEntry::Full(region) => {
                        proof {
                            entries = entries.push(InputEntry::Full(region@));
                        }
                        references.push(NOT_A_DUPLICATE);
                        if record {
                            new_accounts.push(Some(region));
                            new_references.push(NOT_A_DUPLICATE);
                        }
                    },
                    ParsedEntry::Duplicate(d) => {
                        proof {
                            entries = entries.push(InputEntry::Duplicate(d));
                        }
                        references.push(d);
                        if record {
                            new_accounts.push(None);
                            new_references.push(d);
                        }
                    },
                }
                pos = next;
                k = k + 1;
                proof {
                    lemma_entries_wf(input@, ACCOUNT_COUNT_SIZE as int, k as nat);
                    assert forall|i: int| 0 <= i < k implies references@[i] == entry_reference(
                        #[trigger] entries[i],
                    ) by {
                        if i < k - 1 {
                            assert(entries[i] == prev[i]);
                        }
                    }
                    assert forall|i: int| 0 <= i < new_accounts@.len() implies match #[trigger] entries[i] {
                        InputEntry::Full(state) => new_references@[i] == NOT_A_DUPLICATE
                            && (new_accounts@[i] matches Some(region) && region@ == state),
                        InputEntry::Duplicate(r) => new_references@[i] == r
                            && new_accounts@[i] is None,
                    } by {
                        if i < prev.len() {
                            assert(entries[i] == prev[i]);
                        }
                    }
                }
            },
        }
    }
    proof {
        lemma_entries_wf(input@, ACCOUNT_COUNT_SIZE as int, k as nat);
    }

    if pos > len || len - pos < 8 {
        return Err(ProgramError::InvalidInstructionData);
    }
    let instruction_data_len = vstd::bytes::u64_from_le_bytes(
        vstd::slice::slice_subrange(input, pos, pos + 8),
    );
    let data_start = pos + 8;
    if instruction_data_len > (len - data_start) as u64 || len - data_start
        - (instruction_data_len as usize) < 32 {
        return Err(ProgramError::InvalidInstructionData);
    }
    let data_end = data_start + instruction_data_len as usize;
    let instruction_data = vstd::slice::slice_subrange(input, data_start, data_end);
    let program_id: Pubkey = array_from_slice::<32>(input, data_end);

    proof {
        lemma_records_wf(new_accounts@, new_references@, entries);
    }
    *accounts = new_accounts;
    *account_references = new_references;
    if num_accounts > 255 {
        return Err(ProgramError::InvalidAccountData);
    }
    Ok(ParseProgramInputResult { num_accounts: num_accounts as u8, instruction_data, program_id })
}

} // verus!
