//! Writing the accounts, as the program leaves them, back into the program input.
//!
//! The runtime reads the owner, the balance, the data length and the data of each account back
//! from the program input when the program ends.  The account lists that [`parse_program_input`]
//! fills hold copies of the account blocks; once the program has updated them, [`write_back`] lays
//! them out again in the input, in the runtime layout.
//!
//! [`parse_program_input`]: crate::entrypoint_v2::parse_program_input

use vstd::prelude::*;

use crate::account::AccountRegion;
use crate::bytes::{extend_from_slice, u32_to_le_array, u64_to_le_array};
use crate::entrypoint_v2::input_format::{
    lemma_parse_serialized_program_input, program_input_wf, serialize_entries, serialize_entry,
    serialize_program_input, spec_parse_program_input, zeros, InputEntry, ProgramInput,
};
use crate::entrypoint_v2::program_account_parser::NOT_A_DUPLICATE;
use crate::entrypoint_v2::{parse_program_input, records_entries};
use crate::program_error::ProgramError;
use crate::pubkey::Pubkey;

verus! {

/// The account list entries the account lists describe: the account block of a full account, or
/// the reference of a repeated one.
pub open spec fn lists_entries(accounts: Seq<Option<AccountRegion>>, account_references: Seq<u8>) -> Seq<
    InputEntry,
> {
    Seq::new(
        accounts.len(),
        |i: int|
            match accounts[i] {
                Some(region) => InputEntry::Full(region@),
                None => InputEntry::Duplicate(account_references[i]),
            },
    )
}

/// Largest account data the layout functions accept: the runtime's limit of 10 MiB.
pub const MAX_ACCOUNT_DATA_LEN: usize = 0xA0_0000;

/// The account lists can be laid out: as many references as accounts, at most 255 accounts, and
/// no account data longer than [`MAX_ACCOUNT_DATA_LEN`].
pub open spec fn lists_fit(accounts: Seq<Option<AccountRegion>>, account_references: Seq<u8>) -> bool {
    &&& accounts.len() == account_references.len()
    &&& accounts.len() <= 255
    &&& forall|i: int|
        0 <= i < accounts.len() ==> (#[trigger] accounts[i] matches Some(region)
            ==> region.data@.len() <= MAX_ACCOUNT_DATA_LEN)
}

fn push_zeros(out: &mut Vec<u8>, n: usize)
    ensures
        final(out)@ == old(out)@ + zeros(n as nat),
{
    let mut i: usize = 0;
    while i < n
        invariant
            0 <= i <= n,
            out@ == old(out)@ + zeros(i as nat),
        decreases n - i,
    {
        out.push(0);
        i = i + 1;
        assert(out@ =~= old(out)@ + zeros(i as nat));
    }
}

/// Lays out a program input the way the runtime does: the accounts the lists describe, the
/// instruction data and the program id.
pub fn write_program_input_bytes(
    accounts: &[Option<AccountRegion>],
    account_references: &[u8],
    instruction_data: &[u8],
    program_id: &Pubkey,
) -> (r: Vec<u8>)
    requires
        lists_fit(accounts@, account_references@),
    ensures
        r@ == serialize_program_input(
            ProgramInput {
                entries: lists_entries(accounts@, account_references@),
                instruction_data: instruction_data@,
                program_id: program_id@,
            },
        ),
{
    let ghost es = lists_entries(accounts@, account_references@);
    let mut out: Vec<u8> = Vec::new();
    extend_from_slice(&mut out, u32_to_le_array(accounts.len() as u32).as_slice());
    let ghost head = out@;
    assert(head.len() == 4) by {
        vstd::bytes::lemma_auto_spec_u32_to_from_le_bytes();
    }
    let mut k: usize = 0;
    while k < accounts.len()
        invariant
            0 <= k <= accounts@.len(),
            es == lists_entries(accounts@, account_references@),
            lists_fit(accounts@, account_references@),
            head.len() == 4,
            out@ == head + serialize_entries(es.take(k as int)),
            out@.len() <= 8 + k * (0xA0_0000 + 0x4000),
        decreases accounts@.len() - k,
    {
        let ghost before = out@;
        let ghost pos = out@.len() as int;
        assert(before.len() <= 8 + 254 * (0xA0_0000 + 0x4000)) by (nonlinear_arith)
            requires
                before.len() <= 8 + k * (0xA0_0000 + 0x4000),
                k < 255,
        ;
        assert(es.take(k + 1).drop_last() =~= es.take(k as int));
        assert(es.take(k + 1).last() == es[k as int]);
        match &accounts[k] {
            Some(region) => {
                assert(region.data@.len() <= MAX_ACCOUNT_DATA_LEN);
                region.header.write_abi_bytes(&mut out);
                extend_from_slice(&mut out, region.data.as_slice());
                let data_end = out.len();
                let end = data_end + 10240 + 8;
                let aligned = (end + 7) / 8 * 8;
                push_zeros(&mut out, aligned - data_end);
                assert(out@ =~= before + serialize_entry(es[k as int], pos));
            },
            None => {
                out.push(account_references[k]);
                push_zeros(&mut out, 7);
                assert(out@ =~= before + serialize_entry(es[k as int], pos));
            },
        }
        k = k + 1;
        assert(out@ =~= head + serialize_entries(es.take(k as int)));
        assert(out@.len() <= 8 + k * (0xA0_0000 + 0x4000)) by (nonlinear_arith)
            requires
                before.len() <= 8 + (k - 1) * (0xA0_0000 + 0x4000),
                out@.len() <= before.len() + 0xA0_0000 + 0x4000,
        ;
    }
    assert(es.take(accounts@.len() as int) =~= es);
    extend_from_slice(&mut out, u64_to_le_array(instruction_data.len() as u64).as_slice());
    extend_from_slice(&mut out, instruction_data);
    extend_from_slice(&mut out, program_id.as_slice());
    assert(out@ =~= serialize_program_input(
        ProgramInput { entries: es, instruction_data: instruction_data@, program_id: program_id@ },
    ));
    out
}

/// Every full account entry holds at most [`MAX_ACCOUNT_DATA_LEN`] data bytes, and its header
/// records the length of its data.
pub open spec fn entries_fit(entries: Seq<InputEntry>) -> bool {
    forall|i: int|
        0 <= i < entries.len() ==> (#[trigger] entries[i] matches InputEntry::Full(state)
            ==> state.data.len() <= MAX_ACCOUNT_DATA_LEN && state.header.spec_data_len()
            == state.data.len())
}

/// The account list after [`write_back`]: the first accounts as the lists hold them, and the
/// accounts past the lists as `entries` has them.
pub open spec fn merged_entries(
    entries: Seq<InputEntry>,
    accounts: Seq<Option<AccountRegion>>,
    account_references: Seq<u8>,
) -> Seq<InputEntry> {
    lists_entries(accounts, account_references) + entries.subrange(
        accounts.len() as int,
        entries.len() as int,
    )
}

/// The program input after [`write_back`]: the accounts as the lists hold them, followed by the
/// accounts past the lists, with the instruction data and the program id of `input`.
pub open spec fn written_back(
    input: ProgramInput,
    accounts: Seq<Option<AccountRegion>>,
    account_references: Seq<u8>,
) -> Seq<u8> {
    serialize_program_input(
        ProgramInput {
            entries: merged_entries(input.entries, accounts, account_references),
            instruction_data: input.instruction_data,
            program_id: input.program_id,
        },
    )
}

/// A copy of an account list entry.
fn duplicate_entry(entry: &Option<AccountRegion>) -> (r: Option<AccountRegion>)
    ensures
        match *entry {
            Some(region) => r matches Some(copy) && copy@ == region@ && copy.data@.len()
                == region.data@.len(),
            None => r is None,
        },
{
    match entry {
        Some(region) => Some(region.duplicate()),
        None => None,
    }
}

/// Writes the accounts, as the lists hold them after the program has updated them, back into the
/// program input, in the runtime layout.  The lists describe the first accounts of the input;
/// the accounts past them are written back as the input holds them.  Input that does not read
/// as a program input is refused with the error reading it gives; lists longer than the account
/// list of the input, with another number of references than accounts, or that leave account
/// data longer than [`MAX_ACCOUNT_DATA_LEN`] or a header whose data length does not match the
/// data, are refused with `InvalidArgument`.  On a refusal the input is
/// left unchanged.
pub fn write_back(
    input: &mut Vec<u8>,
    accounts: &[Option<AccountRegion>],
    account_references: &[u8],
) -> (r: Result<(), ProgramError>)
    requires
        old(input)@.len() <= usize::MAX - 0x10000,
    ensures
        match spec_parse_program_input(old(input)@) {
            Err(e) => r == Err::<(), ProgramError>(e) && final(input)@ == old(input)@,
            Ok(p) => if accounts@.len() <= p.entries.len() && account_references@.len()
                == accounts@.len() && entries_fit(
                merged_entries(p.entries, accounts@, account_references@),
            ) {
                r is Ok && final(input)@ == written_back(p, accounts@, account_references@)
            } else {
                r == Err::<(), ProgramError>(ProgramError::InvalidArgument) && final(input)@ == old(
                    input,
                )@
            },
        },
{
    let mut parsed_accounts: Vec<Option<AccountRegion>> = Vec::new();
    let mut parsed_references: Vec<u8> = Vec::new();
    let bytes = match parse_program_input(
        &mut parsed_accounts,
        &mut parsed_references,
        255,
        input.as_slice(),
    ) {
        Err(e) => return Err(e),
        Ok(parsed) => {
            let n = parsed.num_accounts as usize;
            if accounts.len() > n || account_references.len() != accounts.len() {
                return Err(ProgramError::InvalidArgument);
            }
            let ghost p = spec_parse_program_input(input@)->Ok_0;
            let ghost merged = merged_entries(p.entries, accounts@, account_references@);
            let mut merged_accounts: Vec<Option<AccountRegion>> = Vec::new();
            let mut merged_references: Vec<u8> = Vec::new();
            let mut i: usize = 0;
            while i < n
                invariant
                    0 <= i <= n,
                    n == p.entries.len(),
                    n <= 255,
                    input@ == old(input)@,
                    spec_parse_program_input(input@) == Ok::<ProgramInput, ProgramError>(p),
                    accounts@.len() <= n,
                    account_references@.len() == accounts@.len(),
                    parsed_accounts@.len() == n,
                    records_entries(parsed_accounts@, parsed_references@, p.entries),
                    merged == merged_entries(p.entries, accounts@, account_references@),
                    merged.len() == n,
                    merged_accounts@.len() == i,
                    merged_references@.len() == i,
                    forall|j: int|
                        0 <= j < i ==> #[trigger] lists_entries(
                            merged_accounts@,
                            merged_references@,
                        )[j] == merged[j],
                    forall|j: int|
                        0 <= j < i ==> (#[trigger] merged_accounts@[j] matches Some(region)
                            ==> region.data@.len() <= MAX_ACCOUNT_DATA_LEN
                            && region.header.spec_data_len() == region.data@.len()),
                decreases n - i,
            {
                let ghost pa = merged_accounts@;
                let ghost pr = merged_references@;
                let (entry, reference) = if i < accounts.len() {
                    (duplicate_entry(&accounts[i]), account_references[i])
                } else {
                    (duplicate_entry(&parsed_accounts[i]), parsed_references[i])
                };
                assert(lists_entries(seq![entry], seq![reference])[0] == merged[i as int]) by {
                    if i >= accounts@.len() {
                        match p.entries[i as int] {
                            InputEntry::Full(state) => {},
                            InputEntry::Duplicate(d) => {},
                        }
                    }
                }
                if let Some(region) = &entry {
                    if region.data.len() > MAX_ACCOUNT_DATA_LEN || region.header.data_len()
                        != region.data.len() as u64 {
                        assert(merged[i as int] matches InputEntry::Full(state)
                            && !(state.data.len() <= MAX_ACCOUNT_DATA_LEN
                            && state.header.spec_data_len() == state.data.len()));
                        return Err(ProgramError::InvalidArgument);
                    }
                }
                merged_accounts.push(entry);
                merged_references.push(reference);
                i = i + 1;
                assert forall|j: int| 0 <= j < i implies #[trigger] lists_entries(
                    merged_accounts@,
                    merged_references@,
                )[j] == merged[j] by {
                    if j < i - 1 {
                        assert(merged_accounts@[j] == pa[j]);
                        assert(merged_references@[j] == pr[j]);
                        assert(lists_entries(pa, pr)[j] == merged[j]);
                    }
                }
            }
            assert(lists_entries(merged_accounts@, merged_references@) =~= merged);
            write_program_input_bytes(
                merged_accounts.as_slice(),
                merged_references.as_slice(),
                parsed.instruction_data,
                &parsed.program_id,
            )
        },
    };
    *input = bytes;
    Ok(())
}

/// Writing back the lists exactly as [`parse_program_input`] filled them, from an input laid out
/// by the runtime, gives back the same input bytes: write-back only changes what the program
/// changed.
///
/// [`parse_program_input`]: crate::entrypoint_v2::parse_program_input
pub proof fn lemma_write_back_of_unchanged_lists(
    input: ProgramInput,
    accounts: Seq<Option<AccountRegion>>,
    account_references: Seq<u8>,
)
    requires
        records_entries(accounts, account_references, input.entries),
    ensures
        written_back(input, accounts, account_references) == serialize_program_input(input),
{
    assert(merged_entries(input.entries, accounts, account_references) =~= input.entries) by {
        assert forall|i: int| 0 <= i < accounts.len() implies lists_entries(
            accounts,
            account_references,
        )[i] == input.entries[i] by {
            match input.entries[i] {
                InputEntry::Full(state) => {},
                InputEntry::Duplicate(r) => {},
            }
        }
    }
    assert(ProgramInput {
        entries: merged_entries(input.entries, accounts, account_references),
        instruction_data: input.instruction_data,
        program_id: input.program_id,
    } == input);
}

/// What [`write_back`] lays out reads back as the accounts the program left, followed by the
/// accounts past the lists, with the same instruction data and program id, whenever that is an
/// input the runtime can pass.
pub proof fn lemma_written_back_reads_back(
    input: ProgramInput,
    accounts: Seq<Option<AccountRegion>>,
    account_references: Seq<u8>,
)
    requires
        program_input_wf(
            ProgramInput {
                entries: merged_entries(input.entries, accounts, account_references),
                instruction_data: input.instruction_data,
                program_id: input.program_id,
            },
        ),
    ensures
        spec_parse_program_input(written_back(input, accounts, account_references)) == Ok::<
            ProgramInput,
            ProgramError,
        >(
            ProgramInput {
                entries: merged_entries(input.entries, accounts, account_references),
                instruction_data: input.instruction_data,
                program_id: input.program_id,
            },
        ),
{
    lemma_parse_serialized_program_input(
        ProgramInput {
            entries: merged_entries(input.entries, accounts, account_references),
            instruction_data: input.instruction_data,
            program_id: input.program_id,
        },
    );
}

} // verus!
