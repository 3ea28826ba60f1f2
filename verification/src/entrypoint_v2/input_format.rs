//! The layout of the program input, as the runtime serializes it.
//!
//! * 4 bytes: the number of accounts, little-endian.
//! * the accounts, one after the other.  An account that appears in the list for the first time
//!   is a full account block: the 88 byte header (see [`crate::account::abi_account_header`]),
//!   whose first byte is `u8::MAX`, followed by the account data, 10 KiB of space for data growth,
//!   8 bytes of rent epoch, and padding up to the next multiple of 8.  An account that already
//!   appeared in the list is 8 bytes: the index of its first appearance, followed by 7 bytes of
//!   padding.
//! * 8 bytes: the length of the instruction data, little-endian.
//! * the instruction data.
//! * 32 bytes: the program id.
//!
//! Offsets are relative to the start of the input, which the runtime aligns to 8 bytes.

use vstd::prelude::*;

use crate::account::abi_account_header::ABI_ACCOUNT_HEADER_SIZE;
use crate::account::abi_account_header::lemma_abi_bytes_injective;
use crate::account::{AbiAccountHeader, AccountState};
use crate::entrypoint_v2::program_account_parser::NOT_A_DUPLICATE;
use crate::program_error::ProgramError;

verus! {

/// Size of the account count that starts the program input.
pub const ACCOUNT_COUNT_SIZE: usize = 4;

/// Space the runtime reserves after the account data for growth within one instruction.
pub const MAX_PERMITTED_DATA_INCREASE: usize = 10240;

/// Alignment of the account blocks in the program input.
pub const BPF_ALIGN_OF_U128: usize = 8;

/// Size of the rent epoch field that follows the data growth space.
pub const RENT_EPOCH_SIZE: usize = 8;

/// Size of a duplicate account entry.
pub const DUPLICATE_ENTRY_SIZE: usize = 8;

/// One entry of the account list in the program input.
pub ghost enum InputEntry {
    /// The first appearance of an account: its header and data.
    Full(AccountState),
    /// A repeated account: the index of its first appearance.
    Duplicate(u8),
}

/// What the program input holds.
pub ghost struct ProgramInput {
    pub entries: Seq<InputEntry>,
    pub instruction_data: Seq<u8>,
    pub program_id: Seq<u8>,
}

/// Rounds `x` up to a multiple of the account block alignment.
pub open spec fn align_up(x: int) -> int {
    (x + 7) / 8 * 8
}

/// Little-endian `u32` stored at `pos`.
pub open spec fn u32_at(input: Seq<u8>, pos: int) -> u32 {
    vstd::bytes::spec_u32_from_le_bytes(input.subrange(pos, pos + 4))
}

/// Little-endian `u64` stored at `pos`.
pub open spec fn u64_at(input: Seq<u8>, pos: int) -> u64 {
    vstd::bytes::spec_u64_from_le_bytes(input.subrange(pos, pos + 8))
}

/// The header whose runtime layout starts at `pos`.
pub open spec fn header_at(input: Seq<u8>, pos: int) -> AbiAccountHeader {
    choose|h: AbiAccountHeader| h.abi_bytes() == input.subrange(pos, pos + ABI_ACCOUNT_HEADER_SIZE)
}

/// Where the block of a full account whose data is `data_len` bytes long and which starts at
/// `pos` ends, including the growth space, the rent epoch and the alignment padding.
pub open spec fn full_entry_end(pos: int, data_len: int) -> int {
    align_up(pos + ABI_ACCOUNT_HEADER_SIZE + data_len + MAX_PERMITTED_DATA_INCREASE + RENT_EPOCH_SIZE)
}

/// Reads the account list entry at `pos`, when `earlier` entries precede it.  A duplicate entry
/// must reference an earlier full account.
pub open spec fn spec_parse_entry(input: Seq<u8>, pos: int, earlier: Seq<InputEntry>) -> Result<
    (InputEntry, int),
    ProgramError,
> {
    if pos + 1 > input.len() {
        Err(ProgramError::InvalidAccountData)
    } else if input[pos] != NOT_A_DUPLICATE {
        let r = input[pos];
        if (r as int) < earlier.len() && earlier[r as int] is Full {
            Ok((InputEntry::Duplicate(r), pos + DUPLICATE_ENTRY_SIZE))
        } else {
            Err(ProgramError::InvalidAccountData)
        }
    } else if pos + ABI_ACCOUNT_HEADER_SIZE > input.len() {
        Err(ProgramError::InvalidAccountData)
    } else {
        let header = header_at(input, pos);
        let data_len = header.spec_data_len() as int;
        let data_start = pos + ABI_ACCOUNT_HEADER_SIZE;
        if data_start + data_len > input.len() {
            Err(ProgramError::InvalidAccountData)
        } else {
            Ok(
                (
                    InputEntry::Full(
                        AccountState {
                            header,
                            data: input.subrange(data_start, data_start + data_len),
                        },
                    ),
                    full_entry_end(pos, data_len),
                ),
            )
        }
    }
}

/// Reads the first `count` entries of the account list, starting at `pos`.  Returns the entries
/// and the position right after them.
pub open spec fn spec_parse_entries(input: Seq<u8>, pos: int, count: nat) -> Result<
    (Seq<InputEntry>, int),
    ProgramError,
>
    decreases count,
{
    if count == 0 {
        Ok((Seq::empty(), pos))
    } else {
        match spec_parse_entries(input, pos, (count - 1) as nat) {
            Err(e) => Err(e),
            Ok((entries, next)) => match spec_parse_entry(input, next, entries) {
                Err(e) => Err(e),
                Ok((entry, after)) => Ok((entries.push(entry), after)),
            },
        }
    }
}

/// Reads the program input, whatever the number of accounts.  Input that ends before the account
/// list does is refused with `InvalidAccountData`, and so are duplicate entries that do not
/// reference an earlier full account; input that ends before the instruction data or the program
/// id does is refused with `InvalidInstructionData`.
pub open spec fn spec_read_program_input(input: Seq<u8>) -> Result<ProgramInput, ProgramError> {
    if input.len() < ACCOUNT_COUNT_SIZE {
        Err(ProgramError::InvalidAccountData)
    } else {
        let count = u32_at(input, 0);
        match spec_parse_entries(input, ACCOUNT_COUNT_SIZE as int, count as nat) {
            Err(e) => Err(e),
            Ok((entries, pos)) => {
                if pos + 8 > input.len() {
                    Err(ProgramError::InvalidInstructionData)
                } else {
                    let data_len = u64_at(input, pos) as int;
                    let data_start = pos + 8;
                    if data_start + data_len + 32 > input.len() {
                        Err(ProgramError::InvalidInstructionData)
                    } else {
                        Ok(
                            ProgramInput {
                                entries,
                                instruction_data: input.subrange(data_start, data_start + data_len),
                                program_id: input.subrange(
                                    data_start + data_len,
                                    data_start + data_len + 32,
                                ),
                            },
                        )
                    }
                }
            },
        }
    }
}

/// Reads the program input, as [`spec_read_program_input`] does, and then refuses more than 255
/// accounts with `InvalidAccountData`.
pub open spec fn spec_parse_program_input(input: Seq<u8>) -> Result<ProgramInput, ProgramError> {
    match spec_read_program_input(input) {
        Err(e) => Err(e),
        Ok(p) => if p.entries.len() > 255 {
            Err(ProgramError::InvalidAccountData)
        } else {
            Ok(p)
        },
    }
}

/// An account list read by [`spec_parse_entries`] only has duplicates that point at earlier full
/// accounts, and full accounts whose header records the length of their data.
pub open spec fn entries_wf(entries: Seq<InputEntry>) -> bool {
    forall|i: int|
        0 <= i < entries.len() ==> match #[trigger] entries[i] {
            InputEntry::Full(state) => state.header.spec_data_len() == state.data.len(),
            InputEntry::Duplicate(r) => r != NOT_A_DUPLICATE && (r as int) < i && entries[
                r as int] is Full,
        }
}

/// The header found at `pos` is the one whose runtime layout is there.
pub proof fn lemma_header_at(input: Seq<u8>, pos: int, h: AbiAccountHeader)
    requires
        h.abi_bytes() == input.subrange(pos, pos + ABI_ACCOUNT_HEADER_SIZE),
    ensures
        header_at(input, pos) == h,
{
    let c = header_at(input, pos);
    lemma_abi_bytes_injective(c, h);
}

/// `n` zero bytes.
pub open spec fn zeros(n: nat) -> Seq<u8> {
    Seq::new(n, |i: int| 0u8)
}

/// The bytes of an account list entry that starts at `pos`.
pub open spec fn serialize_entry(entry: InputEntry, pos: int) -> Seq<u8> {
    match entry {
        InputEntry::Full(state) => {
            let data_end = pos + ABI_ACCOUNT_HEADER_SIZE + state.data.len();
            state.header.abi_bytes() + state.data + zeros(
                (full_entry_end(pos, state.data.len() as int) - data_end) as nat,
            )
        },
        InputEntry::Duplicate(r) => seq![r] + zeros(7),
    }
}

/// The bytes of an account list that starts right after the account count.
pub open spec fn serialize_entries(entries: Seq<InputEntry>) -> Seq<u8>
    decreases entries.len(),
{
    if entries.len() == 0 {
        Seq::empty()
    } else {
        let prefix = serialize_entries(entries.drop_last());
        prefix + serialize_entry(entries.last(), ACCOUNT_COUNT_SIZE + prefix.len() as int)
    }
}

/// The program input bytes, as the runtime lays them out.
pub open spec fn serialize_program_input(input: ProgramInput) -> Seq<u8> {
    vstd::bytes::spec_u32_to_le_bytes(input.entries.len() as u32) + serialize_entries(input.entries)
        + vstd::bytes::spec_u64_to_le_bytes(input.instruction_data.len() as u64)
        + input.instruction_data + input.program_id
}

/// What the runtime can pass to a program: at most 255 accounts, full accounts whose header
/// marks them as full accounts and records their data length, repeated accounts that point at an
/// earlier full account, and a 32 byte program id.
pub open spec fn program_input_wf(input: ProgramInput) -> bool {
    &&& input.entries.len() <= 255
    &&& entries_wf(input.entries)
    &&& forall|i: int|
        0 <= i < input.entries.len() ==> (#[trigger] input.entries[i] matches InputEntry::Full(
            state,
        ) ==> state.header.duplicate_reference == NOT_A_DUPLICATE)
    &&& input.instruction_data.len() <= u64::MAX
    &&& input.program_id.len() == 32
}

proof fn lemma_align_up(x: int)
    requires
        0 <= x,
    ensures
        x <= align_up(x) <= x + 7,
{
}

proof fn lemma_serialize_entries_prefix(entries: Seq<InputEntry>, k: int)
    requires
        0 <= k <= entries.len(),
    ensures
        serialize_entries(entries.take(k)).len() <= serialize_entries(entries).len(),
        serialize_entries(entries).subrange(0, serialize_entries(entries.take(k)).len() as int)
            == serialize_entries(entries.take(k)),
    decreases entries.len(),
{
    if k < entries.len() {
        let dl = entries.drop_last();
        let prefix = serialize_entries(dl);
        assert(dl.take(k) =~= entries.take(k));
        lemma_serialize_entries_prefix(dl, k);
        let all = serialize_entries(entries);
        assert(all == prefix + serialize_entry(entries.last(), ACCOUNT_COUNT_SIZE + prefix.len() as int));
        let l = serialize_entries(entries.take(k)).len() as int;
        assert(all.subrange(0, l) =~= prefix.subrange(0, l));
    } else {
        assert(entries.take(k) =~= entries);
    }
}

/// An entry laid out at `pos` reads back as that entry.
proof fn lemma_parse_entry_step(s: Seq<u8>, pos: int, entry: InputEntry, earlier: Seq<InputEntry>)
    requires
        0 <= pos,
        pos + serialize_entry(entry, pos).len() <= s.len(),
        s.subrange(pos, pos + serialize_entry(entry, pos).len()) == serialize_entry(entry, pos),
        match entry {
            InputEntry::Full(state) => state.header.duplicate_reference == NOT_A_DUPLICATE
                && state.header.spec_data_len() == state.data.len(),
            InputEntry::Duplicate(r) => r != NOT_A_DUPLICATE && (r as int) < earlier.len()
                && earlier[r as int] is Full,
        },
    ensures
        spec_parse_entry(s, pos, earlier) == Ok::<(InputEntry, int), ProgramError>(
            (entry, pos + serialize_entry(entry, pos).len()),
        ),
{
    let ser = serialize_entry(entry, pos);
    assert(s[pos] == ser[0]);
    match entry {
        InputEntry::Full(state) => {
            let d = state.data.len() as int;
            lemma_align_up(
                pos + ABI_ACCOUNT_HEADER_SIZE + d + MAX_PERMITTED_DATA_INCREASE + RENT_EPOCH_SIZE,
            );
            assert(state.header.abi_bytes().len() == ABI_ACCOUNT_HEADER_SIZE);
            assert(s.subrange(pos, pos + ABI_ACCOUNT_HEADER_SIZE) =~= state.header.abi_bytes()) by {
                assert forall|t: int| 0 <= t < ABI_ACCOUNT_HEADER_SIZE implies s[pos + t]
                    == state.header.abi_bytes()[t] by {
                    assert(s.subrange(pos, pos + ser.len())[t] == ser[t]);
                }
            }
            lemma_header_at(s, pos, state.header);
            let data_start = pos + ABI_ACCOUNT_HEADER_SIZE;
            assert(s.subrange(data_start, data_start + d) =~= state.data) by {
                assert forall|t: int| 0 <= t < d implies s[data_start + t] == state.data[t] by {
                    assert(s.subrange(pos, pos + ser.len())[ABI_ACCOUNT_HEADER_SIZE + t]
                        == ser[ABI_ACCOUNT_HEADER_SIZE + t]);
                }
            }
            assert(ser.len() == full_entry_end(pos, d) - pos);
        },
        InputEntry::Duplicate(r) => {
            assert(s.subrange(pos, pos + ser.len())[0] == ser[0]);
        },
    }
}

/// The bytes of entry `j` sit right after the bytes of the entries before it.
proof fn lemma_entry_bytes(input: ProgramInput, j: int)
    requires
        0 <= j < input.entries.len(),
    ensures
        ({
            let s = serialize_program_input(input);
            let pos: int = ACCOUNT_COUNT_SIZE + serialize_entries(input.entries.take(j)).len() as int;
            let ser = serialize_entry(input.entries[j], pos);
            &&& pos + ser.len() <= ACCOUNT_COUNT_SIZE + serialize_entries(input.entries).len()
            &&& ACCOUNT_COUNT_SIZE + serialize_entries(input.entries).len() <= s.len()
            &&& s.subrange(pos, pos + ser.len()) == ser
            &&& serialize_entries(input.entries.take(j + 1)) == serialize_entries(
                input.entries.take(j),
            ) + ser
        }),
{
    let s = serialize_program_input(input);
    let es = input.entries;
    let prev = es.take(j);
    let pos: int = ACCOUNT_COUNT_SIZE + serialize_entries(prev).len() as int;
    let ser = serialize_entry(es[j], pos);
    let k = j + 1;
    assert(es.take(k).drop_last() =~= prev);
    assert(es.take(k).last() == es[j]);
    let whole = serialize_entries(es.take(k));
    assert(whole == serialize_entries(prev) + ser);
    lemma_serialize_entries_prefix(es, k);
    let all = serialize_entries(es);
    vstd::bytes::lemma_auto_spec_u64_to_from_le_bytes();
    vstd::bytes::lemma_auto_spec_u32_to_from_le_bytes();
    let head = vstd::bytes::spec_u32_to_le_bytes(es.len() as u32);
    assert(head.len() == 4);
    assert(s == head + all + (vstd::bytes::spec_u64_to_le_bytes(input.instruction_data.len() as u64)
        + input.instruction_data + input.program_id));
    assert(s.subrange(pos, pos + ser.len()) =~= ser) by {
        assert forall|t: int| 0 <= t < ser.len() implies s[pos + t] == ser[t] by {
            assert(whole[serialize_entries(prev).len() + t] == ser[t]);
            assert(all.subrange(0, whole.len() as int)[serialize_entries(prev).len() + t]
                == whole[serialize_entries(prev).len() + t]);
        }
    }
}

/// Reading the account list back from its bytes gives the first `k` entries, one at a time.
proof fn lemma_parse_serialized_entries(input: ProgramInput, k: nat)
    requires
        program_input_wf(input),
        k <= input.entries.len(),
    ensures
        spec_parse_entries(serialize_program_input(input), ACCOUNT_COUNT_SIZE as int, k) == Ok::<
            (Seq<InputEntry>, int),
            ProgramError,
        >(
            (
                input.entries.take(k as int),
                ACCOUNT_COUNT_SIZE + serialize_entries(input.entries.take(k as int)).len() as int,
            ),
        ),
    decreases k,
{
    let s = serialize_program_input(input);
    let es = input.entries;
    if k == 0 {
        assert(es.take(0) =~= Seq::<InputEntry>::empty());
    } else {
        let j = (k - 1) as int;
        lemma_parse_serialized_entries(input, (k - 1) as nat);
        let prev = es.take(j);
        let pos: int = ACCOUNT_COUNT_SIZE + serialize_entries(prev).len() as int;
        let entry = es[j];
        lemma_entry_bytes(input, j);
        match entry {
            InputEntry::Full(state) => {
                assert(es[j] matches InputEntry::Full(st) ==> st.header.duplicate_reference
                    == NOT_A_DUPLICATE);
            },
            InputEntry::Duplicate(r) => {
                assert(prev[r as int] == es[r as int]);
            },
        }
        lemma_parse_entry_step(s, pos, entry, prev);
        assert(prev.push(entry) =~= es.take(k as int));
    }
}

/// Reading the program input back from its runtime layout gives back exactly the accounts, the
/// instruction data and the program id that were laid out, for every input the runtime can pass.
pub proof fn lemma_parse_serialized_program_input(input: ProgramInput)
    requires
        program_input_wf(input),
    ensures
        spec_parse_program_input(serialize_program_input(input)) == Ok::<ProgramInput, ProgramError>(
            input,
        ),
{
    let s = serialize_program_input(input);
    let es = input.entries;
    let n = es.len();
    vstd::bytes::lemma_auto_spec_u64_to_from_le_bytes();
    vstd::bytes::lemma_auto_spec_u32_to_from_le_bytes();
    let head = vstd::bytes::spec_u32_to_le_bytes(n as u32);
    let body = serialize_entries(es);
    let tail_len = vstd::bytes::spec_u64_to_le_bytes(input.instruction_data.len() as u64);
    assert(s.subrange(0, 4) =~= head);
    assert(u32_at(s, 0) == n as u32);
    lemma_parse_serialized_entries(input, n);
    assert(es.take(n as int) =~= es);
    let pos: int = ACCOUNT_COUNT_SIZE + body.len() as int;
    assert(s.subrange(pos, pos + 8) =~= tail_len);
    assert(u64_at(s, pos) == input.instruction_data.len() as u64);
    let data_start = pos + 8;
    let l = input.instruction_data.len() as int;
    assert(s.subrange(data_start, data_start + l) =~= input.instruction_data);
    assert(s.subrange(data_start + l, data_start + l + 32) =~= input.program_id);
    assert(s.len() == data_start + l + 32);
}

} // verus!

