//! The account header as laid out by the runtime in the program input.
//!
//! ```text
//!      [ 0]       duplicate reference index (`u8::MAX` for an account that is not a duplicate)
//!      [ 1]       is signer (non-zero means signer)
//!      [ 2]       is writable (non-zero means writable)
//!      [ 3]       is executable (non-zero means executable)
//!      [ 4.. 7]   resize delta, little-endian `i32`
//!      [ 8..39]   account address
//!      [40..71]   owner address
//!      [72..79]   balance in lamports, little-endian `u64`
//!      [80..87]   account data length, little-endian `u64`
//!      [88..  ]   account data bytes
//! ```

use vstd::prelude::*;

use crate::bytes::{array_from_slice, extend_from_slice, u32_to_le_array, u64_to_le_array};
use crate::pubkey::Pubkey;

verus! {

/// Offset of the duplicate reference byte.
pub const DUPLICATE_REFERENCE_OFFSET: usize = 0;
/// Offset of the signer flag.
pub const IS_SIGNER_OFFSET: usize = 1;
/// Offset of the writable flag.
pub const IS_WRITABLE_OFFSET: usize = 2;
/// Offset of the executable flag.
pub const IS_EXECUTABLE_OFFSET: usize = 3;
/// Offset of the resize delta.
pub const RESIZE_DELTA_OFFSET: usize = 4;
/// Offset of the account address.
pub const ADDRESS_OFFSET: usize = 8;
/// Offset of the owner address.
pub const OWNER_OFFSET: usize = 40;
/// Offset of the lamports balance.
pub const LAMPORTS_OFFSET: usize = 72;
/// Offset of the data length.
pub const DATA_LEN_OFFSET: usize = 80;
/// Size of the serialized header; the account data starts right after it.
pub const ABI_ACCOUNT_HEADER_SIZE: usize = 88;

/// Account header as provided by the runtime, for accounts that are not duplicates.
#[derive(Debug, Clone, Copy, PartialEq, Eq)]
pub struct AbiAccountHeader {
    pub duplicate_reference: u8,
    pub is_signer: u8,
    pub is_writable: u8,
    pub is_executable: u8,
    pub resize_delta: [u8; 4],
    pub address: Pubkey,
    pub owner: Pubkey,
    pub lamports: [u8; 8],
    pub data_len: [u8; 8],
}

/// One entry of the diagnostic output produced by [`AbiAccountHeader::log`].
#[derive(Debug, Clone, Copy, PartialEq, Eq)]
pub enum LogRecord {
    /// A fixed message.
    Message(&'static str),
    /// Five numbers, printed together.
    Numbers([u64; 5]),
    /// An address.
    Address(Pubkey),
}

impl AbiAccountHeader {
    /// The header bytes, in the order the runtime lays them out.
    pub open spec fn abi_bytes(self) -> Seq<u8> {
        seq![self.duplicate_reference, self.is_signer, self.is_writable, self.is_executable]
            + self.resize_delta@ + self.address@ + self.owner@ + self.lamports@ + self.data_len@
    }

    /// The resize delta as a number.
    pub open spec fn spec_resize_delta(self) -> i32 {
        vstd::bytes::spec_u32_from_le_bytes(self.resize_delta@) as i32
    }

    /// The balance as a number.
    pub open spec fn spec_lamports(self) -> u64 {
        vstd::bytes::spec_u64_from_le_bytes(self.lamports@)
    }

    /// The data length as a number.
    pub open spec fn spec_data_len(self) -> u64 {
        vstd::bytes::spec_u64_from_le_bytes(self.data_len@)
    }

    #[inline(always)]
    pub fn resize_delta(&self) -> (r: i32)
        ensures
            r == self.spec_resize_delta(),
    {
        vstd::bytes::u32_from_le_bytes(self.resize_delta.as_slice()) as i32
    }

    #[inline(always)]
    pub fn set_resize_delta(&mut self, value: i32)
        ensures
            *final(self) == (AbiAccountHeader {
                resize_delta: final(self).resize_delta,
                ..*old(self)
            }),
            final(self).resize_delta@ == vstd::bytes::spec_u32_to_le_bytes(
                #[verifier::truncate] (value as u32),
            ),
            final(self).spec_resize_delta() == value,
    {
        self.resize_delta = u32_to_le_array(value as u32);
        proof {
            lemma_resize_delta_read_after_write(*self, value);
        }
    }

    #[inline(always)]
    pub fn lamports(&self) -> (r: u64)
        ensures
            r == self.spec_lamports(),
    {
        vstd::bytes::u64_from_le_bytes(self.lamports.as_slice())
    }

    #[inline(always)]
    pub fn set_lamports(&mut self, value: u64)
        ensures
            *final(self) == (AbiAccountHeader { lamports: final(self).lamports, ..*old(self) }),
            final(self).lamports@ == vstd::bytes::spec_u64_to_le_bytes(value),
            final(self).spec_lamports() == value,
    {
        self.lamports = u64_to_le_array(value);
        proof {
            vstd::bytes::lemma_auto_spec_u64_to_from_le_bytes();
        }
    }

    #[inline(always)]
    pub fn data_len(&self) -> (r: u64)
        ensures
            r == self.spec_data_len(),
    {
        vstd::bytes::u64_from_le_bytes(self.data_len.as_slice())
    }

    #[inline(always)]
    pub fn set_data_len(&mut self, value: u64)
        ensures
            *final(self) == (AbiAccountHeader { data_len: final(self).data_len, ..*old(self) }),
            final(self).data_len@ == vstd::bytes::spec_u64_to_le_bytes(value),
            final(self).spec_data_len() == value,
    {
        self.data_len = u64_to_le_array(value);
        proof {
            vstd::bytes::lemma_auto_spec_u64_to_from_le_bytes();
        }
    }

    /// Reads a header out of `bytes`, starting at `offset`.
    pub fn from_abi_bytes(bytes: &[u8], offset: usize) -> (r: AbiAccountHeader)
        requires
            offset + ABI_ACCOUNT_HEADER_SIZE <= bytes@.len(),
        ensures
            r.abi_bytes() == bytes@.subrange(offset as int, offset + ABI_ACCOUNT_HEADER_SIZE),
    {
        let r = AbiAccountHeader {
            duplicate_reference: bytes[offset],
            is_signer: bytes[offset + 1],
            is_writable: bytes[offset + 2],
            is_executable: bytes[offset + 3],
            resize_delta: array_from_slice::<4>(bytes, offset + 4),
            address: array_from_slice::<32>(bytes, offset + 8),
            owner: array_from_slice::<32>(bytes, offset + 40),
            lamports: array_from_slice::<8>(bytes, offset + 72),
            data_len: array_from_slice::<8>(bytes, offset + 80),
        };
        assert(r.abi_bytes() =~= bytes@.subrange(offset as int, offset + ABI_ACCOUNT_HEADER_SIZE));
        r
    }

    /// Appends the header bytes, in the runtime layout, to `out`.
    pub fn write_abi_bytes(&self, out: &mut Vec<u8>)
        ensures
            final(out)@ == old(out)@ + self.abi_bytes(),
    {
        out.push(self.duplicate_reference);
        out.push(self.is_signer);
        out.push(self.is_writable);
        out.push(self.is_executable);
        extend_from_slice(out, self.resize_delta.as_slice());
        extend_from_slice(out, self.address.as_slice());
        extend_from_slice(out, self.owner.as_slice());
        extend_from_slice(out, self.lamports.as_slice());
        extend_from_slice(out, self.data_len.as_slice());
        assert(out@ =~= old(out)@ + self.abi_bytes());
    }

    /// What a diagnostic dump of the header prints, in order.
    pub fn log(&self) -> (r: Vec<LogRecord>)
        ensures
            r@ == seq![
                LogRecord::Message(
                    "duplicate_reference, is_signer, is_writable, is_executable, resize_delta",
                ),
                LogRecord::Numbers(
                    [
                        self.duplicate_reference as u64,
                        self.is_signer as u64,
                        self.is_writable as u64,
                        self.is_executable as u64,
                        self.spec_resize_delta() as u64,
                    ],
                ),
                LogRecord::Message("address"),
                LogRecord::Address(self.address),
                LogRecord::Message("owner"),
                LogRecord::Address(self.owner),
                LogRecord::Message("lamports, data_len"),
                LogRecord::Numbers([self.spec_lamports(), self.spec_data_len(), 0, 0, 0]),
            ],
    {
        let mut r: Vec<LogRecord> = Vec::new();
        r.push(
            LogRecord::Message(
                "duplicate_reference, is_signer, is_writable, is_executable, resize_delta",
            ),
        );
        r.push(
            LogRecord::Numbers(
                [
                    self.duplicate_reference as u64,
                    self.is_signer as u64,
                    self.is_writable as u64,
                    self.is_executable as u64,
                    self.resize_delta() as u64,
                ],
            ),
        );
        r.push(LogRecord::Message("address"));
        r.push(LogRecord::Address(self.address));
        r.push(LogRecord::Message("owner"));
        r.push(LogRecord::Address(self.owner));
        r.push(LogRecord::Message("lamports, data_len"));
        r.push(LogRecord::Numbers([self.lamports(), self.data_len(), 0, 0, 0]));
        r
    }
}

/// The header bytes determine the header: two headers with the same runtime layout are equal.
pub proof fn lemma_abi_bytes_injective(a: AbiAccountHeader, b: AbiAccountHeader)
    requires
        a.abi_bytes() == b.abi_bytes(),
    ensures
        a == b,
{
    let sa = a.abi_bytes();
    let sb = b.abi_bytes();
    assert(a.resize_delta@ =~= sa.subrange(4, 8));
    assert(b.resize_delta@ =~= sb.subrange(4, 8));
    assert(a.address@ =~= sa.subrange(8, 40));
    assert(b.address@ =~= sb.subrange(8, 40));
    assert(a.owner@ =~= sa.subrange(40, 72));
    assert(b.owner@ =~= sb.subrange(40, 72));
    assert(a.lamports@ =~= sa.subrange(72, 80));
    assert(b.lamports@ =~= sb.subrange(72, 80));
    assert(a.data_len@ =~= sa.subrange(80, 88));
    assert(b.data_len@ =~= sb.subrange(80, 88));
    assert(sa[0] == sb[0] && sa[1] == sb[1] && sa[2] == sb[2] && sa[3] == sb[3]);
    assert(a.resize_delta =~= b.resize_delta);
    assert(a.address =~= b.address);
    assert(a.owner =~= b.owner);
    assert(a.lamports =~= b.lamports);
    assert(a.data_len =~= b.data_len);
}

/// Reading a header back from its own runtime layout gives the same header, for every header.
pub proof fn lemma_abi_bytes_roundtrip(h: AbiAccountHeader, bytes: Seq<u8>, offset: int)
    requires
        0 <= offset,
        offset + ABI_ACCOUNT_HEADER_SIZE <= bytes.len(),
        bytes.subrange(offset, offset + ABI_ACCOUNT_HEADER_SIZE) == h.abi_bytes(),
    ensures
        forall|r: AbiAccountHeader|
            r.abi_bytes() == bytes.subrange(offset, offset + ABI_ACCOUNT_HEADER_SIZE) ==> r == h,
{
    assert forall|r: AbiAccountHeader|
        r.abi_bytes() == bytes.subrange(offset, offset + ABI_ACCOUNT_HEADER_SIZE) implies r == h by {
        lemma_abi_bytes_injective(r, h);
    }
}

/// Every header is exactly [`ABI_ACCOUNT_HEADER_SIZE`] bytes long, and its fields sit at the
/// documented offsets.
pub proof fn lemma_abi_field_offsets(h: AbiAccountHeader)
    ensures
        h.abi_bytes().len() == ABI_ACCOUNT_HEADER_SIZE,
        h.abi_bytes()[DUPLICATE_REFERENCE_OFFSET as int] == h.duplicate_reference,
        h.abi_bytes()[IS_SIGNER_OFFSET as int] == h.is_signer,
        h.abi_bytes()[IS_WRITABLE_OFFSET as int] == h.is_writable,
        h.abi_bytes()[IS_EXECUTABLE_OFFSET as int] == h.is_executable,
        h.abi_bytes().subrange(RESIZE_DELTA_OFFSET as int, ADDRESS_OFFSET as int) == h.resize_delta@,
        h.abi_bytes().subrange(ADDRESS_OFFSET as int, OWNER_OFFSET as int) == h.address@,
        h.abi_bytes().subrange(OWNER_OFFSET as int, LAMPORTS_OFFSET as int) == h.owner@,
        h.abi_bytes().subrange(LAMPORTS_OFFSET as int, DATA_LEN_OFFSET as int) == h.lamports@,
        h.abi_bytes().subrange(DATA_LEN_OFFSET as int, ABI_ACCOUNT_HEADER_SIZE as int)
            == h.data_len@,
{
    let s = h.abi_bytes();
    assert(s.subrange(4, 8) =~= h.resize_delta@);
    assert(s.subrange(8, 40) =~= h.address@);
    assert(s.subrange(40, 72) =~= h.owner@);
    assert(s.subrange(72, 80) =~= h.lamports@);
    assert(s.subrange(80, 88) =~= h.data_len@);
}

/// Decoding the little-endian bytes of a resize delta gives the value back, for every value.
proof fn lemma_resize_delta_read_after_write(after: AbiAccountHeader, value: i32)
    requires
        after.resize_delta@ == vstd::bytes::spec_u32_to_le_bytes(#[verifier::truncate] (value as u32)),
    ensures
        after.spec_resize_delta() == value,
{
    vstd::bytes::lemma_auto_spec_u32_to_from_le_bytes();
    let x: u32 = #[verifier::truncate] (value as u32);
    assert(vstd::bytes::spec_u32_to_le_bytes(x).len() == 4);
    assert(#[verifier::truncate] (x as i32) == value) by (bit_vector)
        requires
            x == #[verifier::truncate] (value as u32),
    ;
}

} // verus!
