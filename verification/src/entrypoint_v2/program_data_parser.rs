//! Parsing of typed values out of the instruction data.
//!
//! Each parser converts a prefix of the data into a value and hands back the bytes that follow.
//! Integers are little-endian; `&str` is a length byte followed by that many UTF-8 bytes;
//! `Option<T>` is a byte that is `0` for `None` and `1` for `Some`, followed by a `T`; `&[u8]`
//! takes all of the remaining bytes.

use vstd::prelude::*;
use vstd::string::StringSliceAdditionalSpecFns;

use crate::program_error::ProgramError;
use crate::pubkey::Pubkey;

verus! {

/// Splits the first `N` bytes off `data` (`<[u8]>::split_first_chunk`).
///
/// Trusted: std documents that the call returns `None` when `data` has fewer than `N` bytes, and
/// otherwise the first `N` bytes and the rest.
#[verifier::external_body]
fn split_first_chunk<'a, const N: usize>(data: &'a [u8]) -> (r: Option<(&'a [u8; N], &'a [u8])>)
    ensures
        r is None <==> data@.len() < N,
        r matches Some((chunk, rest)) ==> chunk@ == data@.subrange(0, N as int) && rest@
            == data@.subrange(N as int, data@.len() as int),
{
    data.split_first_chunk::<N>()
}

/// Interprets `bytes` as UTF-8 (`core::str::from_utf8`).
///
/// Trusted: std documents that the call succeeds exactly when `bytes` is valid UTF-8, and then
/// returns a string made of those bytes.
#[verifier::external_body]
fn str_from_utf8<'a>(bytes: &'a [u8]) -> (r: Option<&'a str>)
    ensures
        r is Some <==> vstd::utf8::valid_utf8(bytes@),
        r matches Some(s) ==> s.spec_bytes() == bytes@,
{
    core::str::from_utf8(bytes).ok()
}

/// A type that can be parsed from the instruction data.
pub trait ProgramDataParser<'data>: Sized {
    /// Error produced when the data does not hold a `Self`.
    type Error;

    /// Parsing `data` produces `value`, using up its first `consumed` bytes.  Implementations
    /// define it; the default leaves it unspecified.
    open spec fn spec_parses_as(data: Seq<u8>, value: Self, consumed: int) -> bool {
        arbitrary()
    }

    /// Parsing `data` fails with `error`.  Implementations define it; the default leaves it
    /// unspecified.
    open spec fn spec_fails_with(data: Seq<u8>, error: Self::Error) -> bool {
        arbitrary()
    }

    /// Converts a prefix of `data` into an instance of `Self` and returns the rest of `data`, or
    /// returns an error if the prefix of `data` can not be treated as an instance of `Self`.
    fn parse(data: &'data [u8]) -> (r: Result<(Self, &'data [u8]), Self::Error>)
        ensures
            match r {
                Ok((value, rest)) => {
                    &&& rest@.len() <= data@.len()
                    &&& rest@ == data@.subrange(data@.len() - rest@.len(), data@.len() as int)
                    &&& Self::spec_parses_as(data@, value, data@.len() - rest@.len())
                },
                Err(e) => Self::spec_fails_with(data@, e),
            },
    ;
}

/// A fixed width value that needs `width` bytes fails to parse exactly when fewer are available.
pub open spec fn fails_short(data: Seq<u8>, width: int, error: ProgramError) -> bool {
    data.len() < width && error == ProgramError::InvalidInstructionData
}

impl<'data> ProgramDataParser<'data> for u8 {
    type Error = ProgramError;

    open spec fn spec_parses_as(data: Seq<u8>, value: u8, consumed: int) -> bool {
        data.len() >= 1 && consumed == 1 && value == data[0]
    }

    open spec fn spec_fails_with(data: Seq<u8>, error: ProgramError) -> bool {
        fails_short(data, 1, error)
    }

    fn parse(data: &'data [u8]) -> (r: Result<(u8, &'data [u8]), ProgramError>) {
        if data.len() < 1 {
            return Err(ProgramError::InvalidInstructionData);
        }
        let value = data[0];
        let rest = vstd::slice::slice_subrange(data, 1, data.len());
        Ok((value, rest))
    }
}

impl<'data> ProgramDataParser<'data> for i8 {
    type Error = ProgramError;

    open spec fn spec_parses_as(data: Seq<u8>, value: i8, consumed: int) -> bool {
        data.len() >= 1 && consumed == 1 && value == data[0] as i8
    }

    open spec fn spec_fails_with(data: Seq<u8>, error: ProgramError) -> bool {
        fails_short(data, 1, error)
    }

    fn parse(data: &'data [u8]) -> (r: Result<(i8, &'data [u8]), ProgramError>) {
        if data.len() < 1 {
            return Err(ProgramError::InvalidInstructionData);
        }
        let value = data[0] as i8;
        let rest = vstd::slice::slice_subrange(data, 1, data.len());
        Ok((value, rest))
    }
}

impl<'data> ProgramDataParser<'data> for u16 {
    type Error = ProgramError;

    open spec fn spec_parses_as(data: Seq<u8>, value: u16, consumed: int) -> bool {
        data.len() >= 2 && consumed == 2 && value == vstd::bytes::spec_u16_from_le_bytes(
            data.subrange(0, 2),
        )
    }

    open spec fn spec_fails_with(data: Seq<u8>, error: ProgramError) -> bool {
        fails_short(data, 2, error)
    }

    fn parse(data: &'data [u8]) -> (r: Result<(u16, &'data [u8]), ProgramError>) {
        let Some((value, rest)) = split_first_chunk::<2>(data) else {
            return Err(ProgramError::InvalidInstructionData);
        };
        Ok((vstd::bytes::u16_from_le_bytes(value.as_slice()), rest))
    }
}

impl<'data> ProgramDataParser<'data> for u32 {
    type Error = ProgramError;

    open spec fn spec_parses_as(data: Seq<u8>, value: u32, consumed: int) -> bool {
        data.len() >= 4 && consumed == 4 && value == vstd::bytes::spec_u32_from_le_bytes(
            data.subrange(0, 4),
        )
    }

    open spec fn spec_fails_with(data: Seq<u8>, error: ProgramError) -> bool {
        fails_short(data, 4, error)
    }

    fn parse(data: &'data [u8]) -> (r: Result<(u32, &'data [u8]), ProgramError>) {
        let Some((value, rest)) = split_first_chunk::<4>(data) else {
            return Err(ProgramError::InvalidInstructionData);
        };
        Ok((vstd::bytes::u32_from_le_bytes(value.as_slice()), rest))
    }
}

impl<'data> ProgramDataParser<'data> for u64 {
    type Error = ProgramError;

    open spec fn spec_parses_as(data: Seq<u8>, value: u64, consumed: int) -> bool {
        data.len() >= 8 && consumed == 8 && value == vstd::bytes::spec_u64_from_le_bytes(
            data.subrange(0, 8),
        )
    }

    open spec fn spec_fails_with(data: Seq<u8>, error: ProgramError) -> bool {
        fails_short(data, 8, error)
    }

    fn parse(data: &'data [u8]) -> (r: Result<(u64, &'data [u8]), ProgramError>) {
        let Some((value, rest)) = split_first_chunk::<8>(data) else {
            return Err(ProgramError::InvalidInstructionData);
        };
        Ok((vstd::bytes::u64_from_le_bytes(value.as_slice()), rest))
    }
}

impl<'data> ProgramDataParser<'data> for i16 {
    type Error = ProgramError;

    open spec fn spec_parses_as(data: Seq<u8>, value: i16, consumed: int) -> bool {
        data.len() >= 2 && consumed == 2 && value == vstd::bytes::spec_u16_from_le_bytes(
            data.subrange(0, 2),
        ) as i16
    }

    open spec fn spec_fails_with(data: Seq<u8>, error: ProgramError) -> bool {
        fails_short(data, 2, error)
    }

    fn parse(data: &'data [u8]) -> (r: Result<(i16, &'data [u8]), ProgramError>) {
        let Some((value, rest)) = split_first_chunk::<2>(data) else {
            return Err(ProgramError::InvalidInstructionData);
        };
        Ok((vstd::bytes::u16_from_le_bytes(value.as_slice()) as i16, rest))
    }
}

impl<'data> ProgramDataParser<'data> for i32 {
    type Error = ProgramError;

    open spec fn spec_parses_as(data: Seq<u8>, value: i32, consumed: int) -> bool {
        data.len() >= 4 && consumed == 4 && value == vstd::bytes::spec_u32_from_le_bytes(
            data.subrange(0, 4),
        ) as i32
    }

    open spec fn spec_fails_with(data: Seq<u8>, error: ProgramError) -> bool {
        fails_short(data, 4, error)
    }

    fn parse(data: &'data [u8]) -> (r: Result<(i32, &'data [u8]), ProgramError>) {
        let Some((value, rest)) = split_first_chunk::<4>(data) else {
            return Err(ProgramError::InvalidInstructionData);
        };
        Ok((vstd::bytes::u32_from_le_bytes(value.as_slice()) as i32, rest))
    }
}

impl<'data> ProgramDataParser<'data> for i64 {
    type Error = ProgramError;

    open spec fn spec_parses_as(data: Seq<u8>, value: i64, consumed: int) -> bool {
        data.len() >= 8 && consumed == 8 && value == vstd::bytes::spec_u64_from_le_bytes(
            data.subrange(0, 8),
        ) as i64
    }

    open spec fn spec_fails_with(data: Seq<u8>, error: ProgramError) -> bool {
        fails_short(data, 8, error)
    }

    fn parse(data: &'data [u8]) -> (r: Result<(i64, &'data [u8]), ProgramError>) {
        let Some((value, rest)) = split_first_chunk::<8>(data) else {
            return Err(ProgramError::InvalidInstructionData);
        };
        Ok((vstd::bytes::u64_from_le_bytes(value.as_slice()) as i64, rest))
    }
}

impl<'data> ProgramDataParser<'data> for &'data Pubkey {
    type Error = ProgramError;

    open spec fn spec_parses_as(data: Seq<u8>, value: &'data Pubkey, consumed: int) -> bool {
        data.len() >= 32 && consumed == 32 && value@ == data.subrange(0, 32)
    }

    open spec fn spec_fails_with(data: Seq<u8>, error: ProgramError) -> bool {
        fails_short(data, 32, error)
    }

    fn parse(data: &'data [u8]) -> (r: Result<(&'data Pubkey, &'data [u8]), ProgramError>) {
        let Some((pubkey_bytes, rest)) = split_first_chunk::<32>(data) else {
            return Err(ProgramError::InvalidInstructionData);
        };
        Ok((pubkey_bytes, rest))
    }
}

impl<'data> ProgramDataParser<'data> for &'data str {
    type Error = ProgramError;

    /// A length byte, followed by that many bytes of UTF-8.
    open spec fn spec_parses_as(data: Seq<u8>, value: &'data str, consumed: int) -> bool {
        &&& data.len() >= 1
        &&& consumed == 1 + data[0]
        &&& data.len() >= consumed
        &&& vstd::utf8::valid_utf8(data.subrange(1, consumed))
        &&& value.spec_bytes() == data.subrange(1, consumed)
    }

    open spec fn spec_fails_with(data: Seq<u8>, error: ProgramError) -> bool {
        &&& error == ProgramError::InvalidInstructionData
        &&& (data.len() < 1 || data.len() < 1 + data[0] || !vstd::utf8::valid_utf8(
            data.subrange(1, 1 + data[0]),
        ))
    }

    fn parse(data: &'data [u8]) -> (r: Result<(&'data str, &'data [u8]), ProgramError>) {
        if data.len() < 1 {
            return Err(ProgramError::InvalidInstructionData);
        }
        let whole = data;
        let len = data[0] as usize;
        let data = vstd::slice::slice_subrange(data, 1, data.len());
        if data.len() < len {
            return Err(ProgramError::InvalidInstructionData);
        }
        let str_bytes = vstd::slice::slice_subrange(data, 0, len);
        let rest = vstd::slice::slice_subrange(data, len, data.len());
        assert(str_bytes@ =~= whole@.subrange(1, 1 + len));
        assert(rest@ =~= whole@.subrange(whole@.len() - rest@.len(), whole@.len() as int));
        let Some(str_utf8) = str_from_utf8(str_bytes) else {
            return Err(ProgramError::InvalidInstructionData);
        };
        Ok((str_utf8, rest))
    }
}

/// Captures all the rest of the provided program data.
impl<'data> ProgramDataParser<'data> for &'data [u8] {
    type Error = ProgramError;

    open spec fn spec_parses_as(data: Seq<u8>, value: &'data [u8], consumed: int) -> bool {
        consumed == data.len() && value@ == data
    }

    open spec fn spec_fails_with(data: Seq<u8>, error: ProgramError) -> bool {
        false
    }

    fn parse(data: &'data [u8]) -> (r: Result<(&'data [u8], &'data [u8]), ProgramError>) {
        let rest = vstd::slice::slice_subrange(data, data.len(), data.len());
        Ok((data, rest))
    }
}

/// `error` is what converting `InvalidInstructionData` into the error type `E` gives, the error
/// a parser reports for data it refuses itself.
pub open spec fn is_invalid_instruction_data<E: From<ProgramError>>(error: E) -> bool {
    call_ensures(E::from, (ProgramError::InvalidInstructionData,), error)
}

/// A byte that indicates if the value is present: `0` means `None`, `1` means that the bytes
/// that follow hold a `T`.  Any other value of the first byte is an error, as is empty data; the
/// error is `InvalidInstructionData` converted into `T`'s error type.
impl<'data, T> ProgramDataParser<'data> for Option<T> where
    T: ProgramDataParser<'data>,
    T::Error: From<ProgramError>,
 {
    type Error = T::Error;

    open spec fn spec_parses_as(data: Seq<u8>, value: Option<T>, consumed: int) -> bool {
        &&& data.len() >= 1
        &&& match value {
            None => data[0] == 0 && consumed == 1,
            Some(v) => data[0] == 1 && T::spec_parses_as(
                data.subrange(1, data.len() as int),
                v,
                consumed - 1,
            ),
        }
    }

    open spec fn spec_fails_with(data: Seq<u8>, error: T::Error) -> bool {
        ||| data.len() < 1 && is_invalid_instruction_data(error)
        ||| data.len() >= 1 && data[0] != 0 && data[0] != 1 && is_invalid_instruction_data(error)
        ||| data.len() >= 1 && data[0] == 1 && T::spec_fails_with(
            data.subrange(1, data.len() as int),
            error,
        )
    }

    fn parse(data: &'data [u8]) -> (r: Result<(Option<T>, &'data [u8]), T::Error>) {
        if data.len() < 1 {
            return Err(ProgramError::InvalidInstructionData.into());
        }
        let has_value = data[0];
        let rest = vstd::slice::slice_subrange(data, 1, data.len());
        if has_value == 0 {
            Ok((None, rest))
        } else if has_value == 1 {
            match T::parse(rest) {
                Ok((value, rest)) => Ok((Some(value), rest)),
                Err(e) => Err(e),
            }
        } else {
            Err(ProgramError::InvalidInstructionData.into())
        }
    }
}

/// The fixed width parsers read exactly their width: a parse uses up the first `width` bytes of
/// the data, whose little-endian encoding is the value, so the rest starts right after them; and
/// a parse fails, with `InvalidInstructionData`, only when fewer than `width` bytes are left.
pub proof fn lemma_fixed_width_parsers_consume_their_width<'data>(data: Seq<u8>, consumed: int)
    ensures
        forall|v: u8| #[trigger] <u8 as ProgramDataParser<'data>>::spec_parses_as(data, v, consumed)
            ==> consumed == 1 && seq![v] == data.subrange(0, 1),
        forall|v: i8| #[trigger] <i8 as ProgramDataParser<'data>>::spec_parses_as(data, v, consumed)
            ==> consumed == 1 && seq![v as u8] == data.subrange(0, 1),
        forall|v: u16| #[trigger] <u16 as ProgramDataParser<'data>>::spec_parses_as(data, v, consumed)
            ==> consumed == 2 && vstd::bytes::spec_u16_to_le_bytes(v) == data.subrange(0, 2),
        forall|v: u32| #[trigger] <u32 as ProgramDataParser<'data>>::spec_parses_as(data, v, consumed)
            ==> consumed == 4 && vstd::bytes::spec_u32_to_le_bytes(v) == data.subrange(0, 4),
        forall|v: u64| #[trigger] <u64 as ProgramDataParser<'data>>::spec_parses_as(data, v, consumed)
            ==> consumed == 8 && vstd::bytes::spec_u64_to_le_bytes(v) == data.subrange(0, 8),
        forall|v: i16| #[trigger] <i16 as ProgramDataParser<'data>>::spec_parses_as(data, v, consumed)
            ==> consumed == 2 && vstd::bytes::spec_u16_to_le_bytes(v as u16) == data.subrange(0, 2),
        forall|v: i32| #[trigger] <i32 as ProgramDataParser<'data>>::spec_parses_as(data, v, consumed)
            ==> consumed == 4 && vstd::bytes::spec_u32_to_le_bytes(v as u32) == data.subrange(0, 4),
        forall|v: i64| #[trigger] <i64 as ProgramDataParser<'data>>::spec_parses_as(data, v, consumed)
            ==> consumed == 8 && vstd::bytes::spec_u64_to_le_bytes(v as u64) == data.subrange(0, 8),
        forall|v: &'data Pubkey| #[trigger] <&'data Pubkey as ProgramDataParser<'data>>::spec_parses_as(
            data,
            v,
            consumed,
        ) ==> consumed == 32 && v@ == data.subrange(0, 32),
        forall|e: ProgramError| #[trigger] <u8 as ProgramDataParser<'data>>::spec_fails_with(data, e)
            ==> data.len() < 1 && e == ProgramError::InvalidInstructionData,
        forall|e: ProgramError| #[trigger] <i8 as ProgramDataParser<'data>>::spec_fails_with(data, e)
            ==> data.len() < 1 && e == ProgramError::InvalidInstructionData,
        forall|e: ProgramError| #[trigger] <u16 as ProgramDataParser<'data>>::spec_fails_with(data, e)
            ==> data.len() < 2 && e == ProgramError::InvalidInstructionData,
        forall|e: ProgramError| #[trigger] <u32 as ProgramDataParser<'data>>::spec_fails_with(data, e)
            ==> data.len() < 4 && e == ProgramError::InvalidInstructionData,
        forall|e: ProgramError| #[trigger] <u64 as ProgramDataParser<'data>>::spec_fails_with(data, e)
            ==> data.len() < 8 && e == ProgramError::InvalidInstructionData,
        forall|e: ProgramError| #[trigger] <i16 as ProgramDataParser<'data>>::spec_fails_with(data, e)
            ==> data.len() < 2 && e == ProgramError::InvalidInstructionData,
        forall|e: ProgramError| #[trigger] <i32 as ProgramDataParser<'data>>::spec_fails_with(data, e)
            ==> data.len() < 4 && e == ProgramError::InvalidInstructionData,
        forall|e: ProgramError| #[trigger] <i64 as ProgramDataParser<'data>>::spec_fails_with(data, e)
            ==> data.len() < 8 && e == ProgramError::InvalidInstructionData,
        forall|e: ProgramError| #[trigger] <&'data Pubkey as ProgramDataParser<'data>>::spec_fails_with(data, e)
            ==> data.len() < 32 && e == ProgramError::InvalidInstructionData,
{
    assert forall|v: u8| #[trigger] <u8 as ProgramDataParser<'data>>::spec_parses_as(
        data,
        v,
        consumed,
    ) implies consumed == 1 && seq![v] == data.subrange(0, 1) by {
        assert(seq![v] =~= data.subrange(0, 1));
    }
    assert forall|v: i8| #[trigger] <i8 as ProgramDataParser<'data>>::spec_parses_as(
        data,
        v,
        consumed,
    ) implies consumed == 1 && seq![v as u8] == data.subrange(0, 1) by {
        let x = data[0];
        assert((x as i8) as u8 == x) by (bit_vector);
        assert(seq![v as u8] =~= data.subrange(0, 1));
    }
    assert forall|v: u16| #[trigger] <u16 as ProgramDataParser<'data>>::spec_parses_as(
        data,
        v,
        consumed,
    ) implies consumed == 2 && vstd::bytes::spec_u16_to_le_bytes(v) == data.subrange(0, 2) by {
        vstd::bytes::lemma_auto_spec_u16_to_from_le_bytes();
    }
    assert forall|v: u32| #[trigger] <u32 as ProgramDataParser<'data>>::spec_parses_as(
        data,
        v,
        consumed,
    ) implies consumed == 4 && vstd::bytes::spec_u32_to_le_bytes(v) == data.subrange(0, 4) by {
        vstd::bytes::lemma_auto_spec_u32_to_from_le_bytes();
    }
    assert forall|v: u64| #[trigger] <u64 as ProgramDataParser<'data>>::spec_parses_as(
        data,
        v,
        consumed,
    ) implies consumed == 8 && vstd::bytes::spec_u64_to_le_bytes(v) == data.subrange(0, 8) by {
        vstd::bytes::lemma_auto_spec_u64_to_from_le_bytes();
    }
    assert forall|v: i16| #[trigger] <i16 as ProgramDataParser<'data>>::spec_parses_as(
        data,
        v,
        consumed,
    ) implies consumed == 2 && vstd::bytes::spec_u16_to_le_bytes(v as u16) == data.subrange(0, 2) by {
        let x = vstd::bytes::spec_u16_from_le_bytes(data.subrange(0, 2));
        assert((x as i16) as u16 == x) by (bit_vector);
        vstd::bytes::lemma_auto_spec_u16_to_from_le_bytes();
    }
    assert forall|v: i32| #[trigger] <i32 as ProgramDataParser<'data>>::spec_parses_as(
        data,
        v,
        consumed,
    ) implies consumed == 4 && vstd::bytes::spec_u32_to_le_bytes(v as u32) == data.subrange(0, 4) by {
        let x = vstd::bytes::spec_u32_from_le_bytes(data.subrange(0, 4));
        assert((x as i32) as u32 == x) by (bit_vector);
        vstd::bytes::lemma_auto_spec_u32_to_from_le_bytes();
    }
    assert forall|v: i64| #[trigger] <i64 as ProgramDataParser<'data>>::spec_parses_as(
        data,
        v,
        consumed,
    ) implies consumed == 8 && vstd::bytes::spec_u64_to_le_bytes(v as u64) == data.subrange(0, 8) by {
        let x = vstd::bytes::spec_u64_from_le_bytes(data.subrange(0, 8));
        assert((x as i64) as u64 == x) by (bit_vector);
        vstd::bytes::lemma_auto_spec_u64_to_from_le_bytes();
    }
}

/// The other parsers: a `&str` uses up a length byte and that many bytes, which are its UTF-8
/// bytes, and fails with `InvalidInstructionData` on empty data, on fewer bytes than the length
/// byte says, or on bytes that are not UTF-8; a `&[u8]` takes all of the data and never fails; an
/// `Option<T>` uses up its presence byte, then nothing for `None` and what `T` uses for `Some`.
pub proof fn lemma_variable_width_parsers<'data, T>(data: Seq<u8>, consumed: int)
    where
        T: ProgramDataParser<'data>,
        T::Error: From<ProgramError>,
    ensures
        forall|v: &'data str| #[trigger] <&'data str as ProgramDataParser<'data>>::spec_parses_as(
            data,
            v,
            consumed,
        ) ==> data.len() >= 1 && consumed == 1 + data[0] && consumed <= data.len() && v.spec_bytes()
            == data.subrange(1, consumed),
        forall|e: ProgramError| #[trigger] <&'data str as ProgramDataParser<'data>>::spec_fails_with(
            data,
            e,
        ) ==> e == ProgramError::InvalidInstructionData && (data.len() < 1 || data.len() < 1
            + data[0] || !vstd::utf8::valid_utf8(data.subrange(1, 1 + data[0]))),
        forall|v: &'data [u8]| #[trigger] <&'data [u8] as ProgramDataParser<'data>>::spec_parses_as(
            data,
            v,
            consumed,
        ) ==> consumed == data.len() && v@ == data,
        forall|e: ProgramError| !#[trigger] <&'data [u8] as ProgramDataParser<'data>>::spec_fails_with(
            data,
            e,
        ),
        <Option<T> as ProgramDataParser<'data>>::spec_parses_as(data, None, consumed) ==> consumed
            == 1 && data[0] == 0,
        forall|v: T| #[trigger] <Option<T> as ProgramDataParser<'data>>::spec_parses_as(
            data,
            Some(v),
            consumed,
        ) ==> data.len() >= 1 && data[0] == 1 && T::spec_parses_as(
            data.subrange(1, data.len() as int),
            v,
            consumed - 1,
        ),
        forall|e: T::Error| #[trigger] <Option<T> as ProgramDataParser<'data>>::spec_fails_with(
            data,
            e,
        ) && data.len() >= 1 && data[0] == 0 ==> false,
{
}

} // verus!
