use pinocchio_kit::entrypoint_v2::can_reference::{allowed_references_mask, can_share};
use pinocchio_kit::entrypoint_v2::{CanReference, CanReferenceScore, ComputeCanReference};
use pinocchio_kit::entrypoint_v2::ProgramDataParser;
use pinocchio_kit::account::{AnyAccount, Exclusive, OwnAccount, SysvarAccount, SysvarAccountContent};
use pinocchio_kit::account::account_content::{
    is_initialized_by_discriminator, is_of_type_by_discriminator,
};
use pinocchio_kit::account::AccountContent;
use pinocchio_kit::program_error::ProgramError;
use pinocchio_kit::pubkey::Pubkey;

#[derive(Debug)]
struct User;

impl AccountContent for User {
    const DISCRIMINATOR: &'static [u8] = &[1, 2];

    fn is_initialized(data: &[u8]) -> Result<bool, ProgramError> {
        is_initialized_by_discriminator(Self::DISCRIMINATOR, data)
    }

    fn is_of_type(data: &[u8]) -> bool {
        is_of_type_by_discriminator(Self::DISCRIMINATOR, data)
    }

    type AsContent<'data> = &'data [u8];
    type AsContentMut<'data> = &'data mut [u8];

    fn content(data: &[u8]) -> &[u8] {
        &data[data.len().min(2)..]
    }

    fn content_mut(data: &mut [u8]) -> &mut [u8] {
        let start = data.len().min(2);
        &mut data[start..]
    }
}

#[derive(Debug)]
struct Rent;

impl SysvarAccountContent for Rent {
    const EXPECTED_ADDRESS: Pubkey = [3; 32];

    type AsContent<'data> = &'data [u8];
    type AsContentMut<'data> = &'data mut [u8];

    fn content(data: &[u8]) -> &[u8] {
        data
    }

    fn content_mut(data: &mut [u8]) -> &mut [u8] {
        data
    }
}

#[test]
fn integers_are_little_endian() {
    let data = [1u8, 2, 3, 4, 5, 6, 7, 8, 9];
    assert_eq!(u8::parse(&data).unwrap(), (1, &data[1..]));
    assert_eq!(i8::parse(&[0xff, 1]).unwrap(), (-1, &[1u8][..]));
    assert_eq!(u16::parse(&data).unwrap(), (0x0201, &data[2..]));
    assert_eq!(u32::parse(&data).unwrap(), (0x04030201, &data[4..]));
    assert_eq!(u64::parse(&data).unwrap(), (0x0807060504030201, &data[8..]));
    assert_eq!(i16::parse(&[0xfe, 0xff]).unwrap().0, -2);
    assert_eq!(i32::parse(&[0xfd, 0xff, 0xff, 0xff]).unwrap().0, -3);
    assert_eq!(i64::parse(&[0xfc, 0xff, 0xff, 0xff, 0xff, 0xff, 0xff, 0xff]).unwrap().0, -4);
}

#[test]
fn short_data_is_invalid_instruction_data() {
    assert_eq!(u8::parse(&[]).unwrap_err(), ProgramError::InvalidInstructionData);
    assert_eq!(u16::parse(&[1]).unwrap_err(), ProgramError::InvalidInstructionData);
    assert_eq!(u32::parse(&[1, 2, 3]).unwrap_err(), ProgramError::InvalidInstructionData);
    assert_eq!(u64::parse(&[0; 7]).unwrap_err(), ProgramError::InvalidInstructionData);
    assert_eq!(i64::parse(&[0; 7]).unwrap_err(), ProgramError::InvalidInstructionData);
    assert_eq!(<&Pubkey>::parse(&[0; 31]).unwrap_err(), ProgramError::InvalidInstructionData);
}

#[test]
fn pubkey_and_bytes() {
    let mut data = vec![9u8; 32];
    data.push(1);
    let (key, rest) = <&Pubkey>::parse(&data).unwrap();
    assert_eq!(*key, [9u8; 32]);
    assert_eq!(rest, &[1]);
    let (all, rest) = <&[u8]>::parse(&data).unwrap();
    assert_eq!(all, &data[..]);
    assert!(rest.is_empty());
}

#[test]
fn strings_are_length_prefixed_utf8() {
    let data = [5u8, b'h', b'e', b'l', b'l', b'o', 42];
    let (s, rest) = <&str>::parse(&data).unwrap();
    assert_eq!(s, "hello");
    assert_eq!(rest, &[42]);
    assert_eq!(<&str>::parse(&[0]).unwrap(), ("", &[][..]));
    assert_eq!(<&str>::parse(&[]).unwrap_err(), ProgramError::InvalidInstructionData);
    assert_eq!(<&str>::parse(&[3, b'a']).unwrap_err(), ProgramError::InvalidInstructionData);
    assert_eq!(<&str>::parse(&[2, 0xc3, 0x28]).unwrap_err(), ProgramError::InvalidInstructionData);
    let (s, _) = <&str>::parse(&[2, 0xc3, 0xa9]).unwrap();
    assert_eq!(s, "é");
}

#[test]
fn options_have_a_presence_byte() {
    assert_eq!(Option::<u16>::parse(&[0, 7]).unwrap(), (None, &[7u8][..]));
    assert_eq!(Option::<u16>::parse(&[1, 7, 1, 9]).unwrap(), (Some(0x0107), &[9u8][..]));
    assert_eq!(Option::<u16>::parse(&[2, 7, 1]).unwrap_err(), ProgramError::InvalidInstructionData);
    assert_eq!(Option::<u16>::parse(&[1, 7]).unwrap_err(), ProgramError::InvalidInstructionData);
    assert_eq!(Option::<u16>::parse(&[]).unwrap_err(), ProgramError::InvalidInstructionData);
    let (name, rest) = Option::<&str>::parse(&[1, 2, b'o', b'k']).unwrap();
    assert_eq!(name, Some("ok"));
    assert!(rest.is_empty());
}

#[test]
fn sharing_scores() {
    assert!(can_share(1, 1));
    assert!(can_share(1, 0));
    assert!(!can_share(0, 0));
    assert!(!can_share(1, -2));
    assert!(!can_share(-2, 1));
    assert!(can_share(127, 127));
    assert!(!can_share(-128, -128));
    assert_eq!(can_share(3, -2), can_share(-2, 3));

    assert_eq!(<AnyAccount as CanReference<AnyAccount>>::can_reference(), 1);
    assert_eq!(<OwnAccount<User> as CanReference<OwnAccount<User>>>::can_reference(), 1);
    assert_eq!(<Exclusive<AnyAccount> as CanReference<AnyAccount>>::can_reference(), -2);
    assert_eq!(<SysvarAccount<Rent> as CanReference<SysvarAccount<Rent>>>::can_reference(), 1);

    // A pair without a `CanReference` implementation scores 0.
    let with_impl = ComputeCanReference::<AnyAccount, AnyAccount>::dispatcher();
    assert_eq!(with_impl.score(), 1);
    let without = ComputeCanReference::<SysvarAccount<Rent>, AnyAccount>::dispatcher();
    assert_eq!((&without).score(), 0);
}

#[test]
fn mask_has_a_bit_per_shareable_earlier_account() {
    assert_eq!(allowed_references_mask(&[]), 0);
    assert_eq!(allowed_references_mask(&[(1, 1), (-2, 1), (0, 1), (0, 0)]), 0b0101);
    let all: Vec<(i8, i8)> = vec![(1, 1); 64];
    assert_eq!(allowed_references_mask(&all), u64::MAX);
}

#[derive(Debug, PartialEq)]
enum AppError {
    Program(ProgramError),
}

impl From<ProgramError> for AppError {
    fn from(e: ProgramError) -> Self {
        AppError::Program(e)
    }
}

#[derive(Debug, PartialEq)]
struct Tag(u8);

impl<'data> ProgramDataParser<'data> for Tag {
    type Error = AppError;

    fn parse(data: &'data [u8]) -> Result<(Tag, &'data [u8]), AppError> {
        match data.split_first() {
            Some((&t, rest)) if t < 10 => Ok((Tag(t), rest)),
            _ => Err(AppError::Program(ProgramError::Custom(9))),
        }
    }
}

#[test]
fn options_convert_their_own_errors() {
    assert_eq!(Option::<Tag>::parse(&[1, 3, 8]).unwrap(), (Some(Tag(3)), &[8u8][..]));
    assert_eq!(Option::<Tag>::parse(&[0]).unwrap(), (None, &[][..]));
    assert_eq!(
        Option::<Tag>::parse(&[]).unwrap_err(),
        AppError::Program(ProgramError::InvalidInstructionData)
    );
    assert_eq!(
        Option::<Tag>::parse(&[5]).unwrap_err(),
        AppError::Program(ProgramError::InvalidInstructionData)
    );
    assert_eq!(
        Option::<Tag>::parse(&[1, 12]).unwrap_err(),
        AppError::Program(ProgramError::Custom(9))
    );
}
