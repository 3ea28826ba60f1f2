use pinocchio_kit::account::abi_account_header::{
    AbiAccountHeader, LogRecord, ABI_ACCOUNT_HEADER_SIZE, ADDRESS_OFFSET, DATA_LEN_OFFSET,
    DUPLICATE_REFERENCE_OFFSET, IS_EXECUTABLE_OFFSET, IS_SIGNER_OFFSET, IS_WRITABLE_OFFSET,
    LAMPORTS_OFFSET, OWNER_OFFSET, RESIZE_DELTA_OFFSET,
};

fn sample_header() -> AbiAccountHeader {
    let mut address = [0u8; 32];
    let mut owner = [0u8; 32];
    for i in 0..32 {
        address[i] = i as u8;
        owner[i] = 100 + i as u8;
    }
    AbiAccountHeader {
        duplicate_reference: u8::MAX,
        is_signer: 1,
        is_writable: 0,
        is_executable: 1,
        resize_delta: (-5i32).to_le_bytes(),
        address,
        owner,
        lamports: 1234u64.to_le_bytes(),
        data_len: 3u64.to_le_bytes(),
    }
}

#[test]
fn abi_account_header_field_offsets() {
    assert_eq!(0, DUPLICATE_REFERENCE_OFFSET);
    assert_eq!(1, IS_SIGNER_OFFSET);
    assert_eq!(2, IS_WRITABLE_OFFSET);
    assert_eq!(3, IS_EXECUTABLE_OFFSET);
    assert_eq!(4, RESIZE_DELTA_OFFSET);
    assert_eq!(8, ADDRESS_OFFSET);
    assert_eq!(40, OWNER_OFFSET);
    assert_eq!(72, LAMPORTS_OFFSET);
    assert_eq!(80, DATA_LEN_OFFSET);
    assert_eq!(88, ABI_ACCOUNT_HEADER_SIZE);

    // The fields sit at those offsets in the runtime layout.
    let header = sample_header();
    let mut bytes = Vec::new();
    header.write_abi_bytes(&mut bytes);
    assert_eq!(bytes.len(), ABI_ACCOUNT_HEADER_SIZE);
    assert_eq!(bytes[DUPLICATE_REFERENCE_OFFSET], u8::MAX);
    assert_eq!(bytes[IS_SIGNER_OFFSET], 1);
    assert_eq!(bytes[IS_WRITABLE_OFFSET], 0);
    assert_eq!(bytes[IS_EXECUTABLE_OFFSET], 1);
    assert_eq!(bytes[RESIZE_DELTA_OFFSET..ADDRESS_OFFSET], (-5i32).to_le_bytes());
    assert_eq!(bytes[ADDRESS_OFFSET..OWNER_OFFSET], header.address);
    assert_eq!(bytes[OWNER_OFFSET..LAMPORTS_OFFSET], header.owner);
    assert_eq!(bytes[LAMPORTS_OFFSET..DATA_LEN_OFFSET], 1234u64.to_le_bytes());
    assert_eq!(bytes[DATA_LEN_OFFSET..ABI_ACCOUNT_HEADER_SIZE], 3u64.to_le_bytes());
}

#[test]
fn header_getters_decode_little_endian() {
    let header = sample_header();
    assert_eq!(header.resize_delta(), -5);
    assert_eq!(header.lamports(), 1234);
    assert_eq!(header.data_len(), 3);
}

#[test]
fn header_read_after_write() {
    let mut header = sample_header();
    header.set_lamports(0x0102_0304_0506_0708);
    assert_eq!(header.lamports(), 0x0102_0304_0506_0708);
    assert_eq!(header.lamports, [8, 7, 6, 5, 4, 3, 2, 1]);
    header.set_data_len(u64::MAX);
    assert_eq!(header.data_len(), u64::MAX);
    header.set_resize_delta(i32::MIN);
    assert_eq!(header.resize_delta(), i32::MIN);
    header.set_resize_delta(10240);
    assert_eq!(header.resize_delta(), 10240);
    // The other fields keep their values.
    let original = sample_header();
    assert_eq!(header.address, original.address);
    assert_eq!(header.owner, original.owner);
    assert_eq!(header.is_signer, original.is_signer);
}

#[test]
fn header_roundtrips_through_its_layout() {
    let header = sample_header();
    let mut bytes = vec![9u8, 9, 9];
    header.write_abi_bytes(&mut bytes);
    bytes.push(7);
    let read = AbiAccountHeader::from_abi_bytes(&bytes, 3);
    assert_eq!(read, header);
}

#[test]
fn header_log_records() {
    let header = sample_header();
    let records = header.log();
    assert_eq!(records.len(), 8);
    assert_eq!(
        records[0],
        LogRecord::Message("duplicate_reference, is_signer, is_writable, is_executable, resize_delta")
    );
    assert_eq!(records[1], LogRecord::Numbers([255, 1, 0, 1, (-5i32) as u64]));
    assert_eq!(records[2], LogRecord::Message("address"));
    assert_eq!(records[3], LogRecord::Address(header.address));
    assert_eq!(records[4], LogRecord::Message("owner"));
    assert_eq!(records[5], LogRecord::Address(header.owner));
    assert_eq!(records[6], LogRecord::Message("lamports, data_len"));
    assert_eq!(records[7], LogRecord::Numbers([1234, 3, 0, 0, 0]));
}
