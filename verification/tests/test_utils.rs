use pinocchio_kit::pubkey::Pubkey;
use pinocchio_kit::test_utils::{MockFullAccountData, TestPubkey};

#[test]
fn test_mock_full_account_data() {
    let mock_account = MockFullAccountData::new()
        .with_address(Pubkey::new_tl_unique())
        .with_owner(Pubkey::new_tl_unique())
        .with_balance(100)
        .with_data(vec![1, 2, 3]);

    assert_eq!(mock_account.address, Pubkey::new_tl_unique());
    assert_eq!(mock_account.owner, Pubkey::new_tl_unique());
    assert_eq!(mock_account.balance, 100);
    assert_eq!(mock_account.data, vec![1, 2, 3]);
}

#[test]
fn mock_defaults() {
    let mock = MockFullAccountData::new();
    assert!(!mock.signer);
    assert!(mock.writable);
    assert!(!mock.executable);
    assert_eq!(mock.resize_delta, 0);
    assert_eq!(mock.balance, 0);
    assert!(mock.data.is_empty());
    let expected: Vec<u8> = (1..=32).collect();
    assert_eq!(mock.address.to_vec(), expected);
}

#[test]
fn mock_to_region() {
    let mut mock = MockFullAccountData::new().with_balance(77).with_data(vec![5, 6]);
    mock.signer = true;
    mock.resize_delta = -3;
    let region = mock.to_region();
    assert_eq!(region.header.duplicate_reference, u8::MAX);
    assert_eq!(region.header.is_signer, 1);
    assert_eq!(region.header.is_writable, 1);
    assert_eq!(region.header.is_executable, 0);
    assert_eq!(region.header.resize_delta(), -3);
    assert_eq!(region.header.lamports(), 77);
    assert_eq!(region.header.data_len(), 2);
    assert_eq!(region.data, vec![5, 6]);
}
