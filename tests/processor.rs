use random_account::{process_instruction, store_random_number, AccountView, GreetingAccount, ProcessError};

fn account(data: Vec<u8>) -> AccountView {
    AccountView {
        key: [0u8; 32],
        owner: [0u8; 32],
        lamports: 0,
        data,
        is_signer: false,
        is_writable: true,
        executable: false,
        rent_epoch: 0,
    }
}

#[test]
fn test_sanity() {
    let program_id = [0u8; 32];
    let data = vec![0; std::mem::size_of::<u32>()];
    let instruction_data: Vec<u8> = Vec::new();

    let mut accounts = vec![account(data)];

    assert_eq!(
        GreetingAccount::try_from_slice(&accounts[0].data)
            .unwrap()
            .random_number,
        0
    );
    process_instruction(&program_id, &mut accounts, &instruction_data).unwrap();
    let random_number = GreetingAccount::try_from_slice(&accounts[0].data)
        .unwrap()
        .random_number;
    assert!(random_number >= 1 && random_number <= 100);
}

#[test]
fn returned_number_is_the_stored_one() {
    let mut accounts = vec![account(vec![0; 4])];
    let n = process_instruction(&[0u8; 32], &mut accounts, &[]).unwrap();
    assert!(n >= 1 && n <= 100);
    assert_eq!(GreetingAccount::try_from_slice(&accounts[0].data).unwrap().random_number, n);
    assert_eq!(accounts[0].data, n.to_le_bytes().to_vec());
}

#[test]
fn no_account_is_missing_account() {
    let mut accounts: Vec<AccountView> = Vec::new();
    assert_eq!(process_instruction(&[0u8; 32], &mut accounts, &[1, 2]), Err(ProcessError::MissingAccount));
    assert!(accounts.is_empty());
    assert_eq!(store_random_number(&mut accounts, 5), Err(ProcessError::MissingAccount));
}

#[test]
fn short_buffer_is_encoding_error_and_unchanged() {
    for len in 0..4usize {
        let data: Vec<u8> = (0..len as u8).map(|b| b + 7).collect();
        let mut accounts = vec![account(data.clone())];
        assert_eq!(process_instruction(&[0u8; 32], &mut accounts, &[]), Err(ProcessError::EncodingError));
        assert_eq!(accounts[0].data, data);
        assert_eq!(store_random_number(&mut accounts, 9), Err(ProcessError::EncodingError));
        assert_eq!(accounts[0].data, data);
    }
}

#[test]
fn identity_and_owner_are_unchanged() {
    let mut first = account(vec![0; 4]);
    first.key = [3u8; 32];
    first.owner = [4u8; 32];
    first.lamports = 77;
    let mut accounts = vec![first];
    let n = process_instruction(&[1u8; 32], &mut accounts, &[]).unwrap();
    let v = GreetingAccount::try_from_slice(&accounts[0].data).unwrap().random_number;
    assert_eq!(v, n);
    assert!(v >= 1 && v <= 100);
    assert_eq!(accounts[0].key, [3u8; 32]);
    assert_eq!(accounts[0].owner, [4u8; 32]);
    assert_eq!(accounts[0].lamports, 77);
}

#[test]
fn repeated_invocations_stay_in_range() {
    let mut accounts = vec![account(vec![0; 4])];
    for _ in 0..50 {
        let n = process_instruction(&[0u8; 32], &mut accounts, &[]).unwrap();
        let v = GreetingAccount::try_from_slice(&accounts[0].data).unwrap().random_number;
        assert_eq!(v, n);
        assert!(v >= 1 && v <= 100);
    }
}

#[test]
fn store_writes_little_endian_and_keeps_the_rest() {
    let mut accounts = vec![account(vec![0, 0, 0, 0, 9, 8]), account(vec![5])];
    assert_eq!(store_random_number(&mut accounts, 0x0403_0201), Ok(()));
    assert_eq!(accounts[0].data, vec![1, 2, 3, 4, 9, 8]);
    assert_eq!(accounts[1].data, vec![5]);
    assert_eq!(store_random_number(&mut accounts, 258), Ok(()));
    assert_eq!(accounts[0].data, vec![2, 1, 0, 0, 9, 8]);
}

#[test]
fn only_the_first_account_is_written() {
    let mut accounts = vec![account(vec![0; 4]), account(vec![0; 4])];
    process_instruction(&[0u8; 32], &mut accounts, &[]).unwrap();
    assert_eq!(accounts[1].data, vec![0; 4]);
}
