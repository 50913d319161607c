use ink_primitives::{AccountId, LangError};
use ink_wrapper_types::{ExecCall, InkLangError, InstantiateCall, ReadCall};

struct Flipper;

#[test]
fn instantiate_new_has_empty_salt() {
    let call: InstantiateCall<Flipper> = InstantiateCall::new([7u8; 32], vec![1, 2, 3]);
    assert_eq!(call.code_hash, [7u8; 32]);
    assert_eq!(call.data, vec![1, 2, 3]);
    assert!(call.salt.is_empty());
}

#[test]
fn instantiate_with_salt_replaces_salt_only() {
    let call: InstantiateCall<Flipper> =
        InstantiateCall::new([9u8; 32], vec![0xde, 0xad]).with_salt(vec![4, 5]);
    assert_eq!(call.code_hash, [9u8; 32]);
    assert_eq!(call.data, vec![0xde, 0xad]);
    assert_eq!(call.salt, vec![4, 5]);
}

#[test]
fn instantiate_with_salt_twice_keeps_last() {
    let call: InstantiateCall<Flipper> = InstantiateCall::new([1u8; 32], vec![])
        .with_salt(vec![1])
        .with_salt(vec![2, 2]);
    assert_eq!(call.salt, vec![2, 2]);
    assert!(call.data.is_empty());
}

#[test]
fn instantiate_clone_keeps_fields() {
    let call: InstantiateCall<Flipper> = InstantiateCall::new([3u8; 32], vec![8]).with_salt(vec![6]);
    let copy = call.clone();
    assert_eq!(copy.code_hash, call.code_hash);
    assert_eq!(copy.data, call.data);
    assert_eq!(copy.salt, call.salt);
}

#[test]
fn exec_new_carries_account_and_data() {
    let account = AccountId::from([5u8; 32]);
    let call = ExecCall::new(account, vec![0x12, 0x34]);
    assert_eq!(call.account_id, account);
    assert_eq!(call.data, vec![0x12, 0x34]);
    let copy = call.clone();
    assert_eq!(copy.account_id, account);
    assert_eq!(copy.data, vec![0x12, 0x34]);
}

#[test]
fn read_new_carries_account_and_data() {
    let account = AccountId::from([6u8; 32]);
    let call: ReadCall<u32> = ReadCall::new(account, vec![0xaa]);
    assert_eq!(call.account_id, account);
    assert_eq!(call.data, vec![0xaa]);
}

#[test]
fn lang_error_wraps_code() {
    let e = InkLangError::from(LangError::CouldNotReadInput);
    assert_eq!(e.0, LangError::CouldNotReadInput);
    assert_eq!(e, InkLangError(LangError::CouldNotReadInput));
}
