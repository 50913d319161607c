use ink_primitives::AccountId;
use std::marker::PhantomData;
use vstd::prelude::*;

verus! {

/// Represents a call to a contract constructor.
#[derive(Debug)]
pub struct InstantiateCall<T: Send> {
    /// The code hash of the contract to instantiate.
    pub code_hash: [u8; 32],
    /// The encoded data of the call.
    pub data: Vec<u8>,
    /// The salt to use for the contract.
    pub salt: Vec<u8>,
    /// A marker for the type of contract to instantiate.
    pub _contract: PhantomData<T>,
}

impl<T: Send> InstantiateCall<T> {
    /// Create a new instantiate call, with an empty salt.
    pub fn new(code_hash: [u8; 32], data: Vec<u8>) -> (r: Self)
        ensures
            r.code_hash == code_hash,
            r.data == data,
            r.salt@ == Seq::<u8>::empty(),
    {
        Self { code_hash, data, salt: Vec::new(), _contract: PhantomData }
    }

    /// Set the salt to use for the instantiation; the code hash and the data are kept.
    pub fn with_salt(self, salt: Vec<u8>) -> (r: Self)
        ensures
            r.code_hash == self.code_hash,
            r.data == self.data,
            r.salt == salt,
    {
        let mut call = self;
        call.salt = salt;
        call
    }
}

impl<T: Send> Clone for InstantiateCall<T> {
    fn clone(&self) -> (r: Self)
        ensures
            r.code_hash == self.code_hash,
            r.data@ == self.data@,
            r.salt@ == self.salt@,
    {
        let data = self.data.clone();
        let salt = self.salt.clone();
        assert(data@ =~= self.data@);
        assert(salt@ =~= self.salt@);
        InstantiateCall { code_hash: self.code_hash, data, salt, _contract: PhantomData }
    }
}

/// Building a constructor call and then setting its salt gives a call with the code hash
/// and the data that it was built with and that salt; without a salt, the salt is empty.
pub proof fn lemma_instantiate_with_salt<T: Send>(
    code_hash: [u8; 32],
    data: Vec<u8>,
    salt: Vec<u8>,
    built: InstantiateCall<T>,
    salted: InstantiateCall<T>,
)
    requires
        call_ensures(InstantiateCall::<T>::new, (code_hash, data), built),
        call_ensures(InstantiateCall::<T>::with_salt, (built, salt), salted),
    ensures
        built.salt@.len() == 0,
        salted.code_hash == code_hash,
        salted.data == data,
        salted.salt == salt,
{
}

/// Represents a mutating contract call to be made.
#[derive(Debug)]
pub struct ExecCall {
    /// The account id of the contract to call.
    pub account_id: AccountId,
    /// The encoded data of the call.
    pub data: Vec<u8>,
}

impl ExecCall {
    /// Create a new exec call.
    pub fn new(account_id: AccountId, data: Vec<u8>) -> (r: Self)
        ensures
            r.account_id == account_id,
            r.data == data,
    {
        Self { account_id, data }
    }
}

impl Clone for ExecCall {
    fn clone(&self) -> (r: Self)
        ensures
            r.account_id == self.account_id,
            r.data@ == self.data@,
    {
        let data = self.data.clone();
        assert(data@ =~= self.data@);
        ExecCall { account_id: self.account_id.clone(), data }
    }
}

/// Represents a read-only contract call to be made.
///
/// `new` asks that `T` be SCALE-decodable, as the connection decodes the result into it.
#[derive(Debug)]
pub struct ReadCall<T: Send> {
    /// The account id of the contract to call.
    pub account_id: AccountId,
    /// The encoded data of the call.
    pub data: Vec<u8>,
    /// A marker for the type to decode the result into.
    pub _return_type: PhantomData<T>,
}

impl<T: Send> ReadCall<T> {
    /// Create a new read call.
    pub fn new(account_id: AccountId, data: Vec<u8>) -> (r: Self)
        where
            T: parity_scale_codec::Decode,
        ensures
            r.account_id == account_id,
            r.data == data,
    {
        Self { account_id, data, _return_type: PhantomData }
    }
}

} // verus!
