//! The entry point: pick the first account, draw a number, store its record.
use vstd::prelude::*;

use crate::record::{le_value, lemma_record_round_trip, with_record, GreetingAccount, RECORD_LEN};

verus! {

/// Why an invocation failed.
#[derive(Debug, Clone, Copy, PartialEq, Eq, Structural)]
pub enum ProcessError {
    /// No account was supplied.
    MissingAccount,
    /// The record could not be written into, or read from, the account's data.
    EncodingError,
}

/// An account as the host hands it to one invocation: its identity, its owner,
/// its balance and flags, and its data buffer, which the invocation may write.
#[derive(Debug)]
pub struct AccountView {
    pub key: [u8; 32],
    pub owner: [u8; 32],
    pub lamports: u64,
    pub data: Vec<u8>,
    pub is_signer: bool,
    pub is_writable: bool,
    pub executable: bool,
    pub rent_epoch: u64,
}

/// Smallest number an invocation draws.
pub const LOWEST: u32 = 1;

/// Largest number an invocation draws.
pub const HIGHEST: u32 = 100;

/// `b` is `a` with at most its data changed.
pub open spec fn same_but_data(a: AccountView, b: AccountView) -> bool {
    &&& b.key == a.key
    &&& b.owner == a.owner
    &&& b.lamports == a.lamports
    &&& b.is_signer == a.is_signer
    &&& b.is_writable == a.is_writable
    &&& b.executable == a.executable
    &&& b.rent_epoch == a.rent_epoch
}

/// `after` is `before` with the record of `v` written into the first account's
/// data, everything else as it was.
pub open spec fn stored(before: Seq<AccountView>, after: Seq<AccountView>, v: u32) -> bool {
    &&& before.len() > 0
    &&& after.len() == before.len()
    &&& same_but_data(before[0], after[0])
    &&& after[0].data@ == with_record(before[0].data@, v)
    &&& forall|i: int| 1 <= i < before.len() ==> after[i] == before[i]
}

/// The first account's data is too short to hold the record.
pub open spec fn too_short(accounts: Seq<AccountView>) -> bool {
    accounts.len() > 0 && accounts[0].data@.len() < 4
}

/// Relies on rand's `thread_rng().gen_range(lo..=hi)`: a number drawn from the
/// inclusive range, which panics on an empty range.
#[verifier::external_body]
fn gen_range_inclusive(lo: u32, hi: u32) -> (r: u32)
    requires
        lo <= hi,
    ensures
        lo <= r <= hi,
{
    rand::Rng::gen_range(&mut rand::thread_rng(), lo..=hi)
}

/// Stores the record of `random_number` at the front of the first account's
/// data. Fails, changing nothing, when there is no account or when its data is
/// shorter than the record.
pub fn store_random_number(accounts: &mut Vec<AccountView>, random_number: u32) -> (r: Result<
    (),
    ProcessError,
>)
    ensures
        r == Err::<(), ProcessError>(ProcessError::MissingAccount) <==> old(accounts)@.len() == 0,
        r == Err::<(), ProcessError>(ProcessError::EncodingError) <==> too_short(old(accounts)@),
        r is Ok <==> !(old(accounts)@.len() == 0 || too_short(old(accounts)@)),
        r is Ok ==> stored(old(accounts)@, final(accounts)@, random_number),
        r is Err ==> final(accounts)@ == old(accounts)@,
{
    if accounts.len() == 0 {
        return Err(ProcessError::MissingAccount);
    }
    if accounts[0].data.len() < RECORD_LEN {
        return Err(ProcessError::EncodingError);
    }
    let ghost before = accounts@;
    let mut account = accounts.remove(0);
    let record = GreetingAccount { random_number };
    let written = record.serialize_into(&mut account.data);
    accounts.insert(0, account);
    assert(accounts@ =~= before.update(0, accounts@[0]));
    match written {
        Ok(()) => Ok(()),
        Err(e) => Err(e),
    }
}

/// Draws a number from `LOWEST` to `HIGHEST` and stores its record at the front
/// of the first account's data; returns the number drawn. The program id and
/// the instruction data are not read.
pub fn process_instruction(
    _program_id: &[u8; 32],
    accounts: &mut Vec<AccountView>,
    _instruction_data: &[u8],
) -> (r: Result<u32, ProcessError>)
    ensures
        r == Err::<u32, ProcessError>(ProcessError::MissingAccount) <==> old(accounts)@.len() == 0,
        r == Err::<u32, ProcessError>(ProcessError::EncodingError) <==> too_short(old(accounts)@),
        r is Ok <==> !(old(accounts)@.len() == 0 || too_short(old(accounts)@)),
        r is Err ==> final(accounts)@ == old(accounts)@,
        r is Ok ==> {
            let v = r->Ok_0;
            &&& LOWEST <= v <= HIGHEST
            &&& stored(old(accounts)@, final(accounts)@, v)
            &&& le_value(final(accounts)@[0].data@.subrange(0, 4)) == v as int
            &&& 1 <= le_value(final(accounts)@[0].data@.subrange(0, 4)) <= 100
        },
{
    if accounts.len() == 0 {
        return Err(ProcessError::MissingAccount);
    }
    let random_number = gen_range_inclusive(LOWEST, HIGHEST);
    match store_random_number(accounts, random_number) {
        Ok(()) => {
            proof {
                let d = old(accounts)@[0].data@;
                lemma_record_round_trip(random_number, d.subrange(4, d.len() as int));
            }
            Ok(random_number)
        },
        Err(e) => Err(e),
    }
}

} // verus!
