use crate::codec::{
    lemma_record_bytes_roundtrip, lemma_record_value_roundtrip, record_bytes, record_value,
    GreetingAccount,
};
use crate::error::ErrorKind;
use vstd::arithmetic::div_mod::{lemma_mod_sub_multiples_vanish, lemma_small_mod};
use vstd::prelude::*;

verus! {

/// The fixed-length identity of a program, as the host runtime supplies it.
#[derive(Clone, Copy, Debug, PartialEq, Eq)]
pub struct Pubkey {
    pub bytes: [u8; 32],
}

impl Pubkey {
    /// Two identities are the same exactly when all their bytes agree.
    pub fn equals(&self, other: &Pubkey) -> (r: bool)
        ensures
            r == (self.bytes@ == other.bytes@),
    {
        let mut i: usize = 0;
        while i < 32
            invariant
                i <= 32,
                forall|j: int| 0 <= j < i ==> self.bytes@[j] == other.bytes@[j],
            decreases 32 - i,
        {
            if self.bytes[i] != other.bytes[i] {
                return false;
            }
            i += 1;
        }
        proof {
            assert(self.bytes@ =~= other.bytes@);
        }
        true
    }
}

/// One account as the handler sees it: the owner identity the runtime
/// recorded for it, and its raw stored bytes.
#[derive(Debug)]
pub struct Account {
    pub owner: Pubkey,
    pub data: Vec<u8>,
}

/// Whether an account is owned by the running program.
pub open spec fn owner_matches(account: Account, program_id: Pubkey) -> bool {
    account.owner.bytes@ == program_id.bytes@
}

/// The unsigned 32-bit sum of two counters, with wraparound on overflow.
pub open spec fn wrapped_sum(a: u32, b: u32) -> u32 {
    ((a + b) % 0x1_0000_0000) as u32
}

/// The counter an invocation stores back: the stored counter plus the
/// payload counter, modulo 2^32.
pub open spec fn counter_after(stored: Seq<u8>, payload: Seq<u8>) -> u32
    recommends
        stored.len() == 4,
        payload.len() == 4,
{
    wrapped_sum(record_value(stored), record_value(payload))
}

/// What an invocation returns, decided by four checks in order: a first
/// account must exist, the payload must encode a record, the first account
/// must be owned by the running program, and the account's bytes must hold a
/// stored record, with a buffer too small for one reported as such.
pub open spec fn outcome_of(
    program_id: Pubkey,
    accounts: Seq<Account>,
    payload: Seq<u8>,
) -> Result<(), ErrorKind> {
    if accounts.len() == 0 {
        Err(ErrorKind::MissingAccount)
    } else if payload.len() != 4 {
        Err(ErrorKind::InvalidPayload)
    } else if !owner_matches(accounts[0], program_id) {
        Err(ErrorKind::PermissionDenied)
    } else if accounts[0].data@.len() < 4 {
        Err(ErrorKind::BufferTooSmall)
    } else if accounts[0].data@.len() > 4 {
        Err(ErrorKind::InvalidPayload)
    } else {
        Ok(())
    }
}

/// Unsigned 32-bit wraparound addition is addition modulo 2^32.
pub proof fn lemma_wrapping_add_matches(a: u32, b: u32)
    ensures
        a.wrapping_add(b) == wrapped_sum(a, b),
{
    if a + b <= u32::MAX {
        lemma_small_mod((a + b) as nat, 0x1_0000_0000);
    } else {
        lemma_mod_sub_multiples_vanish(a + b, 0x1_0000_0000);
        lemma_small_mod((a + b - 0x1_0000_0000) as nat, 0x1_0000_0000);
    }
}

/// Processes one invocation. The result is exactly `outcome_of`; on success
/// the first account's bytes are overwritten in place with the encoding of
/// the updated counter and nothing else changes, and on any error every
/// account is left untouched.
pub fn process_instruction(
    program_id: &Pubkey,
    accounts: &mut Vec<Account>,
    instruction_data: &[u8],
) -> (r: Result<(), ErrorKind>)
    ensures
        r == outcome_of(*program_id, old(accounts)@, instruction_data@),
        r is Err ==> final(accounts)@ == old(accounts)@,
        r is Ok ==> {
            &&& final(accounts)@.len() == old(accounts)@.len()
            &&& forall|i: int|
                1 <= i < old(accounts)@.len() ==> final(accounts)@[i] == old(accounts)@[i]
            &&& final(accounts)@[0].owner == old(accounts)@[0].owner
            &&& final(accounts)@[0].data@ == record_bytes(
                counter_after(old(accounts)@[0].data@, instruction_data@),
            )
        },
{
    if accounts.len() == 0 {
        return Err(ErrorKind::MissingAccount);
    }
    let received = match GreetingAccount::try_from_slice(instruction_data) {
        Ok(record) => record,
        Err(e) => {
            return Err(e);
        },
    };
    let first = &accounts[0];
    if !first.owner.equals(program_id) {
        return Err(ErrorKind::PermissionDenied);
    }
    if first.data.len() < 4 {
        return Err(ErrorKind::BufferTooSmall);
    }
    if first.data.len() > 4 {
        return Err(ErrorKind::InvalidPayload);
    }
    let account = &mut accounts[0];
    let stored = match GreetingAccount::try_from_slice(account.data.as_slice()) {
        Ok(record) => record,
        Err(e) => {
            // unreachable: the stored buffer is exactly four bytes
            return Err(e);
        },
    };
    let updated = GreetingAccount { counter: stored.counter.wrapping_add(received.counter) };
    let write_result = updated.serialize(&mut account.data);
    match write_result {
        Ok(_) => {},
        Err(e) => {
            // unreachable: the stored buffer is exactly four bytes
            return Err(e);
        },
    }
    proof {
        lemma_wrapping_add_matches(stored.counter, received.counter);
        assert(record_bytes(updated.counter) + old(accounts)@[0].data@.skip(4) =~= record_bytes(
            updated.counter,
        ));
    }
    Ok(())
}

/// Every invocation with a first account, a four-byte payload, a matching
/// owner and a four-byte stored record succeeds, and the record written back
/// decodes to the stored counter plus the payload counter, modulo 2^32.
pub proof fn lemma_valid_request_succeeds(
    program_id: Pubkey,
    accounts: Seq<Account>,
    payload: Seq<u8>,
)
    requires
        accounts.len() > 0,
        payload.len() == 4,
        owner_matches(accounts[0], program_id),
        accounts[0].data@.len() == 4,
    ensures
        outcome_of(program_id, accounts, payload) == Ok::<(), ErrorKind>(()),
        record_value(record_bytes(counter_after(accounts[0].data@, payload))) == (record_value(
            accounts[0].data@,
        ) + record_value(payload)) % 0x1_0000_0000,
{
    lemma_record_bytes_roundtrip(counter_after(accounts[0].data@, payload));
}

/// An empty account sequence is reported as `MissingAccount`, whatever the
/// payload holds.
pub proof fn lemma_empty_accounts_rejected(
    program_id: Pubkey,
    accounts: Seq<Account>,
    payload: Seq<u8>,
)
    requires
        accounts.len() == 0,
    ensures
        outcome_of(program_id, accounts, payload) == Err::<(), ErrorKind>(
            ErrorKind::MissingAccount,
        ),
{
}

/// With a first account present, a payload shorter than four bytes is
/// reported as `InvalidPayload`.
pub proof fn lemma_short_payload_rejected(
    program_id: Pubkey,
    accounts: Seq<Account>,
    payload: Seq<u8>,
)
    requires
        accounts.len() > 0,
        payload.len() < 4,
    ensures
        outcome_of(program_id, accounts, payload) == Err::<(), ErrorKind>(
            ErrorKind::InvalidPayload,
        ),
{
}

/// With a first account present and a decodable payload, an owner other than
/// the running program is reported as `PermissionDenied`; by the handler's
/// contract the stored counter is then left unchanged.
pub proof fn lemma_owner_mismatch_rejected(
    program_id: Pubkey,
    accounts: Seq<Account>,
    payload: Seq<u8>,
)
    requires
        accounts.len() > 0,
        payload.len() == 4,
        !owner_matches(accounts[0], program_id),
    ensures
        outcome_of(program_id, accounts, payload) == Err::<(), ErrorKind>(
            ErrorKind::PermissionDenied,
        ),
{
}

/// With a first account present, a decodable payload and a matching owner,
/// storage shorter than four bytes is reported as `BufferTooSmall`; by the
/// handler's contract no partial write is attempted.
pub proof fn lemma_short_buffer_rejected(
    program_id: Pubkey,
    accounts: Seq<Account>,
    payload: Seq<u8>,
)
    requires
        accounts.len() > 0,
        payload.len() == 4,
        owner_matches(accounts[0], program_id),
        accounts[0].data@.len() < 4,
    ensures
        outcome_of(program_id, accounts, payload) == Err::<(), ErrorKind>(
            ErrorKind::BufferTooSmall,
        ),
{
}

/// A zero increment is a fixed point: an invocation whose payload encodes
/// counter zero writes back exactly the bytes already stored, and a second
/// such invocation does the same, so the stored record is unchanged both
/// times.
pub proof fn lemma_zero_increment_keeps_record(stored: Seq<u8>, payload: Seq<u8>)
    requires
        stored.len() == 4,
        payload.len() == 4,
        record_value(payload) == 0,
    ensures
        record_bytes(counter_after(stored, payload)) == stored,
        record_bytes(counter_after(record_bytes(counter_after(stored, payload)), payload))
            == stored,
{
    lemma_small_mod(record_value(stored) as nat, 0x1_0000_0000);
    lemma_record_value_roundtrip(stored);
}

} // verus!
