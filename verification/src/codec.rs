use crate::error::ErrorKind;
use vstd::bytes::{
    lemma_auto_spec_u32_to_from_le_bytes, spec_u32_from_le_bytes, spec_u32_to_le_bytes,
    u32_from_le_bytes, u32_to_le_bytes,
};
use vstd::prelude::*;

verus! {

/// The one record this program stores: a greeting counter.
///
/// A record is encoded as exactly the four little-endian bytes of `counter`,
/// with no length prefix, tag, or padding. The instruction payload and the
/// persisted account bytes both use this encoding.
#[derive(Clone, Copy, Debug, PartialEq, Eq, Structural)]
pub struct GreetingAccount {
    pub counter: u32,
}

/// The four-byte little-endian encoding of a counter value.
pub open spec fn record_bytes(counter: u32) -> Seq<u8> {
    spec_u32_to_le_bytes(counter)
}

/// The counter value held by a four-byte buffer.
pub open spec fn record_value(bytes: Seq<u8>) -> u32
    recommends
        bytes.len() == 4,
{
    spec_u32_from_le_bytes(bytes)
}

/// Encoding then decoding returns the original counter, and the encoding is
/// always four bytes long.
pub proof fn lemma_record_bytes_roundtrip(counter: u32)
    ensures
        record_bytes(counter).len() == 4,
        record_value(record_bytes(counter)) == counter,
{
    lemma_auto_spec_u32_to_from_le_bytes();
    assert(spec_u32_to_le_bytes(counter).len() == 4);
}

/// Decoding a four-byte buffer then re-encoding returns the same bytes.
pub proof fn lemma_record_value_roundtrip(bytes: Seq<u8>)
    requires
        bytes.len() == 4,
    ensures
        record_bytes(record_value(bytes)) == bytes,
{
    lemma_auto_spec_u32_to_from_le_bytes();
}

impl GreetingAccount {
    /// Decodes a record from `data`. Succeeds exactly when `data` is the
    /// four-byte encoding of some counter, and returns that counter; any
    /// other length is not a record.
    pub fn try_from_slice(data: &[u8]) -> (r: Result<GreetingAccount, ErrorKind>)
        ensures
            data@.len() == 4 ==> r == Ok::<GreetingAccount, ErrorKind>(
                GreetingAccount { counter: record_value(data@) },
            ),
            data@.len() != 4 ==> r == Err::<GreetingAccount, ErrorKind>(ErrorKind::InvalidPayload),
    {
        if data.len() == 4 {
            Ok(GreetingAccount { counter: u32_from_le_bytes(data) })
        } else {
            Err(ErrorKind::InvalidPayload)
        }
    }

    /// Encodes the record into the first four bytes of `data`, leaving every
    /// byte past the fourth unchanged and never resizing the buffer. Fails,
    /// with `data` untouched, when the buffer cannot hold the encoding.
    pub fn serialize(&self, data: &mut Vec<u8>) -> (r: Result<(), ErrorKind>)
        ensures
            old(data)@.len() < 4 ==> {
                &&& r == Err::<(), ErrorKind>(ErrorKind::BufferTooSmall)
                &&& final(data)@ == old(data)@
            },
            old(data)@.len() >= 4 ==> {
                &&& r == Ok::<(), ErrorKind>(())
                &&& final(data)@ == record_bytes(self.counter) + old(data)@.skip(4)
            },
    {
        if data.len() < 4 {
            return Err(ErrorKind::BufferTooSmall);
        }
        let mut encoded = u32_to_le_bytes(self.counter);
        let ghost pre = data@;
        let mut i: usize = 4;
        while i < data.len()
            invariant
                4 <= i <= pre.len(),
                data@ == pre,
                encoded@ == record_bytes(self.counter) + pre.subrange(4, i as int),
            decreases pre.len() - i,
        {
            let b = data[i];
            encoded.push(b);
            i += 1;
        }
        proof {
            assert(encoded@ =~= record_bytes(self.counter) + pre.skip(4));
        }
        *data = encoded;
        Ok(())
    }
}

} // verus!
