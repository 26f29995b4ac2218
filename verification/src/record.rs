//! The wire unit of the producer: a record with optional key and value,
//! ordered headers, and a millisecond timestamp.

use vstd::prelude::*;

verus! {

/// Bytes that the serialized form of a record spends on its timestamp.
pub const TIMESTAMP_SIZE: usize = 8;

/// One header of a record: a string key mapped to raw bytes. The codec
/// preserves the insertion order of headers, so they are kept as a list.
#[derive(Clone, Debug)]
pub struct RecordHeader {
    pub key: String,
    pub value: Vec<u8>,
}

/// The wire unit handed to the producer.
#[derive(Clone, Debug)]
pub struct Record {
    pub key: Option<Vec<u8>>,
    pub value: Option<Vec<u8>>,
    pub headers: Vec<RecordHeader>,
    /// Timestamp of the record, in milliseconds since the Unix epoch.
    pub timestamp_ms: i64,
}

/// Length of an optional byte sequence; `None` counts as empty.
pub open spec fn opt_bytes_len(b: Option<Vec<u8>>) -> nat {
    match b {
        Some(v) => v@.len(),
        None => 0,
    }
}

/// Serialized size contributed by one header.
pub open spec fn header_size_spec(h: RecordHeader) -> nat {
    h.key@.len() + h.value@.len()
}

/// Serialized size contributed by a list of headers.
pub open spec fn headers_size_spec(hs: Seq<RecordHeader>) -> nat
    decreases hs.len(),
{
    if hs.len() == 0 {
        0
    } else {
        headers_size_spec(hs.drop_last()) + header_size_spec(hs.last())
    }
}

/// `a + b`, capped at `usize::MAX`.
pub open spec fn saturating_add_spec(a: nat, b: nat) -> nat {
    if a + b <= usize::MAX {
        a + b
    } else {
        usize::MAX as nat
    }
}

fn saturating_add(a: usize, b: usize) -> (r: usize)
    ensures
        r == saturating_add_spec(a as nat, b as nat),
{
    if a > usize::MAX - b {
        usize::MAX
    } else {
        a + b
    }
}

proof fn lemma_headers_size_take_step(hs: Seq<RecordHeader>, i: int)
    requires
        0 <= i < hs.len(),
    ensures
        headers_size_spec(hs.take(i + 1)) == headers_size_spec(hs.take(i)) + header_size_spec(
            hs[i],
        ),
{
    let pre = hs.take(i + 1);
    assert(pre.drop_last() =~= hs.take(i));
    assert(pre.last() == hs[i]);
}

impl Record {
    /// Approximate serialized size of the record: the sum of the lengths of
    /// key, value and headers plus the timestamp, without any allocation.
    /// The sum is monotone in each component's length.
    pub open spec fn approximate_size_spec(self) -> nat {
        TIMESTAMP_SIZE as nat + opt_bytes_len(self.key) + opt_bytes_len(self.value)
            + headers_size_spec(self.headers@)
    }

    /// Approximate serialized size, saturating at `usize::MAX`.
    pub fn approximate_size(&self) -> (r: usize)
        ensures
            r == saturating_add_spec(self.approximate_size_spec(), 0),
    {
        let mut size: usize = TIMESTAMP_SIZE;
        if let Some(k) = &self.key {
            size = saturating_add(size, k.len());
        }
        if let Some(v) = &self.value {
            size = saturating_add(size, v.len());
        }
        let mut i: usize = 0;
        while i < self.headers.len()
            invariant
                i <= self.headers@.len(),
                size == saturating_add_spec(
                    TIMESTAMP_SIZE as nat + opt_bytes_len(self.key) + opt_bytes_len(self.value)
                        + headers_size_spec(self.headers@.take(i as int)),
                    0,
                ),
            decreases self.headers@.len() - i,
        {
            let h = &self.headers[i];
            let h_size = saturating_add(h.key.as_str().unicode_len(), h.value.len());
            size = saturating_add(size, h_size);
            proof {
                lemma_headers_size_take_step(self.headers@, i as int);
            }
            i += 1;
        }
        proof {
            assert(self.headers@.take(self.headers@.len() as int) =~= self.headers@);
        }
        size
    }
}

} // verus!
