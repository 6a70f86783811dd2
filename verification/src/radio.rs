//! What the core reads out of the transceiver's answers: whether a device
//! that was sighted is a compatible one, whether a frame was acknowledged,
//! and whether the image has been committed.

use vstd::prelude::*;

verus! {

/// Time allowed for one discovery poll and for the answer to one frame.
pub const EXCHANGE_TIMEOUT: u32 = 300;

/// Pause in low power between two discovery polls.
pub const DETECT_BACKOFF: u32 = 50;

/// Pause between two completion polls.
pub const POLL_DELAY: u32 = 100;

/// Number of completion polls after which the transfer gives up.
pub const POLL_ATTEMPTS: u32 = 50;

/// Number of bits in an answer of two bytes.
pub const ANSWER_BITS: u16 = 16;

/// Number of identity bytes that are compared.
pub const IDENTITY_PREFIX_LEN: usize = 7;

/// The bytes every compatible device's identity starts with: the ASCII
/// text `WSDZ10m`.
pub open spec fn identity_prefix() -> Seq<u8> {
    seq![0x57u8, 0x53, 0x44, 0x5A, 0x31, 0x30, 0x6D]
}

/// Whether an identity belongs to a compatible device: it has at least
/// seven bytes and the first seven are the required prefix.
pub open spec fn compatible(uid: Seq<u8>) -> bool {
    uid.len() >= IDENTITY_PREFIX_LEN && uid.subrange(0, IDENTITY_PREFIX_LEN as int)
        == identity_prefix()
}

/// Whether the answer to a frame is the one the protocol waits for: an
/// answer arrived, it is two bytes long, and they are `first` and zero.
pub open spec fn answered(success: bool, data: Seq<u8>, bits: u16, first: u8) -> bool {
    success && bits == ANSWER_BITS && data.len() >= 2 && data[0] == first && data[1] == 0
}

/// Whether the answer to a frame accepts it: two zero bytes.
pub open spec fn acknowledged(success: bool, data: Seq<u8>, bits: u16) -> bool {
    answered(success, data, bits, 0x00)
}

/// Whether the answer to a completion poll reports the image as committed:
/// the bytes `0xFF` and zero.
pub open spec fn committed(success: bool, data: Seq<u8>, bits: u16) -> bool {
    answered(success, data, bits, 0xFF)
}

/// Whether `a` and `b` hold the same bytes.
pub fn same_bytes(a: &[u8], b: &[u8]) -> (r: bool)
    ensures
        r == (a@ == b@),
{
    if a.len() != b.len() {
        return false;
    }
    let n: usize = a.len();
    let mut k: usize = 0;
    while k < n
        invariant
            k <= n,
            n == a@.len(),
            n == b@.len(),
            forall|j: int| 0 <= j < k ==> a@[j] == b@[j],
        decreases n - k,
    {
        if a[k] != b[k] {
            return false;
        }
        k = k + 1;
    }
    assert(a@ =~= b@);
    true
}

/// Whether a sighted identity belongs to a compatible device.
pub fn is_compatible(uid: &[u8]) -> (r: bool)
    ensures
        r == compatible(uid@),
{
    if uid.len() < IDENTITY_PREFIX_LEN {
        return false;
    }
    let prefix: [u8; 7] = [0x57, 0x53, 0x44, 0x5A, 0x31, 0x30, 0x6D];
    let mut k: usize = 0;
    while k < IDENTITY_PREFIX_LEN
        invariant
            k <= IDENTITY_PREFIX_LEN,
            uid@.len() >= IDENTITY_PREFIX_LEN,
            prefix@ == identity_prefix(),
            forall|j: int| 0 <= j < k ==> uid@[j] == identity_prefix()[j],
        decreases IDENTITY_PREFIX_LEN - k,
    {
        if uid[k] != prefix[k] {
            assert(uid@.subrange(0, IDENTITY_PREFIX_LEN as int)[k as int] != identity_prefix()[k as int]);
            return false;
        }
        k = k + 1;
    }
    assert(uid@.subrange(0, IDENTITY_PREFIX_LEN as int) =~= identity_prefix());
    true
}

/// Whether the answer to a frame accepts it.
pub fn is_acknowledged(success: bool, data: &[u8], bits: u16) -> (r: bool)
    ensures
        r == acknowledged(success, data@, bits),
{
    success && bits == ANSWER_BITS && data.len() >= 2 && data[0] == 0x00 && data[1] == 0x00
}

/// Whether the answer to a completion poll reports the image as committed.
pub fn is_committed(success: bool, data: &[u8], bits: u16) -> (r: bool)
    ensures
        r == committed(success, data@, bits),
{
    success && bits == ANSWER_BITS && data.len() >= 2 && data[0] == 0xFF && data[1] == 0x00
}

} // verus!
