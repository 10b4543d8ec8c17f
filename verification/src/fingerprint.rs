//! Request fingerprinting: a 64-bit identity for an inbound request, derived
//! from method, URI and client IP, mixed with a process-wide random seed so
//! that fingerprints are stable within one run but unpredictable across
//! runs.  Collisions are acceptable; no cryptographic strength is claimed.

use vstd::prelude::*;

verus! {

/// Offset basis of the 64-bit FNV-1a mixing function.
pub const FINGERPRINT_OFFSET: u64 = 0xcbf29ce484222325;

/// Prime of the 64-bit FNV-1a mixing function.
pub const FINGERPRINT_PRIME: u64 = 0x100000001b3;

/// Byte mixed in between the fingerprint fields, so that the field boundary
/// takes part in the hash.
pub const FIELD_SEPARATOR: u8 = 0xfe;

/// One FNV-1a round: fold one byte into the accumulator.
pub open spec fn mix_byte(h: u64, b: u8) -> u64 {
    vstd::wrapping::u64_specs::wrapping_mul(h ^ (b as u64), FINGERPRINT_PRIME)
}

/// Fold a whole byte string into the accumulator, left to right.
pub open spec fn mix_bytes(h: u64, s: Seq<u8>) -> u64
    decreases s.len(),
{
    if s.len() == 0 {
        h
    } else {
        mix_byte(mix_bytes(h, s.drop_last()), s.last())
    }
}

/// The client IP bytes of a request, or `None` where no client IP could be
/// determined (a distinguished value, not an error).
pub open spec fn ip_view(client_ip: Option<&[u8]>) -> Option<Seq<u8>> {
    match client_ip {
        Some(ip) => Some(ip@),
        None => None,
    }
}

/// The fingerprint of a request: a pure function of the seed, the method,
/// the URI and the (possibly absent) client IP.
pub open spec fn spec_fingerprint(
    seed: u64,
    method: Seq<u8>,
    uri: Seq<u8>,
    client_ip: Option<Seq<u8>>,
) -> u64 {
    let h0 = seed ^ FINGERPRINT_OFFSET;
    let h1 = mix_byte(mix_bytes(h0, method), FIELD_SEPARATOR);
    let h2 = mix_byte(mix_bytes(h1, uri), FIELD_SEPARATOR);
    match client_ip {
        None => mix_byte(h2, 0),
        Some(ip) => mix_bytes(mix_byte(h2, 1), ip),
    }
}

fn mix_one(h: u64, b: u8) -> (r: u64)
    ensures
        r == mix_byte(h, b),
{
    (h ^ (b as u64)).wrapping_mul(FINGERPRINT_PRIME)
}

fn mix_slice(h: u64, bytes: &[u8]) -> (r: u64)
    ensures
        r == mix_bytes(h, bytes@),
{
    let mut acc = h;
    let mut i: usize = 0;
    while i < bytes.len()
        invariant
            i <= bytes@.len(),
            acc == mix_bytes(h, bytes@.take(i as int)),
        decreases bytes@.len() - i,
    {
        proof {
            assert(bytes@.take(i + 1).drop_last() =~= bytes@.take(i as int));
            assert(bytes@.take(i + 1).last() == bytes@[i as int]);
        }
        acc = mix_one(acc, bytes[i]);
        i = i + 1;
    }
    proof {
        assert(bytes@.take(bytes@.len() as int) =~= bytes@);
    }
    acc
}

/// Compute the fingerprint of a request.  Deterministic within one process
/// run: the same seed, method, URI and client IP always give the same value.
pub fn fingerprint(seed: u64, method: &[u8], uri: &[u8], client_ip: Option<&[u8]>) -> (h: u64)
    ensures
        h == spec_fingerprint(seed, method@, uri@, ip_view(client_ip)),
{
    let h0 = seed ^ FINGERPRINT_OFFSET;
    let h1 = mix_one(mix_slice(h0, method), FIELD_SEPARATOR);
    let h2 = mix_one(mix_slice(h1, uri), FIELD_SEPARATOR);
    match client_ip {
        None => mix_one(h2, 0),
        Some(ip) => mix_slice(mix_one(h2, 1), ip),
    }
}

} // verus!
