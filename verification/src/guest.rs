//! Pure compute helpers shared with the guest-side boot scripts: the
//! arithmetic entry points they export, the FNV-1a key placement used by the
//! cache maintenance requests, and the flat layout of an outgoing RPC frame
//! (path, method name, then payload, packed back to back).

use vstd::prelude::*;
use vstd::string::*;
use vstd::utf8::encode_utf8;

verus! {

/// The number of shards a cache key space is split into.
pub const NSHARD: u32 = 1009;

/// The FNV-1a offset basis for 32-bit hashes.
pub const FNV32_BASIS: u32 = 2166136261;

/// The FNV-1a prime for 32-bit hashes.
pub const FNV32_PRIME: u32 = 16777619;

/// The UTF-8 bytes of an owned string, as the hash and layout specs see it.
pub open spec fn string_bytes(s: &String) -> Seq<u8> {
    encode_utf8(s@)
}

/// One FNV-1a step: fold a byte into the running hash.
pub open spec fn fnv32a_step(acc: u32, b: u8) -> u32 {
    vstd::wrapping::u32_specs::wrapping_mul(acc ^ (b as u32), FNV32_PRIME)
}

/// The 32-bit FNV-1a hash of a byte sequence.
pub open spec fn fnv32a(bytes: Seq<u8>) -> u32
    decreases bytes.len(),
{
    if bytes.len() == 0 {
        FNV32_BASIS
    } else {
        fnv32a_step(fnv32a(bytes.drop_last()), bytes.last())
    }
}

/// The shard a cache key lives on: its FNV-1a hash modulo the shard count.
pub fn key2shard(key: &String) -> (r: u32)
    ensures
        r == fnv32a(string_bytes(key)) % NSHARD,
{
    let bytes: &[u8] = key.as_str().as_bytes();
    let mut s: u32 = FNV32_BASIS;
    let mut i: usize = 0;
    while i < bytes.len()
        invariant
            i <= bytes@.len(),
            bytes@ == string_bytes(key),
            s == fnv32a(bytes@.subrange(0, i as int)),
        decreases bytes@.len() - i,
    {
        s = (s ^ (bytes[i] as u32)).wrapping_mul(FNV32_PRIME);
        proof {
            assert(bytes@.subrange(0, i + 1 as int).drop_last() =~= bytes@.subrange(0, i as int));
        }
        i = i + 1;
    }
    proof {
        assert(bytes@.subrange(0, bytes@.len() as int) =~= bytes@);
    }
    s % NSHARD
}

/// The server a cache key is assigned to: its FNV-1a hash modulo the number
/// of servers.
pub fn key2server(key: &String, nserver: u32) -> (r: u32)
    requires
        nserver > 0,
    ensures
        r == fnv32a(string_bytes(key)) % nserver,
{
    let bytes: &[u8] = key.as_str().as_bytes();
    let mut s: u32 = FNV32_BASIS;
    let mut i: usize = 0;
    while i < bytes.len()
        invariant
            i <= bytes@.len(),
            bytes@ == string_bytes(key),
            s == fnv32a(bytes@.subrange(0, i as int)),
        decreases bytes@.len() - i,
    {
        s = (s ^ (bytes[i] as u32)).wrapping_mul(FNV32_PRIME);
        proof {
            assert(bytes@.subrange(0, i + 1 as int).drop_last() =~= bytes@.subrange(0, i as int));
        }
        i = i + 1;
    }
    proof {
        assert(bytes@.subrange(0, bytes@.len() as int) =~= bytes@);
    }
    s % nserver
}

/// Zero the first `nbyte` bytes of a shared buffer, leaving the rest as it
/// was, so a fresh request can be written over a longer stale one.
pub fn zero_buf(buf: &mut Vec<u8>, nbyte: usize)
    requires
        nbyte <= old(buf)@.len(),
    ensures
        final(buf)@.len() == old(buf)@.len(),
        forall|j: int| 0 <= j < nbyte ==> final(buf)@[j] == 0,
        forall|j: int| nbyte <= j < old(buf)@.len() ==> final(buf)@[j] == old(buf)@[j],
{
    let mut i: usize = 0;
    while i < nbyte
        invariant
            i <= nbyte <= buf@.len(),
            buf@.len() == old(buf)@.len(),
            forall|j: int| 0 <= j < i ==> buf@[j] == 0,
            forall|j: int| i <= j < buf@.len() ==> buf@[j] == old(buf)@[j],
        decreases nbyte - i,
    {
        buf.set(i, 0);
        i = i + 1;
    }
}

/// The flat byte layout of an outgoing RPC: destination path, method name,
/// then the serialized payload, packed back to back.
pub fn pack_rpc_frame(pn: &str, method: &str, payload: &Vec<u8>) -> (r: Vec<u8>)
    ensures
        r@ == pn.spec_bytes() + method.spec_bytes() + payload@,
{
    let mut r: Vec<u8> = pn.as_bytes_vec();
    let method_bytes: Vec<u8> = method.as_bytes_vec();
    let mut i: usize = 0;
    while i < method_bytes.len()
        invariant
            i <= method_bytes@.len(),
            method_bytes@ == method.spec_bytes(),
            r@ == pn.spec_bytes() + method_bytes@.subrange(0, i as int),
        decreases method_bytes@.len() - i,
    {
        r.push(method_bytes[i]);
        assert(r@ =~= pn.spec_bytes() + method_bytes@.subrange(0, i + 1 as int));
        i = i + 1;
    }
    proof {
        assert(method_bytes@.subrange(0, method_bytes@.len() as int) =~= method_bytes@);
    }
    let mut i: usize = 0;
    while i < payload.len()
        invariant
            i <= payload@.len(),
            r@ == pn.spec_bytes() + method.spec_bytes() + payload@.subrange(0, i as int),
        decreases payload@.len() - i,
    {
        r.push(payload[i]);
        assert(r@ =~= pn.spec_bytes() + method.spec_bytes() + payload@.subrange(0, i + 1 as int));
        i = i + 1;
    }
    proof {
        assert(payload@.subrange(0, payload@.len() as int) =~= payload@);
    }
    r
}

/// The arithmetic entry point a guest module exports.
pub fn add(left: usize, right: usize) -> (r: usize)
    requires
        left + right <= usize::MAX,
    ensures
        r == left + right,
{
    left + right
}

/// The sum returned by the logging variant of the guest entry point; the
/// host-side log emission itself is a host-runtime import and stays outside
/// this library.
pub fn add_and_log(left: usize, right: usize) -> (r: usize)
    requires
        left + right <= usize::MAX,
    ensures
        r == left + right,
{
    left + right
}

} // verus!
