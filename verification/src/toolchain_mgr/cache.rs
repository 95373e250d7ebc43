//! The content-addressed cache under `~/.cache/bana/<hash>`. It belongs to
//! no project: two projects needing exactly the same tool version share one
//! cache folder.

use crate::text::{digit_char, hex_digits, hex_string, join, join_path};
use vstd::prelude::*;
use vstd::utf8::encode_utf8;

verus! {

/// The 64-bit FNV-1a offset basis.
pub const FNV_OFFSET: u64 = 0xcbf29ce484222325;

/// The 64-bit FNV-1a prime.
pub const FNV_PRIME: u64 = 0x100000001b3;

/// The byte that separates key parts, so that `["ab", "c"]` and
/// `["a", "bc"]` are hashed from different byte streams.
pub const PART_SEPARATOR: u8 = 0xff;

/// One FNV-1a step: xor the byte in, then multiply by the prime modulo 2^64.
pub open spec fn fnv_step(h: u64, b: u8) -> u64 {
    vstd::wrapping::u64_specs::wrapping_mul(h ^ (b as u64), FNV_PRIME)
}

/// FNV-1a over a byte sequence, from the running hash `h`.
pub open spec fn fnv_bytes(h: u64, bs: Seq<u8>) -> u64
    decreases bs.len(),
{
    if bs.len() == 0 {
        h
    } else {
        fnv_step(fnv_bytes(h, bs.drop_last()), bs.last())
    }
}

/// The hash of key parts: each part's UTF-8 bytes followed by the
/// separator byte, hashed from the offset basis.
pub open spec fn fnv_parts(parts: Seq<Seq<char>>) -> u64
    decreases parts.len(),
{
    if parts.len() == 0 {
        FNV_OFFSET
    } else {
        fnv_step(fnv_bytes(fnv_parts(parts.drop_last()), encode_utf8(parts.last())), PART_SEPARATOR)
    }
}

/// The cache key of some parts: their hash as 16 lowercase hex digits.
pub open spec fn spec_cache_key(parts: Seq<Seq<char>>) -> Seq<char> {
    hex_digits(fnv_parts(parts) as nat, 16)
}

/// Whether a character is a lowercase hexadecimal digit.
pub open spec fn is_hex_char(c: char) -> bool {
    ('0' <= c && c <= '9') || ('a' <= c && c <= 'f')
}

/// The default cache root under a home directory: `<home>/.cache/bana`.
pub open spec fn spec_default_cache_root(home: Seq<char>) -> Seq<char> {
    join(join(home, ".cache"@), "bana"@)
}

pub proof fn lemma_hex_digits_shape(n: nat, k: nat)
    ensures
        hex_digits(n, k).len() == k,
        forall|i: int| 0 <= i < k ==> is_hex_char(#[trigger] hex_digits(n, k)[i]),
    decreases k,
{
    if k > 0 {
        lemma_hex_digits_shape(n / 16, (k - 1) as nat);
        let d = n % 16;
        assert(is_hex_char(digit_char(d)));
        assert forall|i: int| 0 <= i < k implies is_hex_char(#[trigger] hex_digits(n, k)[i]) by {
            if i < k - 1 {
                assert(hex_digits(n, k)[i] == hex_digits(n / 16, (k - 1) as nat)[i]);
            }
        }
    }
}

/// A cache key is always exactly 16 lowercase hexadecimal digits, and the
/// same parts always give the same key.
pub proof fn law_cache_key_shape(parts: Seq<Seq<char>>, again: Seq<Seq<char>>)
    ensures
        spec_cache_key(parts).len() == 16,
        forall|i: int| 0 <= i < 16 ==> is_hex_char(#[trigger] spec_cache_key(parts)[i]),
        parts == again ==> spec_cache_key(parts) == spec_cache_key(again),
{
    lemma_hex_digits_shape(fnv_parts(parts) as nat, 16);
}

/// The 64-bit FNV-1a hash of the parts, with a separator after each part,
/// as 16 lowercase hex digits. Identification only, not security, but
/// always deterministic.
pub fn compute_cache_key(parts: &[&str]) -> (r: String)
    ensures
        r@ == spec_cache_key(parts.deep_view()),
{
    let mut hash: u64 = FNV_OFFSET;
    let mut i: usize = 0;
    while i < parts.len()
        invariant
            i <= parts@.len(),
            hash == fnv_parts(parts.deep_view().take(i as int)),
        decreases parts.len() - i,
    {
        let bytes = parts[i].as_bytes();
        let ghost start = hash;
        let mut j: usize = 0;
        while j < bytes.len()
            invariant
                j <= bytes@.len(),
                hash == fnv_bytes(start, bytes@.take(j as int)),
            decreases bytes.len() - j,
        {
            assert(bytes@.take(j + 1).drop_last() =~= bytes@.take(j as int));
            hash = (hash ^ (bytes[j] as u64)).wrapping_mul(FNV_PRIME);
            j = j + 1;
        }
        assert(bytes@.take(j as int) =~= bytes@);
        assert(parts.deep_view().take(i + 1).drop_last() =~= parts.deep_view().take(i as int));
        assert(parts.deep_view()[i as int] == parts@[i as int]@);
        hash = (hash ^ (PART_SEPARATOR as u64)).wrapping_mul(FNV_PRIME);
        i = i + 1;
    }
    assert(parts.deep_view().take(i as int) =~= parts.deep_view());
    hex_string(hash, 16)
}

/// The default cache root: `<home>/.cache/bana`.
pub fn default_cache_root(home_dir: &str) -> (r: String)
    ensures
        r@ == spec_default_cache_root(home_dir@),
{
    let cache = join_path(home_dir, ".cache");
    join_path(cache.as_str(), "bana")
}

/// The cache folder of a key, e.g. `["ndk", "26.1.10909125"]`: the key's
/// hash directly under the cache root.
pub fn cache_dir_for(cache_root: &str, key_parts: &[&str]) -> (r: String)
    ensures
        r@ == join(cache_root@, spec_cache_key(key_parts.deep_view())),
{
    let key = compute_cache_key(key_parts);
    join_path(cache_root, key.as_str())
}

} // verus!
