//! Region descriptors for the memory protection unit: the power-of-two size
//! encoding and the composed region attribute word.

use vstd::prelude::*;
use vstd::arithmetic::power2::{
    lemma2_to64, lemma2_to64_rest, lemma_pow2_strictly_increases, lemma_pow2_unfold, pow2,
};

verus! {

/// Access permission of a protected region.
#[derive(Clone, Copy, Debug, PartialEq, Eq, Structural)]
pub enum AccessPolicy {
    NoAccess,
    ReadOnly,
    ReadWrite,
}

/// Write policy of a cacheable protected region.
#[derive(Clone, Copy, Debug, PartialEq, Eq, Structural)]
pub enum WritePolicy {
    WriteBack,
    WriteThrough,
}

/// Fatal boot-time configuration errors. None of these is recoverable: the
/// caller must halt instead of touching external memory.
#[derive(Clone, Copy, Debug, PartialEq, Eq, Structural)]
pub enum ConfigError {
    /// The region size is not a power of two of at least 32 bytes.
    InvalidSize,
    /// The region size is a power of two but too large for the size field.
    UnsupportedSize,
    /// The external memory read back a different pattern than was written.
    MemoryVerifyFailed,
}

/// One hardware-protected memory region: pure data, no behaviour.
#[derive(Clone, Copy, Debug, PartialEq, Eq, Structural)]
pub struct RegionDescriptor {
    pub base_address: u32,
    pub size: u64,
    pub access_policy: AccessPolicy,
    pub cacheable: bool,
    pub write_policy: WritePolicy,
}

/// A size the protection unit can map at all: a power of two of at least
/// 32 bytes. For a 64-bit size these are exactly the powers 2^5 ..= 2^63.
pub open spec fn valid_region_size(size: u64) -> bool {
    exists|n: nat| 5 <= n <= 63 && size == pow2(n)
}

/// A size whose encoding fits the five-bit region size field: 2^n for n in
/// [5, 31]. The encoding of 2^n is n - 1.
pub open spec fn encodable_region_size(size: u64) -> bool {
    exists|n: nat| 5 <= n <= 31 && size == pow2(n)
}

/// The size encoding of an encodable region size: n - 1 for size == 2^n.
pub open spec fn spec_size_encoding(size: u64) -> u32
    recommends
        encodable_region_size(size),
{
    (((choose|n: nat| 5 <= n <= 31 && size == pow2(n)) - 1) as u32)
}

/// The exponent matching a power of two is unique, so the size encoding of
/// 2^n is exactly n - 1.
pub proof fn lemma_size_encoding_of_power(size: u64, n: nat)
    requires
        5 <= n <= 31,
        size == pow2(n),
    ensures
        spec_size_encoding(size) == (n - 1) as u32,
{
    let m = choose|m: nat| 5 <= m <= 31 && size == pow2(m);
    assert(5 <= m <= 31 && size == pow2(m));
    if m < n {
        lemma_pow2_strictly_increases(m, n);
    }
    if m > n {
        lemma_pow2_strictly_increases(n, m);
    }
}

/// Scans the exponents 5 ..= 31 for the power of two matching `size` and
/// returns the hardware size encoding `n - 1`. A size that is not a power of
/// two of at least 32 bytes is rejected as `InvalidSize`; a power of two too
/// large for the field is rejected as `UnsupportedSize`. Both are fatal.
pub fn encode_region_size(size: u64) -> (r: Result<u32, ConfigError>)
    ensures
        forall|n: nat| 5 <= n <= 31 && size == pow2(n) ==> r == Ok::<u32, ConfigError>((n - 1) as u32),
        r is Ok ==> encodable_region_size(size),
        r matches Ok(enc) ==> enc == spec_size_encoding(size) && enc <= 30,
        !valid_region_size(size) ==> r == Err::<u32, ConfigError>(ConfigError::InvalidSize),
        valid_region_size(size) && !encodable_region_size(size) ==> r == Err::<u32, ConfigError>(
            ConfigError::UnsupportedSize,
        ),
{
    let mut n: u32 = 5;
    let mut p: u64 = 32;
    proof {
        lemma2_to64();
    }
    loop
        invariant
            5 <= n <= 63,
            p == pow2(n as nat),
            forall|j: nat| 5 <= j < n ==> size != pow2(j),
        ensures
            forall|j: nat| 5 <= j <= 63 ==> size != pow2(j),
        decreases 63 - n,
    {
        if size == p {
            proof {
                assert forall|m: nat| 5 <= m <= 63 && size == pow2(m) implies m == n as nat by {
                    if m < n as nat {
                        lemma_pow2_strictly_increases(m, n as nat);
                    }
                    if m > n as nat {
                        lemma_pow2_strictly_increases(n as nat, m);
                    }
                }
            }
            if n <= 31 {
                proof {
                    lemma_size_encoding_of_power(size, n as nat);
                }
                return Ok(n - 1);
            } else {
                return Err(ConfigError::UnsupportedSize);
            }
        }
        if n == 63 {
            break;
        }
        proof {
            lemma_pow2_strictly_increases(n as nat, 63);
            lemma2_to64_rest();
            lemma_pow2_unfold((n + 1) as nat);
        }
        p = p * 2;
        n = n + 1;
    }
    Err(ConfigError::InvalidSize)
}

/// The access permission field of the attribute word, as the hardware
/// encodes it: no access, read-only for every privilege level, or full
/// read-write access.
pub open spec fn access_bits(p: AccessPolicy) -> u32 {
    match p {
        AccessPolicy::NoAccess => 0x0,
        AccessPolicy::ReadOnly => 0x6,
        AccessPolicy::ReadWrite => 0x3,
    }
}

/// The cacheable bit of the attribute word.
pub open spec fn cache_bit(cacheable: bool) -> u32 {
    if cacheable {
        1
    } else {
        0
    }
}

/// The write-policy bit of the attribute word: set for write-back, clear for
/// write-through.
pub open spec fn write_bit(p: WritePolicy) -> u32 {
    match p {
        WritePolicy::WriteBack => 1,
        WritePolicy::WriteThrough => 0,
    }
}

/// The composed region attribute word: access permission bits at bit 24, the
/// cacheable bit at bit 17, the write-policy bit at bit 16, the size encoding
/// at bit 1, and the region enable bit at bit 0.
pub open spec fn attribute_word(ap: u32, c: u32, b: u32, enc: u32) -> u32 {
    (ap << 24) | (c << 17) | (b << 16) | (enc << 1) | 1
}

/// The attribute word programmed for `desc` with size encoding `enc`.
pub open spec fn region_attribute_word(desc: RegionDescriptor, enc: u32) -> u32 {
    attribute_word(
        access_bits(desc.access_policy),
        cache_bit(desc.cacheable),
        write_bit(desc.write_policy),
        enc,
    )
}

/// The access permission field read back from an attribute word.
pub open spec fn word_access_bits(w: u32) -> u32 {
    (w >> 24) & 0x7
}

/// The cacheable bit read back from an attribute word.
pub open spec fn word_cache_bit(w: u32) -> u32 {
    (w >> 17) & 0x1
}

/// The write-policy bit read back from an attribute word.
pub open spec fn word_write_bit(w: u32) -> u32 {
    (w >> 16) & 0x1
}

/// The size encoding read back from an attribute word.
pub open spec fn word_size_encoding(w: u32) -> u32 {
    (w >> 1) & 0x1F
}

/// The region enable bit read back from an attribute word.
pub open spec fn word_enabled(w: u32) -> bool {
    w & 0x1 == 1
}

/// Composes the attribute word for `desc` from its access permission,
/// cacheable and write-policy bits and the size encoding.
pub fn compose_attribute_word(desc: &RegionDescriptor, enc: u32) -> (w: u32)
    requires
        enc < 32,
    ensures
        w == region_attribute_word(*desc, enc),
{
    let ap: u32 = match desc.access_policy {
        AccessPolicy::NoAccess => 0x0,
        AccessPolicy::ReadOnly => 0x6,
        AccessPolicy::ReadWrite => 0x3,
    };
    let c: u32 = if desc.cacheable {
        1
    } else {
        0
    };
    let b: u32 = match desc.write_policy {
        WritePolicy::WriteBack => 1,
        WritePolicy::WriteThrough => 0,
    };
    (ap << 24u32) | (c << 17u32) | (b << 16u32) | (enc << 1u32) | 1
}

/// The bit fields of the attribute word are disjoint, so each one reads back
/// exactly as composed.
proof fn lemma_attribute_word_fields(ap: u32, c: u32, b: u32, enc: u32)
    by (bit_vector)
    requires
        ap == 0x0 || ap == 0x3 || ap == 0x6,
        c < 2,
        b < 2,
        enc < 32,
    ensures
        word_access_bits(attribute_word(ap, c, b, enc)) == ap,
        word_cache_bit(attribute_word(ap, c, b, enc)) == c,
        word_write_bit(attribute_word(ap, c, b, enc)) == b,
        word_size_encoding(attribute_word(ap, c, b, enc)) == enc,
        word_enabled(attribute_word(ap, c, b, enc)),
{
}

/// Region configuration is write-then-read consistent: reading the
/// programmed attribute word back reproduces the access, cacheable,
/// write-policy and size-encoding bits of the descriptor, and the enable
/// bit is set.
pub proof fn lemma_attribute_word_round_trip(desc: RegionDescriptor, enc: u32)
    requires
        enc < 32,
    ensures
        word_access_bits(region_attribute_word(desc, enc)) == access_bits(desc.access_policy),
        word_cache_bit(region_attribute_word(desc, enc)) == cache_bit(desc.cacheable),
        word_write_bit(region_attribute_word(desc, enc)) == write_bit(desc.write_policy),
        word_size_encoding(region_attribute_word(desc, enc)) == enc,
        word_enabled(region_attribute_word(desc, enc)),
{
    lemma_attribute_word_fields(
        access_bits(desc.access_policy),
        cache_bit(desc.cacheable),
        write_bit(desc.write_policy),
        enc,
    );
}

} // verus!
