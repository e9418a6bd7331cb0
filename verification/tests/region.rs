use rtos::region::{
    compose_attribute_word, encode_region_size, AccessPolicy, ConfigError, RegionDescriptor,
    WritePolicy,
};

#[test]
fn encode_accepts_every_power_in_range() {
    for n in 5u32..=31 {
        let size = 1u64 << n;
        assert_eq!(encode_region_size(size), Ok(n - 1));
    }
}

#[test]
fn encode_rejects_non_powers_as_invalid() {
    for size in [0u64, 1, 2, 16, 31, 33, 48, 100, 0x1FF_FFFF, 0x2000001] {
        assert_eq!(encode_region_size(size), Err(ConfigError::InvalidSize));
    }
}

#[test]
fn encode_rejects_small_powers_as_invalid() {
    for n in 0u32..5 {
        assert_eq!(encode_region_size(1u64 << n), Err(ConfigError::InvalidSize));
    }
}

#[test]
fn encode_rejects_huge_powers_as_unsupported() {
    for n in 32u32..=63 {
        assert_eq!(
            encode_region_size(1u64 << n),
            Err(ConfigError::UnsupportedSize)
        );
    }
}

fn sdram_descriptor() -> RegionDescriptor {
    RegionDescriptor {
        base_address: 0xD000_0000,
        size: 0x200_0000,
        access_policy: AccessPolicy::ReadWrite,
        cacheable: true,
        write_policy: WritePolicy::WriteBack,
    }
}

#[test]
fn attribute_word_reads_back_field_by_field() {
    let desc = sdram_descriptor();
    let enc = encode_region_size(desc.size).unwrap();
    assert_eq!(enc, 24);
    let word = compose_attribute_word(&desc, enc);
    assert_eq!(word, 0x0303_0031);
    assert_eq!((word >> 24) & 0x7, 0x3, "access bits");
    assert_eq!((word >> 17) & 0x1, 0x1, "cacheable bit");
    assert_eq!((word >> 16) & 0x1, 0x1, "write-back bit");
    assert_eq!((word >> 1) & 0x1F, 24, "size encoding");
    assert_eq!(word & 0x1, 0x1, "region enable bit");
}

#[test]
fn attribute_word_encodes_each_policy() {
    let mut desc = sdram_descriptor();
    desc.access_policy = AccessPolicy::NoAccess;
    desc.cacheable = false;
    desc.write_policy = WritePolicy::WriteThrough;
    let word = compose_attribute_word(&desc, 24);
    assert_eq!((word >> 24) & 0x7, 0x0);
    assert_eq!((word >> 17) & 0x1, 0x0);
    assert_eq!((word >> 16) & 0x1, 0x0);

    desc.access_policy = AccessPolicy::ReadOnly;
    let word = compose_attribute_word(&desc, 24);
    assert_eq!((word >> 24) & 0x7, 0x6);
}
