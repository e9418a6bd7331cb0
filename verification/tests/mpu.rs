use rtos::controller::{bring_up, ChipProfile};
use rtos::mpu::{configure_region, MpuCommand, MpuPort, CTRL_ENABLE, CTRL_PRIVDEFENA};
use rtos::region::{AccessPolicy, ConfigError, RegionDescriptor, WritePolicy};

fn sdram_descriptor() -> RegionDescriptor {
    RegionDescriptor {
        base_address: 0xD000_0000,
        size: 0x200_0000,
        access_policy: AccessPolicy::ReadWrite,
        cacheable: true,
        write_policy: WritePolicy::WriteBack,
    }
}

fn test_profile() -> ChipProfile {
    ChipProfile {
        mode_register: 0x0220,
        refresh_interval: 0x0603,
        power_up_delay_us: 100,
        auto_refresh_count: 2,
    }
}

#[test]
fn configure_region_emits_the_strict_command_order() {
    let mut port = MpuPort::new();
    let token = configure_region(&mut port, &sdram_descriptor()).unwrap();
    assert_eq!(token.base(), 0xD000_0000);
    assert_eq!(token.size(), 0x200_0000);
    let expected = vec![
        MpuCommand::BarrierDataMemory,
        MpuCommand::FaultReportingOff,
        MpuCommand::WriteControl(0),
        MpuCommand::WriteRegionNumber(0),
        MpuCommand::WriteRegionBase(0xD000_0000),
        MpuCommand::WriteRegionAttributes(0x0303_0031),
        MpuCommand::WriteControl(CTRL_ENABLE | CTRL_PRIVDEFENA),
        MpuCommand::FaultReportingOn,
        MpuCommand::BarrierDataSync,
        MpuCommand::BarrierInstrSync,
    ];
    assert_eq!(port.log, expected);
}

#[test]
fn configure_region_programs_the_register_window() {
    let mut port = MpuPort::new();
    configure_region(&mut port, &sdram_descriptor()).unwrap();
    assert_eq!(port.ctrl, CTRL_ENABLE | CTRL_PRIVDEFENA);
    assert_eq!(port.region_number, 0);
    assert_eq!(port.region_base, 0xD000_0000);
    assert_eq!(port.region_attributes, 0x0303_0031);
    assert!(port.fault_reporting);
}

#[test]
fn configure_region_rejects_invalid_size_before_region_writes() {
    let mut port = MpuPort::new();
    let mut desc = sdram_descriptor();
    desc.size = 12345;
    let err = configure_region(&mut port, &desc).unwrap_err();
    assert_eq!(err, ConfigError::InvalidSize);
    // The unit was left disabled with fault reporting off; no region
    // register was touched.
    assert_eq!(
        port.log,
        vec![
            MpuCommand::BarrierDataMemory,
            MpuCommand::FaultReportingOff,
            MpuCommand::WriteControl(0),
        ]
    );
    assert_eq!(port.ctrl, 0);
    assert_eq!(port.region_base, 0);
    assert_eq!(port.region_attributes, 0);
    assert!(!port.fault_reporting);
}

#[test]
fn configure_region_rejects_unencodable_size_as_unsupported() {
    let mut port = MpuPort::new();
    let mut desc = sdram_descriptor();
    desc.size = 1u64 << 33;
    let err = configure_region(&mut port, &desc).unwrap_err();
    assert_eq!(err, ConfigError::UnsupportedSize);
}

#[test]
fn bring_up_runs_only_after_the_region_is_configured() {
    // The bring-up demands the token that only a successful region
    // configuration produces, so the sequence is enforced by construction:
    // the token plays the role of the "region ready" flag.
    let mut port = MpuPort::new();
    let mut desc = sdram_descriptor();

    desc.size = 12345;
    let attempt = configure_region(&mut port, &desc);
    assert!(attempt.is_err(), "no token exists before a successful configuration");

    desc.size = 0x200_0000;
    let token = configure_region(&mut port, &desc).unwrap();
    let (session, _steps) = bring_up(&token, &test_profile());
    // The controller came up on exactly the window the token certifies.
    assert_eq!(session.base_address, token.base());
    assert_eq!(session.size, token.size());
    assert!(session.initialized);
}
