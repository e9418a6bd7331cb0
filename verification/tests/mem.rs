use rtos::controller::{ChipProfile, ControllerStep};
use rtos::heap::HeapArena;
use rtos::mem::init_sdram;
use rtos::mpu::{MpuCommand, MpuPort, CTRL_ENABLE, CTRL_PRIVDEFENA};
use rtos::region::{AccessPolicy, ConfigError, RegionDescriptor, WritePolicy};

fn sdram_descriptor() -> RegionDescriptor {
    RegionDescriptor {
        base_address: 0xD000_0000,
        size: 0x200_0000,
        access_policy: AccessPolicy::ReadWrite,
        cacheable: true,
        write_policy: WritePolicy::WriteBack,
    }
}

fn test_profile() -> ChipProfile {
    ChipProfile {
        mode_register: 0x0220,
        refresh_interval: 0x0603,
        power_up_delay_us: 100,
        auto_refresh_count: 2,
    }
}

#[test]
fn init_sdram_runs_the_three_stages_in_order() {
    let mut port = MpuPort::new();
    let mut arena = HeapArena::new();
    let steps = init_sdram(&mut port, &sdram_descriptor(), &test_profile(), &mut arena).unwrap();

    // Stage one: the protection region was programmed, barriers included.
    assert_eq!(port.log.first(), Some(&MpuCommand::BarrierDataMemory));
    assert_eq!(port.log.last(), Some(&MpuCommand::BarrierInstrSync));
    assert_eq!(port.ctrl, CTRL_ENABLE | CTRL_PRIVDEFENA);
    assert_eq!(port.region_base, 0xD000_0000);
    assert_eq!(port.region_attributes, 0x0303_0031);

    // Stage two: the controller bring-up plan for the same window.
    assert_eq!(steps.first(), Some(&ControllerStep::EnableClock));
    assert_eq!(
        steps.last(),
        Some(&ControllerStep::SetRefreshInterval(0x0603))
    );

    // Stage three: the arena received exactly the mapped window, once.
    assert!(arena.registered());
    assert_eq!(arena.arena(), (0xD000_0000, 0x200_0000));
}

#[test]
fn init_sdram_halts_before_the_controller_on_a_bad_region() {
    let mut port = MpuPort::new();
    let mut arena = HeapArena::new();
    let mut desc = sdram_descriptor();
    desc.size = 1000;
    let err = init_sdram(&mut port, &desc, &test_profile(), &mut arena).unwrap_err();
    assert_eq!(err, ConfigError::InvalidSize);
    // The later stages never ran: the unit is left disabled and the arena
    // untouched.
    assert_eq!(port.ctrl, 0);
    assert!(!port.fault_reporting);
    assert!(!arena.registered());
}
