//! The memory controller initializer: drives the external memory device's
//! bring-up sequence from a chip timing profile and hands the realized
//! address window on as a one-shot session.
//!
//! The device commands themselves are hardware writes; here they are an
//! ordered step plan that a hardware shell replays, pacing the waits with its
//! delay source. The order of the steps and the programmed values are
//! verified; the shell contributes no decision of its own.

use crate::mpu::RegionReady;
use crate::region::ConfigError;
use vstd::prelude::*;

verus! {

/// The timing profile of the attached memory device: the values its
/// datasheet mandates for the bring-up sequence.
#[derive(Clone, Copy, Debug, PartialEq, Eq, Structural)]
pub struct ChipProfile {
    /// The value loaded into the device's mode register.
    pub mode_register: u16,
    /// The refresh counter interval programmed into the controller.
    pub refresh_interval: u16,
    /// The mandated power-up wait after enabling the device clock, in
    /// microseconds.
    pub power_up_delay_us: u32,
    /// How many auto-refresh commands the device demands before the mode
    /// register may be loaded.
    pub auto_refresh_count: u8,
}

/// One step of the controller bring-up, in the order the device demands.
#[derive(Clone, Copy, Debug, PartialEq, Eq, Structural)]
pub enum ControllerStep {
    /// Enable the device clock.
    EnableClock,
    /// Block for the given number of microseconds on the delay source.
    Wait(u32),
    /// Precharge all banks.
    PrechargeAll,
    /// Issue one auto-refresh command.
    AutoRefresh,
    /// Load the device mode register with the given value.
    LoadModeRegister(u16),
    /// Program the controller's refresh counter interval.
    SetRefreshInterval(u16),
}

/// An initialized controller session: the raw usable address window.
/// Created once at boot by `bring_up` and consumed once by the heap arena
/// registrar; it is deliberately neither copyable nor clonable, so moving it
/// transfers the window, never sharing it.
#[derive(Debug, PartialEq, Eq, Structural)]
pub struct ControllerSession {
    pub base_address: u32,
    pub size: u64,
    pub initialized: bool,
}

/// The exact step sequence of the device bring-up: clock on, the mandated
/// power-up wait, precharge all banks, the demanded number of auto-refresh
/// commands, the mode register load, and the refresh counter.
pub open spec fn bring_up_plan(profile: ChipProfile) -> Seq<ControllerStep> {
    seq![
        ControllerStep::EnableClock,
        ControllerStep::Wait(profile.power_up_delay_us),
        ControllerStep::PrechargeAll,
    ] + Seq::new(profile.auto_refresh_count as nat, |i: int| ControllerStep::AutoRefresh) + seq![
        ControllerStep::LoadModeRegister(profile.mode_register),
        ControllerStep::SetRefreshInterval(profile.refresh_interval),
    ]
}

/// Plans the bring-up of the memory controller for the window certified by
/// `region` — demanding the token enforces that the protection unit mapped
/// the window first — and returns the initialized session together with the
/// ordered step plan for the hardware shell.
pub fn bring_up(region: &RegionReady, profile: &ChipProfile) -> (r: (
    ControllerSession,
    Vec<ControllerStep>,
))
    ensures
        r.0.base_address == region.spec_base(),
        r.0.size == region.spec_size(),
        r.0.initialized,
        r.1@ == bring_up_plan(*profile),
{
    let mut steps: Vec<ControllerStep> = Vec::new();
    steps.push(ControllerStep::EnableClock);
    steps.push(ControllerStep::Wait(profile.power_up_delay_us));
    steps.push(ControllerStep::PrechargeAll);
    let mut issued: u8 = 0;
    while issued < profile.auto_refresh_count
        invariant
            issued <= profile.auto_refresh_count,
            steps@ == seq![
                ControllerStep::EnableClock,
                ControllerStep::Wait(profile.power_up_delay_us),
                ControllerStep::PrechargeAll,
            ] + Seq::new(issued as nat, |i: int| ControllerStep::AutoRefresh),
        decreases profile.auto_refresh_count - issued,
    {
        steps.push(ControllerStep::AutoRefresh);
        issued = issued + 1;
        proof {
            assert(steps@ =~= seq![
                ControllerStep::EnableClock,
                ControllerStep::Wait(profile.power_up_delay_us),
                ControllerStep::PrechargeAll,
            ] + Seq::new(issued as nat, |i: int| ControllerStep::AutoRefresh));
        }
    }
    steps.push(ControllerStep::LoadModeRegister(profile.mode_register));
    steps.push(ControllerStep::SetRefreshInterval(profile.refresh_interval));
    proof {
        assert(steps@ =~= bring_up_plan(*profile));
    }
    let session = ControllerSession {
        base_address: region.base(),
        size: region.size(),
        initialized: true,
    };
    (session, steps)
}

/// The fixed probe pattern the optional self-test writes at the start of the
/// freshly mapped window.
pub open spec fn spec_probe_pattern() -> Seq<u32> {
    seq![1u32, 2u32, 3u32, 4u32]
}

/// The probe pattern as a vector, for the shell that writes it into the raw
/// window.
pub fn probe_pattern() -> (p: Vec<u32>)
    ensures
        p@ == spec_probe_pattern(),
{
    let mut p: Vec<u32> = Vec::new();
    p.push(1);
    p.push(2);
    p.push(3);
    p.push(4);
    proof {
        assert(p@ =~= spec_probe_pattern());
    }
    p
}

/// Judges what the self-test read back from external memory. A mismatch is
/// fatal — it means the controller or region mapping is wrong, not a
/// transient fault — so it is reported as `MemoryVerifyFailed`, never
/// retried.
pub fn verify_readback(readback: &Vec<u32>) -> (r: Result<(), ConfigError>)
    ensures
        r is Ok <==> readback@.len() >= 4 && (forall|i: int|
            0 <= i < 4 ==> readback@[i] == spec_probe_pattern()[i]),
        r is Err ==> r == Err::<(), ConfigError>(ConfigError::MemoryVerifyFailed),
{
    if readback.len() < 4 {
        return Err(ConfigError::MemoryVerifyFailed);
    }
    let expected = probe_pattern();
    let mut i: usize = 0;
    while i < 4
        invariant
            i <= 4,
            readback@.len() >= 4,
            expected@ == spec_probe_pattern(),
            forall|j: int| 0 <= j < i ==> readback@[j] == spec_probe_pattern()[j],
        decreases 4 - i,
    {
        if readback[i] != expected[i] {
            return Err(ConfigError::MemoryVerifyFailed);
        }
        i = i + 1;
    }
    Ok(())
}

} // verus!
