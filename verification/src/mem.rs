//! The boot-time external memory sequence: protection region, controller
//! bring-up, heap arena handoff — strictly ordered, one-time, before any
//! task is scheduled.

use crate::controller::{bring_up, bring_up_plan, ChipProfile, ControllerStep};
use crate::heap::HeapArena;
use crate::mpu::{abort_commands, configure_commands, configure_region, MpuPort, CTRL_ENABLE,
    CTRL_PRIVDEFENA};
use crate::region::{encodable_region_size, region_attribute_word, spec_size_encoding,
    valid_region_size, ConfigError, RegionDescriptor};
use vstd::prelude::*;

verus! {

/// Brings the external memory online: programs the protection region for
/// `desc`, plans the controller bring-up from `profile` for exactly that
/// window, and hands the realized window to the heap arena — in that strict
/// order, each stage only after the one before it succeeded.
///
/// On success the port's command log holds the complete region
/// configuration for the hardware shell to replay, and the returned steps
/// are the controller bring-up to replay after it. A size that cannot be
/// mapped is fatal: the error is returned, the protection unit is left
/// disabled, and the arena stays untouched for good.
pub fn init_sdram(
    port: &mut MpuPort,
    desc: &RegionDescriptor,
    profile: &ChipProfile,
    arena: &mut HeapArena,
) -> (r: Result<Vec<ControllerStep>, ConfigError>)
    requires
        !old(arena).spec_registered(),
    ensures
        r is Ok <==> encodable_region_size(desc.size),
        r matches Ok(steps) ==> {
            &&& steps@ == bring_up_plan(*profile)
            &&& final(arena).spec_registered()
            &&& final(arena).spec_base() == desc.base_address
            &&& final(arena).spec_size() == desc.size
            &&& final(port).ctrl == CTRL_ENABLE | CTRL_PRIVDEFENA
            &&& final(port).fault_reporting
            &&& final(port).region_base == desc.base_address
            &&& final(port).region_attributes == region_attribute_word(
                *desc,
                spec_size_encoding(desc.size),
            )
            &&& final(port).log@ == old(port).log@ + configure_commands(
                desc.base_address,
                final(port).region_attributes,
            )
        },
        r matches Err(e) ==> {
            &&& (e == ConfigError::InvalidSize <==> !valid_region_size(desc.size))
            &&& (e == ConfigError::UnsupportedSize <==> valid_region_size(desc.size))
            &&& !final(arena).spec_registered()
            &&& final(port).ctrl == 0
            &&& !final(port).fault_reporting
            &&& final(port).log@ == old(port).log@ + abort_commands()
        },
{
    let token = match configure_region(port, desc) {
        Ok(token) => token,
        Err(e) => {
            return Err(e);
        },
    };
    let (session, steps) = bring_up(&token, profile);
    arena.register(session);
    Ok(steps)
}

} // verus!
