//! The protection unit configurator: programs one hardware-protected memory
//! region from a descriptor, with strict barrier ordering.
//!
//! The unit's registers are modelled as a typed register window whose command
//! log records every operation in order. A hardware shell replays the log
//! against the real registers; the order, the programmed values and the final
//! register state are verified here.

use crate::region::{
    access_bits, cache_bit, compose_attribute_word, encodable_region_size, encode_region_size,
    lemma_attribute_word_round_trip, lemma_size_encoding_of_power, region_attribute_word,
    spec_size_encoding, valid_region_size, word_access_bits, word_cache_bit, word_enabled,
    word_size_encoding, word_write_bit, write_bit, ConfigError, RegionDescriptor,
};
use vstd::arithmetic::power2::pow2;
use vstd::prelude::*;

verus! {

/// Unit enable bit of the control register.
pub const CTRL_ENABLE: u32 = 0x1;

/// Default background memory map for privileged access.
pub const CTRL_PRIVDEFENA: u32 = 0x4;

/// The region number this configurator programs.
pub const REGION_NUMBER: u32 = 0;

/// One operation on the protection unit, in the order the hardware must
/// perform it.
#[derive(Clone, Copy, Debug, PartialEq, Eq, Structural)]
pub enum MpuCommand {
    /// Data memory barrier: outstanding transfers complete first.
    BarrierDataMemory,
    /// Data synchronization barrier: memory effects settle before the next
    /// instruction.
    BarrierDataSync,
    /// Instruction synchronization barrier: no later instruction runs under
    /// stale region state.
    BarrierInstrSync,
    /// Clear the memory-fault status enable bit, so the temporarily invalid
    /// region state cannot itself raise a fault.
    FaultReportingOff,
    /// Set the memory-fault status enable bit again.
    FaultReportingOn,
    /// Write the unit control register.
    WriteControl(u32),
    /// Select the region number to program.
    WriteRegionNumber(u32),
    /// Write the selected region's base address register.
    WriteRegionBase(u32),
    /// Write the selected region's attribute word register.
    WriteRegionAttributes(u32),
}

/// The register window of the protection unit: the modelled register values,
/// plus the log of commands a hardware shell replays in order.
pub struct MpuPort {
    pub ctrl: u32,
    pub region_number: u32,
    pub region_base: u32,
    pub region_attributes: u32,
    /// The memory-fault status enable bit of the fault control register.
    pub fault_reporting: bool,
    pub log: Vec<MpuCommand>,
}

/// True when the register fields of `a` and `b` agree (the command logs may
/// differ).
pub open spec fn same_registers(a: MpuPort, b: MpuPort) -> bool {
    &&& a.ctrl == b.ctrl
    &&& a.region_number == b.region_number
    &&& a.region_base == b.region_base
    &&& a.region_attributes == b.region_attributes
    &&& a.fault_reporting == b.fault_reporting
}

impl MpuPort {
    /// A power-on register window: unit disabled, fault reporting off,
    /// nothing programmed, empty command log.
    pub fn new() -> (port: MpuPort)
        ensures
            port.ctrl == 0,
            port.region_number == 0,
            port.region_base == 0,
            port.region_attributes == 0,
            !port.fault_reporting,
            port.log@ == Seq::<MpuCommand>::empty(),
    {
        MpuPort {
            ctrl: 0,
            region_number: 0,
            region_base: 0,
            region_attributes: 0,
            fault_reporting: false,
            log: Vec::new(),
        }
    }

    /// Issues a data memory barrier. Barriers change no register.
    fn barrier_data_memory(&mut self)
        ensures
            same_registers(*final(self), *old(self)),
            final(self).log@ == old(self).log@.push(MpuCommand::BarrierDataMemory),
    {
        self.log.push(MpuCommand::BarrierDataMemory);
    }

    /// Issues a data synchronization barrier.
    fn barrier_data_sync(&mut self)
        ensures
            same_registers(*final(self), *old(self)),
            final(self).log@ == old(self).log@.push(MpuCommand::BarrierDataSync),
    {
        self.log.push(MpuCommand::BarrierDataSync);
    }

    /// Issues an instruction synchronization barrier.
    fn barrier_instr_sync(&mut self)
        ensures
            same_registers(*final(self), *old(self)),
            final(self).log@ == old(self).log@.push(MpuCommand::BarrierInstrSync),
    {
        self.log.push(MpuCommand::BarrierInstrSync);
    }

    /// Clears the memory-fault status enable bit.
    fn fault_reporting_off(&mut self)
        ensures
            final(self).fault_reporting == false,
            final(self).ctrl == old(self).ctrl,
            final(self).region_number == old(self).region_number,
            final(self).region_base == old(self).region_base,
            final(self).region_attributes == old(self).region_attributes,
            final(self).log@ == old(self).log@.push(MpuCommand::FaultReportingOff),
    {
        self.fault_reporting = false;
        self.log.push(MpuCommand::FaultReportingOff);
    }

    /// Sets the memory-fault status enable bit.
    fn fault_reporting_on(&mut self)
        ensures
            final(self).fault_reporting == true,
            final(self).ctrl == old(self).ctrl,
            final(self).region_number == old(self).region_number,
            final(self).region_base == old(self).region_base,
            final(self).region_attributes == old(self).region_attributes,
            final(self).log@ == old(self).log@.push(MpuCommand::FaultReportingOn),
    {
        self.fault_reporting = true;
        self.log.push(MpuCommand::FaultReportingOn);
    }

    /// Writes the unit control register.
    fn write_control(&mut self, value: u32)
        ensures
            final(self).ctrl == value,
            final(self).fault_reporting == old(self).fault_reporting,
            final(self).region_number == old(self).region_number,
            final(self).region_base == old(self).region_base,
            final(self).region_attributes == old(self).region_attributes,
            final(self).log@ == old(self).log@.push(MpuCommand::WriteControl(value)),
    {
        self.ctrl = value;
        self.log.push(MpuCommand::WriteControl(value));
    }

    /// Selects the region number to program.
    fn write_region_number(&mut self, value: u32)
        ensures
            final(self).region_number == value,
            final(self).ctrl == old(self).ctrl,
            final(self).fault_reporting == old(self).fault_reporting,
            final(self).region_base == old(self).region_base,
            final(self).region_attributes == old(self).region_attributes,
            final(self).log@ == old(self).log@.push(MpuCommand::WriteRegionNumber(value)),
    {
        self.region_number = value;
        self.log.push(MpuCommand::WriteRegionNumber(value));
    }

    /// Writes the selected region's base address register.
    fn write_region_base(&mut self, value: u32)
        ensures
            final(self).region_base == value,
            final(self).ctrl == old(self).ctrl,
            final(self).fault_reporting == old(self).fault_reporting,
            final(self).region_number == old(self).region_number,
            final(self).region_attributes == old(self).region_attributes,
            final(self).log@ == old(self).log@.push(MpuCommand::WriteRegionBase(value)),
    {
        self.region_base = value;
        self.log.push(MpuCommand::WriteRegionBase(value));
    }

    /// Writes the selected region's attribute word register.
    fn write_region_attributes(&mut self, value: u32)
        ensures
            final(self).region_attributes == value,
            final(self).ctrl == old(self).ctrl,
            final(self).fault_reporting == old(self).fault_reporting,
            final(self).region_number == old(self).region_number,
            final(self).region_base == old(self).region_base,
            final(self).log@ == old(self).log@.push(MpuCommand::WriteRegionAttributes(value)),
    {
        self.region_attributes = value;
        self.log.push(MpuCommand::WriteRegionAttributes(value));
    }
}

/// Proof that a region has been mapped: produced only by a successful
/// `configure_region`, and demanded by the memory controller bring-up, so the
/// bring-up cannot run before the window it uses is protected.
#[derive(Debug)]
pub struct RegionReady {
    base: u32,
    size: u64,
}

impl RegionReady {
    /// The base address of the window this token certifies.
    pub closed spec fn spec_base(&self) -> u32 {
        self.base
    }

    /// The size of the window this token certifies.
    pub closed spec fn spec_size(&self) -> u64 {
        self.size
    }

    pub fn base(&self) -> (b: u32)
        ensures
            b == self.spec_base(),
    {
        self.base
    }

    pub fn size(&self) -> (s: u64)
        ensures
            s == self.spec_size(),
    {
        self.size
    }
}

/// The exact command sequence of a successful region configuration: barrier,
/// fault reporting off, unit disabled, the three region registers in order,
/// unit re-enabled with the default background map, fault reporting on, and
/// the two closing barriers.
pub open spec fn configure_commands(base: u32, word: u32) -> Seq<MpuCommand> {
    seq![
        MpuCommand::BarrierDataMemory,
        MpuCommand::FaultReportingOff,
        MpuCommand::WriteControl(0),
        MpuCommand::WriteRegionNumber(REGION_NUMBER),
        MpuCommand::WriteRegionBase(base),
        MpuCommand::WriteRegionAttributes(word),
        MpuCommand::WriteControl(CTRL_ENABLE | CTRL_PRIVDEFENA),
        MpuCommand::FaultReportingOn,
        MpuCommand::BarrierDataSync,
        MpuCommand::BarrierInstrSync,
    ]
}

/// The command sequence of a configuration that was abandoned because the
/// size validation failed: the unit is left disabled and no region register
/// is touched.
pub open spec fn abort_commands() -> Seq<MpuCommand> {
    seq![MpuCommand::BarrierDataMemory, MpuCommand::FaultReportingOff, MpuCommand::WriteControl(0)]
}

/// Programs region 0 of the protection unit from `desc`, in the strict order
/// the hardware demands. Succeeds exactly on descriptors whose size has an
/// encoding; an invalid or unencodable size is a fatal configuration error,
/// reported before any region register is written.
pub fn configure_region(port: &mut MpuPort, desc: &RegionDescriptor) -> (r: Result<
    RegionReady,
    ConfigError,
>)
    ensures
        r is Ok <==> encodable_region_size(desc.size),
        r matches Ok(token) ==> {
            &&& token.spec_base() == desc.base_address
            &&& token.spec_size() == desc.size
            &&& final(port).ctrl == CTRL_ENABLE | CTRL_PRIVDEFENA
            &&& final(port).fault_reporting
            &&& final(port).region_number == REGION_NUMBER
            &&& final(port).region_base == desc.base_address
            &&& final(port).region_attributes == region_attribute_word(
                *desc,
                spec_size_encoding(desc.size),
            )
            &&& spec_size_encoding(desc.size) < 32
            &&& final(port).log@ == old(port).log@ + configure_commands(
                desc.base_address,
                final(port).region_attributes,
            )
        },
        r matches Err(e) ==> {
            &&& (e == ConfigError::InvalidSize <==> !valid_region_size(desc.size))
            &&& (e == ConfigError::UnsupportedSize <==> valid_region_size(desc.size))
            &&& final(port).ctrl == 0
            &&& !final(port).fault_reporting
            &&& final(port).region_number == old(port).region_number
            &&& final(port).region_base == old(port).region_base
            &&& final(port).region_attributes == old(port).region_attributes
            &&& final(port).log@ == old(port).log@ + abort_commands()
        },
{
    port.barrier_data_memory();
    port.fault_reporting_off();
    port.write_control(0);
    let enc = match encode_region_size(desc.size) {
        Ok(enc) => enc,
        Err(e) => {
            return Err(e);
        },
    };
    let word = compose_attribute_word(desc, enc);
    port.write_region_number(REGION_NUMBER);
    port.write_region_base(desc.base_address);
    port.write_region_attributes(word);
    port.write_control(CTRL_ENABLE | CTRL_PRIVDEFENA);
    port.fault_reporting_on();
    port.barrier_data_sync();
    port.barrier_instr_sync();
    Ok(RegionReady { base: desc.base_address, size: desc.size })
}

/// Write-then-read consistency: the attribute word a successful
/// `configure_region` leaves in the register window reads back field by
/// field — the access, cacheable, write-policy and size-encoding bits are
/// the descriptor's own, and the region is enabled.
pub proof fn lemma_configured_region_reads_back(port: MpuPort, desc: RegionDescriptor)
    requires
        encodable_region_size(desc.size),
        port.region_attributes == region_attribute_word(desc, spec_size_encoding(desc.size)),
    ensures
        word_access_bits(port.region_attributes) == access_bits(desc.access_policy),
        word_cache_bit(port.region_attributes) == cache_bit(desc.cacheable),
        word_write_bit(port.region_attributes) == write_bit(desc.write_policy),
        word_size_encoding(port.region_attributes) == spec_size_encoding(desc.size),
        word_enabled(port.region_attributes),
{
    let n = choose|n: nat| 5 <= n <= 31 && desc.size == pow2(n);
    assert(5 <= n <= 31 && desc.size == pow2(n));
    lemma_size_encoding_of_power(desc.size, n);
    lemma_attribute_word_round_trip(desc, spec_size_encoding(desc.size));
}

} // verus!
