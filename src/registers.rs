//! Local interrupt controller registers, in both of its programming models.

use vstd::prelude::*;

verus! {

/// Register number: task priority.
pub const IA32_X2APIC_TPR: u32 = 0x808;
/// Register number: end of interrupt.
pub const IA32_X2APIC_EOI: u32 = 0x80b;
/// Register number: spurious interrupt vector.
pub const IA32_X2APIC_SIVR: u32 = 0x80f;
/// Register number: error status.
pub const IA32_X2APIC_ESR: u32 = 0x828;
/// Register number: inter-processor interrupt command.
pub const IA32_X2APIC_ICR: u32 = 0x830;
/// Register number: local vector table, timer entry.
pub const IA32_X2APIC_LVT_TIMER: u32 = 0x832;
/// Register number: local vector table, thermal sensor entry.
pub const IA32_X2APIC_LVT_THERMAL: u32 = 0x833;
/// Register number: local vector table, performance monitoring entry.
pub const IA32_X2APIC_LVT_PMI: u32 = 0x834;
/// Register number: local vector table, LINT0 entry.
pub const IA32_X2APIC_LVT_LINT0: u32 = 0x835;
/// Register number: local vector table, LINT1 entry.
pub const IA32_X2APIC_LVT_LINT1: u32 = 0x836;
/// Register number: local vector table, error entry.
pub const IA32_X2APIC_LVT_ERROR: u32 = 0x837;
/// Register number: timer initial count.
pub const IA32_X2APIC_INIT_COUNT: u32 = 0x838;
/// Register number: timer current count.
pub const IA32_X2APIC_CUR_COUNT: u32 = 0x839;
/// Register number: timer divide configuration.
pub const IA32_X2APIC_DIV_CONF: u32 = 0x83e;
/// Model-specific register that holds the controller's base address and enable bits.
pub const IA32_APIC_BASE: u32 = 0x1b;

/// Byte offset of the high half of the command register in the mapped window.
pub const APIC_ICR2: u32 = 0x0310;

pub const APIC_DIV_CONF_DIVIDE_BY_128: u64 = 0b1010;
pub const APIC_EOI_ACK: u64 = 0;
pub const APIC_ICR_DELIVERY_MODE_FIXED: u64 = 0x000;
pub const APIC_ICR_DELIVERY_MODE_INIT: u64 = 0x500;
pub const APIC_ICR_DELIVERY_MODE_STARTUP: u64 = 0x600;
pub const APIC_ICR_DELIVERY_STATUS_PENDING: u32 = 0x1000;
pub const APIC_ICR_LEVEL_TRIGGERED: u64 = 0x8000;
pub const APIC_ICR_LEVEL_ASSERT: u64 = 0x4000;
pub const APIC_LVT_MASK: u64 = 0x10000;
pub const APIC_SIVR_ENABLED: u64 = 0x100;

/// Enable bit of the register-file model in `IA32_APIC_BASE`.
pub const X2APIC_ENABLE: u64 = 0x400;

/// Vector of the translation-cache invalidation interrupt.
pub const TLB_FLUSH_INTERRUPT_NUMBER: u8 = 112;
/// Vector of the wake-up interrupt.
pub const WAKEUP_INTERRUPT_NUMBER: u8 = 121;
/// Vector of the one-shot timer interrupt.
pub const TIMER_INTERRUPT_NUMBER: u8 = 123;
/// Vector of the controller's error interrupt.
pub const ERROR_INTERRUPT_NUMBER: u8 = 126;
/// Vector of the spurious interrupt.
pub const SPURIOUS_INTERRUPT_NUMBER: u8 = 127;

/// How the local interrupt controller is programmed. Chosen once, never changed.
#[derive(Clone, Copy, Debug, PartialEq, Eq, Structural)]
pub enum ControllerMode {
    /// Registers are model-specific registers, addressed by number.
    RegisterFile,
    /// Registers live in one mapped page, addressed by byte offset.
    MemoryMapped,
}

/// One access to the hardware or to a boot collaborator, performed by the caller.
#[derive(Clone, Copy, Debug, PartialEq, Eq, Structural)]
#[allow(inconsistent_fields)]
pub enum Op {
    /// Write a model-specific register.
    WriteMsr { msr: u32, value: u64 },
    /// Volatile 32-bit store into the local controller's mapped page.
    LapicStore { offset: u32, value: u32 },
    /// Poll the 32-bit word at `offset` of the local controller's mapped page until
    /// [`icr_delivery_pending`] is false of it.
    LapicAwaitIdle { offset: u32 },
    /// Volatile 32-bit store into the external router's mapped page.
    IoApicStore { offset: u32, value: u32 },
    /// Busy-wait for the given number of microseconds.
    Delay { micros: u64 },
    /// Allocate a stack and per-core data for the processor with this id and
    /// publish both addresses in the boot hand-off cells.
    PublishHandoff { apic_id: u8 },
    /// Record the current value of the online-processor counter.
    SnapshotOnline,
    /// Spin until the online-processor counter differs from the recorded value.
    AwaitOnlineChange,
    /// Full memory barrier.
    MemoryFence,
}

/// Where a register is read from.
#[derive(Clone, Copy, Debug, PartialEq, Eq, Structural)]
pub enum ReadLocation {
    /// The low 32 bits of this model-specific register.
    Msr { msr: u32 },
    /// The 32-bit word at this offset of the local controller's mapped page.
    Lapic { offset: u32 },
}

/// Byte offset, in the mapped page, of the register with this number.
pub open spec fn xapic_offset(msr: u32) -> u32 {
    (msr & 0xff) << 4u32
}

/// The high word of the command register in the mapped model: the destination,
/// moved from bits 32..39 of the 64-bit command to bits 24..31.
pub open spec fn icr_high_word(value: u64) -> u32 {
    ((value >> 8u64) & 0xff00_0000u64) as u32
}

/// What writing `value` to register `msr` does in the given mode.
pub open spec fn spec_local_apic_write(mode: ControllerMode, msr: u32, value: u64) -> Seq<Op> {
    match mode {
        ControllerMode::RegisterFile => seq![Op::WriteMsr { msr, value }],
        ControllerMode::MemoryMapped => if msr == IA32_X2APIC_ICR {
            seq![
                Op::LapicStore { offset: APIC_ICR2, value: icr_high_word(value) },
                Op::LapicStore { offset: xapic_offset(msr), value: value as u32 },
                Op::LapicAwaitIdle { offset: xapic_offset(msr) },
            ]
        } else {
            seq![Op::LapicStore { offset: xapic_offset(msr), value: value as u32 }]
        },
    }
}

/// Whether an operation blocks on the hardware's delivery status bit.
pub open spec fn is_status_wait(op: Op) -> bool {
    op is LapicAwaitIdle
}

/// Byte offset, in the mapped page, of the register with number `x2apic_msr`.
pub fn translate_x2apic_msr_to_xapic_address(x2apic_msr: u32) -> (r: u32)
    ensures
        r == xapic_offset(x2apic_msr),
        r < 4096,
{
    let r = (x2apic_msr & 0xff) << 4u32;
    assert((x2apic_msr & 0xff) << 4u32 < 4096) by (bit_vector);
    r
}

/// Appends to `out` the accesses that write `value` to register `msr`.
///
/// In the mapped model the command register is split in two words, the high one
/// first, and the write then waits for the delivery status bit to clear.
pub fn local_apic_write(mode: ControllerMode, msr: u32, value: u64, out: &mut Vec<Op>)
    ensures
        final(out)@ == old(out)@ + spec_local_apic_write(mode, msr, value),
{
    match mode {
        ControllerMode::RegisterFile => {
            out.push(Op::WriteMsr { msr, value });
        },
        ControllerMode::MemoryMapped => {
            let offset = translate_x2apic_msr_to_xapic_address(msr);
            if msr == IA32_X2APIC_ICR {
                let destination = ((value >> 8u64) & 0xff00_0000u64) as u32;
                out.push(Op::LapicStore { offset: APIC_ICR2, value: destination });
            }
            out.push(Op::LapicStore { offset, value: value as u32 });
            if msr == IA32_X2APIC_ICR {
                out.push(Op::LapicAwaitIdle { offset });
            }
        },
    }
    proof {
        assert(final(out)@ =~= old(out)@ + spec_local_apic_write(mode, msr, value));
    }
}

/// Where register `msr` is read from in the given mode.
pub fn local_apic_read(mode: ControllerMode, msr: u32) -> (r: ReadLocation)
    ensures
        r == (match mode {
            ControllerMode::RegisterFile => ReadLocation::Msr { msr },
            ControllerMode::MemoryMapped => ReadLocation::Lapic { offset: xapic_offset(msr) },
        }),
{
    match mode {
        ControllerMode::RegisterFile => ReadLocation::Msr { msr },
        ControllerMode::MemoryMapped => ReadLocation::Lapic {
            offset: translate_x2apic_msr_to_xapic_address(msr),
        },
    }
}

/// Whether the low command word still reports a message as pending delivery.
pub fn icr_delivery_pending(status: u32) -> (r: bool)
    ensures
        r == (status & APIC_ICR_DELIVERY_STATUS_PENDING != 0),
{
    status & APIC_ICR_DELIVERY_STATUS_PENDING != 0
}

/// The mode the controller is driven in: the register-file model wherever the
/// processor offers it.
pub fn select_mode(supports_x2apic: bool) -> (r: ControllerMode)
    ensures
        r == (if supports_x2apic { ControllerMode::RegisterFile } else { ControllerMode::MemoryMapped }),
{
    if supports_x2apic {
        ControllerMode::RegisterFile
    } else {
        ControllerMode::MemoryMapped
    }
}

/// Appends the switch to the register-file model where the processor offers it:
/// `IA32_APIC_BASE`, as read (`apic_base`), with the enable bit set.
pub fn init_x2apic(supports_x2apic: bool, apic_base: u64, out: &mut Vec<Op>)
    ensures
        final(out)@ == old(out)@ + (if supports_x2apic {
            seq![Op::WriteMsr { msr: IA32_APIC_BASE, value: apic_base | X2APIC_ENABLE }]
        } else {
            Seq::<Op>::empty()
        }),
{
    if supports_x2apic {
        out.push(Op::WriteMsr { msr: IA32_APIC_BASE, value: apic_base | X2APIC_ENABLE });
    }
    proof {
        if !supports_x2apic {
            assert(final(out)@ =~= old(out)@ + Seq::<Op>::empty());
        }
    }
}

/// A command-register write in the mapped model returns only after the delivery
/// status bit has cleared: its last access is the wait on that bit. In the
/// register-file model no write ever waits on it.
pub proof fn lemma_command_write_blocks_only_when_mapped(msr: u32, value: u64)
    ensures
        ({
            let ops = spec_local_apic_write(ControllerMode::MemoryMapped, IA32_X2APIC_ICR, value);
            &&& is_status_wait(ops.last())
            &&& ops.last() == Op::LapicAwaitIdle { offset: xapic_offset(IA32_X2APIC_ICR) }
            &&& forall|i: int| 0 <= i < ops.len() - 1 ==> !is_status_wait(#[trigger] ops[i])
        }),
        forall|i: int|
            0 <= i < spec_local_apic_write(ControllerMode::RegisterFile, msr, value).len()
                ==> !is_status_wait(
                #[trigger] spec_local_apic_write(ControllerMode::RegisterFile, msr, value)[i],
            ),
{
}

} // verus!
