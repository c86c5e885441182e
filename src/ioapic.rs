//! The external interrupt router: index/data register access and redirection entries.

use vstd::prelude::*;
use crate::registers::Op;

verus! {

/// Register index: identification.
pub const IOAPIC_REG_ID: u32 = 0x0000;
/// Register index: version and number of redirection entries.
pub const IOAPIC_REG_VER: u32 = 0x0001;
/// Register index of the first redirection entry.
pub const IOAPIC_REG_TABLE: u32 = 0x0010;
/// Byte offset of the index register in the router's page.
pub const IOAPIC_INDEX_OFFSET: u32 = 0x00;
/// Byte offset of the data register in the router's page.
pub const IOAPIC_DATA_OFFSET: u32 = 0x10;
/// Highest line that the kernel routes, whatever the router reports.
pub const IOAPIC_MAX_ROUTED_IRQ: u32 = 24;
/// Mask bit of a redirection entry's low word.
pub const IOAPIC_REDIRECTION_MASKED: u32 = 0x10000;

/// The router line index is above the kernel's ceiling.
#[derive(Clone, Copy, Debug, PartialEq, Eq, Structural)]
pub struct OutOfRange {
    pub irq: u32,
}

/// Writing `value` to router register `reg`: the index first, then the data.
pub open spec fn spec_ioapic_write(reg: u32, value: u32) -> Seq<Op> {
    seq![
        Op::IoApicStore { offset: IOAPIC_INDEX_OFFSET, value: reg },
        Op::IoApicStore { offset: IOAPIC_DATA_OFFSET, value },
    ]
}

/// Low word of the redirection entry of line `irq`: its vector, and the mask bit
/// when the line is turned off.
pub open spec fn redirection_low(irq: u32, masked: bool) -> u32 {
    if masked {
        ((0x20 + irq) as u32) | IOAPIC_REDIRECTION_MASKED
    } else {
        (0x20 + irq) as u32
    }
}

/// High word of a redirection entry: the destination processor in bits 24..31.
pub open spec fn redirection_high(apicid: u32) -> u32 {
    apicid << 24u32
}

/// The two writes that program line `irq` (at most the ceiling) towards `apicid`.
pub open spec fn spec_route(irq: u32, apicid: u32, masked: bool) -> Seq<Op> {
    spec_ioapic_write((IOAPIC_REG_TABLE + 2 * irq) as u32, redirection_low(irq, masked))
        + spec_ioapic_write((IOAPIC_REG_TABLE + 2 * irq + 1) as u32, redirection_high(apicid))
}

/// Lines `0..n` of the initial routing, each towards processor 0: line 2 turned
/// off, every other line turned on, lines above the ceiling left alone.
pub open spec fn spec_init_routes(n: nat) -> Seq<Op>
    decreases n,
{
    if n == 0 {
        seq![]
    } else {
        let i = (n - 1) as u32;
        let line = if i > IOAPIC_MAX_ROUTED_IRQ {
            seq![]
        } else {
            spec_route(i, 0, i == 2)
        };
        spec_init_routes((n - 1) as nat) + line
    }
}

/// Appends to `out` the accesses that write `value` to router register `reg`.
pub fn ioapic_write(reg: u32, value: u32, out: &mut Vec<Op>)
    ensures
        final(out)@ == old(out)@ + spec_ioapic_write(reg, value),
{
    out.push(Op::IoApicStore { offset: IOAPIC_INDEX_OFFSET, value: reg });
    out.push(Op::IoApicStore { offset: IOAPIC_DATA_OFFSET, value });
    proof {
        assert(final(out)@ =~= old(out)@ + spec_ioapic_write(reg, value));
    }
}

/// The access that selects router register `reg`; its value is then read at
/// [`IOAPIC_DATA_OFFSET`].
pub fn ioapic_read(reg: u32) -> (r: Op)
    ensures
        r == (Op::IoApicStore { offset: IOAPIC_INDEX_OFFSET, value: reg }),
{
    Op::IoApicStore { offset: IOAPIC_INDEX_OFFSET, value: reg }
}

/// The router's version, from the value of its version register.
pub fn ioapic_version(version_register: u32) -> (r: u32)
    ensures
        r == version_register & 0xff,
{
    version_register & 0xff
}

/// The index of the router's last redirection entry (its line count minus one),
/// from the value of its version register.
pub fn ioapic_max_redirection_entry(version_register: u32) -> (r: u8)
    ensures
        r == (version_register >> 16u32) & 0xff,
{
    let r = ((version_register >> 16u32) & 0xff) as u8;
    assert((version_register >> 16u32) & 0xff <= 0xff) by (bit_vector);
    r
}

fn route(irq: u32, apicid: u32, masked: bool, out: &mut Vec<Op>)
    requires
        irq <= IOAPIC_MAX_ROUTED_IRQ,
    ensures
        final(out)@ == old(out)@ + spec_route(irq, apicid, masked),
{
    let off = irq * 2;
    let ioredirect_upper: u32 = apicid << 24u32;
    let ioredirect_lower: u32 = if masked {
        (0x20 + irq) | IOAPIC_REDIRECTION_MASKED
    } else {
        0x20 + irq
    };
    ioapic_write(IOAPIC_REG_TABLE + off, ioredirect_lower, out);
    ioapic_write(IOAPIC_REG_TABLE + 1 + off, ioredirect_upper, out);
    proof {
        assert(final(out)@ =~= old(out)@ + spec_route(irq, apicid, masked));
    }
}

/// Routes line `irq` unmasked to vector `0x20 + irq` on processor `apicid`.
/// Lines above 24 are refused and nothing is written.
pub fn ioapic_inton(irq: u8, apicid: u8, out: &mut Vec<Op>) -> (r: Result<(), OutOfRange>)
    ensures
        irq > 24 ==> r == Err::<(), OutOfRange>(OutOfRange { irq: irq as u32 })
            && final(out)@ == old(out)@,
        irq <= 24 ==> r is Ok && final(out)@ == old(out)@ + spec_route(
            irq as u32,
            apicid as u32,
            false,
        ),
{
    if irq as u32 > IOAPIC_MAX_ROUTED_IRQ {
        return Err(OutOfRange { irq: irq as u32 });
    }
    route(irq as u32, apicid as u32, false, out);
    Ok(())
}

/// Programs line `irq` like [`ioapic_inton`], with the mask bit set.
/// Lines above 24 are refused and nothing is written.
pub fn ioapic_intoff(irq: u32, apicid: u32, out: &mut Vec<Op>) -> (r: Result<(), OutOfRange>)
    ensures
        irq > 24 ==> r == Err::<(), OutOfRange>(OutOfRange { irq }) && final(out)@ == old(out)@,
        irq <= 24 ==> r is Ok && final(out)@ == old(out)@ + spec_route(irq, apicid, true),
{
    if irq > IOAPIC_MAX_ROUTED_IRQ {
        return Err(OutOfRange { irq });
    }
    route(irq, apicid, true, out);
    Ok(())
}

/// Appends the initial routing of lines `0..=max_redirection_entry` towards
/// processor 0. Line 2 once carried a superseded timer and is turned off.
pub fn init_ioapic(max_redirection_entry: u8, out: &mut Vec<Op>)
    ensures
        final(out)@ == old(out)@ + spec_init_routes(max_redirection_entry as nat + 1),
{
    let max_entry: u32 = max_redirection_entry as u32 + 1;
    let mut i: u32 = 0;
    while i < max_entry
        invariant
            i <= max_entry,
            max_entry == max_redirection_entry as u32 + 1,
            out@ == old(out)@ + spec_init_routes(i as nat),
        decreases max_entry - i,
    {
        if i == 2 {
            let _ = ioapic_intoff(2, 0, out);
        } else if i <= IOAPIC_MAX_ROUTED_IRQ {
            let _ = ioapic_inton(i as u8, 0, out);
        }
        proof {
            assert(out@ =~= old(out)@ + spec_init_routes((i + 1) as nat));
        }
        i = i + 1;
    }
}

/// Turning a line off writes what turning it on writes, to the same registers
/// and in the same order, except that the low word also has the mask bit (bit
/// 16), which turning it on leaves clear.
pub proof fn lemma_route_off_adds_mask(irq: u32, apicid: u32)
    requires
        irq <= IOAPIC_MAX_ROUTED_IRQ,
    ensures
        spec_route(irq, apicid, true).len() == spec_route(irq, apicid, false).len(),
        forall|k: int|
            0 <= k < spec_route(irq, apicid, true).len() && k != 1 ==> #[trigger] spec_route(
                irq,
                apicid,
                true,
            )[k] == spec_route(irq, apicid, false)[k],
        spec_route(irq, apicid, false)[1] == (Op::IoApicStore {
            offset: IOAPIC_DATA_OFFSET,
            value: (0x20 + irq) as u32,
        }),
        spec_route(irq, apicid, true)[1] == (Op::IoApicStore {
            offset: IOAPIC_DATA_OFFSET,
            value: redirection_low(irq, false) | IOAPIC_REDIRECTION_MASKED,
        }),
        redirection_low(irq, false) & IOAPIC_REDIRECTION_MASKED == 0,
{
    let v = (0x20 + irq) as u32;
    assert(v <= 0x38);
    assert(v <= 0x38 ==> v & 0x10000u32 == 0) by (bit_vector);
}

} // verus!
