//! What bring-up and inter-processor messages write, stated over the plain
//! sequence of accesses, and the laws that the bring-up order obeys.

use vstd::prelude::*;
use vstd::slice::slice_to_vec;
use crate::registers::{
    spec_local_apic_write, ControllerMode, Op, APIC_ICR_DELIVERY_MODE_FIXED,
    APIC_ICR_DELIVERY_MODE_INIT, APIC_ICR_DELIVERY_MODE_STARTUP, APIC_ICR_LEVEL_ASSERT,
    APIC_ICR_LEVEL_TRIGGERED, IA32_X2APIC_ICR, TLB_FLUSH_INTERRUPT_NUMBER,
};

verus! {

/// Physical (and identical virtual) address of the boot code page. A woken
/// processor starts in real mode and needs an address below 1 MiB.
pub const SMP_BOOT_CODE_ADDRESS: usize = 0x8000;
/// Byte offset in the boot code where the page-table root's address is patched in.
pub const SMP_BOOT_CODE_OFFSET_PML4: usize = 0x04;
/// Size of a page; the boot code must be smaller.
pub const BASE_PAGE_SIZE: usize = 4096;
/// Settle delay after the INIT assert message, in microseconds.
pub const INIT_ASSERT_DELAY_US: u64 = 200;
/// Settle delay after the INIT de-assert message, in microseconds.
pub const INIT_DEASSERT_DELAY_US: u64 = 10000;

/// The destination field of a 64-bit command for processor `id`.
pub open spec fn icr_destination(id: u64) -> u64 {
    id << 32u64
}

/// INIT, level-triggered, asserted.
pub open spec fn init_assert_command(id: u8) -> u64 {
    icr_destination(id as u64) | APIC_ICR_LEVEL_TRIGGERED | APIC_ICR_LEVEL_ASSERT
        | APIC_ICR_DELIVERY_MODE_INIT
}

/// INIT, level-triggered, de-asserted.
pub open spec fn init_deassert_command(id: u8) -> u64 {
    icr_destination(id as u64) | APIC_ICR_LEVEL_TRIGGERED | APIC_ICR_DELIVERY_MODE_INIT
}

/// STARTUP at the boot code page, given as a page number.
pub open spec fn startup_command(id: u8) -> u64 {
    icr_destination(id as u64) | APIC_ICR_DELIVERY_MODE_STARTUP | ((SMP_BOOT_CODE_ADDRESS as u64)
        >> 12u64)
}

/// A fixed-vector, edge-triggered message.
pub open spec fn fixed_command(id: u64, vector: u8) -> u64 {
    icr_destination(id) | APIC_ICR_LEVEL_ASSERT | APIC_ICR_DELIVERY_MODE_FIXED | (vector as u64)
}

/// The ids of `ids` other than `core_id`, in order.
pub open spec fn non_self_ids(ids: Seq<u8>, core_id: u8) -> Seq<u8>
    decreases ids.len(),
{
    if ids.len() == 0 {
        seq![]
    } else if ids.last() == core_id {
        non_self_ids(ids.drop_last(), core_id)
    } else {
        non_self_ids(ids.drop_last(), core_id).push(ids.last())
    }
}

/// Bringing up processor `id`: hand-off, snapshot of the online counter, the
/// three messages with their delays, and the wait for the counter to move.
pub open spec fn spec_boot_one(mode: ControllerMode, id: u8) -> Seq<Op> {
    seq![Op::PublishHandoff { apic_id: id }, Op::SnapshotOnline]
        + spec_local_apic_write(mode, IA32_X2APIC_ICR, init_assert_command(id))
        + seq![Op::Delay { micros: INIT_ASSERT_DELAY_US }]
        + spec_local_apic_write(mode, IA32_X2APIC_ICR, init_deassert_command(id))
        + seq![Op::Delay { micros: INIT_DEASSERT_DELAY_US }]
        + spec_local_apic_write(mode, IA32_X2APIC_ICR, startup_command(id))
        + seq![Op::AwaitOnlineChange]
}

/// Bringing up each of `targets`, one after the other.
pub open spec fn spec_boot_sequence(mode: ControllerMode, targets: Seq<u8>) -> Seq<Op>
    decreases targets.len(),
{
    if targets.len() == 0 {
        seq![]
    } else {
        spec_boot_sequence(mode, targets.drop_last()) + spec_boot_one(mode, targets.last())
    }
}

/// One fixed-vector message to each of `targets`, in order.
pub open spec fn spec_broadcast(mode: ControllerMode, targets: Seq<u8>, vector: u8) -> Seq<Op>
    decreases targets.len(),
{
    if targets.len() == 0 {
        seq![]
    } else {
        spec_broadcast(mode, targets.drop_last(), vector) + spec_local_apic_write(
            mode,
            IA32_X2APIC_ICR,
            fixed_command(targets.last() as u64, vector),
        )
    }
}

/// The invalidation broadcast: nothing while at most one processor is online;
/// otherwise a barrier, then one message to every other enrolled processor.
pub open spec fn spec_tlb_flush(mode: ControllerMode, ids: Seq<u8>, core_id: u8, cpu_online: u32) -> Seq<Op> {
    if cpu_online > 1 {
        seq![Op::MemoryFence] + spec_broadcast(mode, non_self_ids(ids, core_id), TLB_FLUSH_INTERRUPT_NUMBER)
    } else {
        seq![]
    }
}

/// Byte `k` (0..4) of the little-endian `u32` that the boot code receives.
pub open spec fn pml4_byte(pml4: u64, k: u32) -> u8 {
    ((pml4 as u32) >> (8 * k)) as u8
}

/// The boot code with the page-table root's low 32 bits patched in at offset 4.
pub open spec fn spec_patched_boot_code(code: Seq<u8>, pml4: u64) -> Seq<u8> {
    code.update(4, pml4_byte(pml4, 0)).update(5, pml4_byte(pml4, 1)).update(6, pml4_byte(pml4, 2)).update(
        7,
        pml4_byte(pml4, 3),
    )
}

/// The ids of the hand-offs in a sequence of accesses, in order.
pub open spec fn handoff_ids(ops: Seq<Op>) -> Seq<u8>
    decreases ops.len(),
{
    if ops.len() == 0 {
        seq![]
    } else {
        let tail = match ops.last() {
            Op::PublishHandoff { apic_id } => seq![apic_id],
            _ => seq![],
        };
        handoff_ids(ops.drop_last()) + tail
    }
}

/// No access of the sequence is a hand-off.
pub open spec fn no_handoff(ops: Seq<Op>) -> bool {
    forall|k: int| 0 <= k < ops.len() ==> !(#[trigger] ops[k] is PublishHandoff)
}

proof fn lemma_handoff_ids_append(a: Seq<Op>, b: Seq<Op>)
    ensures
        handoff_ids(a + b) == handoff_ids(a) + handoff_ids(b),
    decreases b.len(),
{
    if b.len() == 0 {
        assert(a + b =~= a);
        assert(handoff_ids(a) + handoff_ids(b) =~= handoff_ids(a));
    } else {
        assert((a + b).drop_last() =~= a + b.drop_last());
        lemma_handoff_ids_append(a, b.drop_last());
        assert(handoff_ids(a + b) =~= handoff_ids(a) + handoff_ids(b));
    }
}

proof fn lemma_no_handoff_ids(a: Seq<Op>)
    requires
        no_handoff(a),
    ensures
        handoff_ids(a) == Seq::<u8>::empty(),
    decreases a.len(),
{
    if a.len() > 0 {
        assert(no_handoff(a.drop_last()));
        lemma_no_handoff_ids(a.drop_last());
        assert(!(a[a.len() - 1] is PublishHandoff));
        assert(handoff_ids(a) =~= Seq::<u8>::empty());
    }
}

proof fn lemma_write_no_handoff(mode: ControllerMode, msr: u32, value: u64)
    ensures
        no_handoff(spec_local_apic_write(mode, msr, value)),
{
}

/// A processor's bring-up window opens with its hand-off and closes with the
/// wait for the online counter, with no other hand-off inside. In the
/// register-file model its messages are exactly one INIT assert, one INIT
/// de-assert and one STARTUP, in that order, with the two settle delays.
pub proof fn lemma_boot_one_shape(mode: ControllerMode, id: u8)
    ensures
        spec_boot_one(ControllerMode::RegisterFile, id) == seq![
            Op::PublishHandoff { apic_id: id },
            Op::SnapshotOnline,
            Op::WriteMsr { msr: IA32_X2APIC_ICR, value: init_assert_command(id) },
            Op::Delay { micros: INIT_ASSERT_DELAY_US },
            Op::WriteMsr { msr: IA32_X2APIC_ICR, value: init_deassert_command(id) },
            Op::Delay { micros: INIT_DEASSERT_DELAY_US },
            Op::WriteMsr { msr: IA32_X2APIC_ICR, value: startup_command(id) },
            Op::AwaitOnlineChange,
        ],
        spec_boot_one(mode, id)[0] == (Op::PublishHandoff { apic_id: id }),
        spec_boot_one(mode, id).last() == Op::AwaitOnlineChange,
        no_handoff(spec_boot_one(mode, id).drop_first()),
        handoff_ids(spec_boot_one(mode, id)) == seq![id],
{
    let w1 = spec_local_apic_write(mode, IA32_X2APIC_ICR, init_assert_command(id));
    let w2 = spec_local_apic_write(mode, IA32_X2APIC_ICR, init_deassert_command(id));
    let w3 = spec_local_apic_write(mode, IA32_X2APIC_ICR, startup_command(id));
    lemma_write_no_handoff(mode, IA32_X2APIC_ICR, init_assert_command(id));
    lemma_write_no_handoff(mode, IA32_X2APIC_ICR, init_deassert_command(id));
    lemma_write_no_handoff(mode, IA32_X2APIC_ICR, startup_command(id));
    let rest = seq![Op::SnapshotOnline] + w1 + seq![Op::Delay { micros: INIT_ASSERT_DELAY_US }]
        + w2 + seq![Op::Delay { micros: INIT_DEASSERT_DELAY_US }] + w3 + seq![
        Op::AwaitOnlineChange,
    ];
    let one = spec_boot_one(mode, id);
    assert(spec_boot_one(ControllerMode::RegisterFile, id) =~= seq![
        Op::PublishHandoff { apic_id: id },
        Op::SnapshotOnline,
        Op::WriteMsr { msr: IA32_X2APIC_ICR, value: init_assert_command(id) },
        Op::Delay { micros: INIT_ASSERT_DELAY_US },
        Op::WriteMsr { msr: IA32_X2APIC_ICR, value: init_deassert_command(id) },
        Op::Delay { micros: INIT_DEASSERT_DELAY_US },
        Op::WriteMsr { msr: IA32_X2APIC_ICR, value: startup_command(id) },
        Op::AwaitOnlineChange,
    ]);
    assert(one =~= seq![Op::PublishHandoff { apic_id: id }] + rest);
    assert(one.drop_first() =~= rest);
    assert(no_handoff(rest));
    lemma_no_handoff_ids(rest);
    lemma_handoff_ids_append(seq![Op::PublishHandoff { apic_id: id }], rest);
    let first = seq![Op::PublishHandoff { apic_id: id }];
    assert(first.drop_last() =~= Seq::<Op>::empty());
    assert(handoff_ids(first.drop_last()) =~= Seq::<u8>::empty());
    assert(first.last() == Op::PublishHandoff { apic_id: id });
    assert(handoff_ids(seq![Op::PublishHandoff { apic_id: id }]) =~= seq![id]);
    assert(seq![id] + Seq::<u8>::empty() =~= seq![id]);
}

/// Bring-up hands off to exactly the targets, once each, in their order; and
/// every hand-off after the first comes right after the previous processor's
/// wait for the online counter, so that no two hand-off windows overlap.
pub proof fn lemma_boot_sequence_serialized(mode: ControllerMode, targets: Seq<u8>)
    ensures
        handoff_ids(spec_boot_sequence(mode, targets)) == targets,
        forall|i: int|
            0 < i < spec_boot_sequence(mode, targets).len() && (#[trigger] spec_boot_sequence(
                mode,
                targets,
            )[i]) is PublishHandoff ==> spec_boot_sequence(mode, targets)[i - 1]
                == Op::AwaitOnlineChange,
        targets.len() > 0 ==> spec_boot_sequence(mode, targets).last() == Op::AwaitOnlineChange,
    decreases targets.len(),
{
    if targets.len() == 0 {
        assert(handoff_ids(Seq::<Op>::empty()) =~= targets);
    } else {
        let prev = spec_boot_sequence(mode, targets.drop_last());
        let one = spec_boot_one(mode, targets.last());
        lemma_boot_sequence_serialized(mode, targets.drop_last());
        lemma_boot_one_shape(mode, targets.last());
        lemma_handoff_ids_append(prev, one);
        assert(targets.drop_last() + seq![targets.last()] =~= targets);
        let all = spec_boot_sequence(mode, targets);
        assert(all == prev + one);
        assert forall|i: int| 0 < i < all.len() && (#[trigger] all[i]) is PublishHandoff implies all[i
            - 1] == Op::AwaitOnlineChange by {
            if i < prev.len() {
                assert(all[i] == prev[i]);
                assert(all[i - 1] == prev[i - 1]);
            } else if i == prev.len() {
                assert(all[i - 1] == prev[i - 1]);
            } else {
                assert(all[i] == one[i - prev.len()]);
                assert(all[i] == one.drop_first()[i - prev.len() - 1]);
            }
        }
    }
}

/// Enrolled ids without duplicates that include the sender leave one fewer target.
pub proof fn lemma_non_self_count(ids: Seq<u8>, core_id: u8)
    requires
        ids.no_duplicates(),
        ids.contains(core_id),
    ensures
        non_self_ids(ids, core_id).len() == ids.len() - 1,
        !non_self_ids(ids, core_id).contains(core_id),
    decreases ids.len(),
{
    lemma_non_self_excludes(ids, core_id);
    let prefix = ids.drop_last();
    if ids.last() == core_id {
        lemma_non_self_all(prefix, core_id);
    } else {
        let k = choose|k: int| 0 <= k < ids.len() && ids[k] == core_id;
        assert(prefix[k] == core_id);
        lemma_non_self_count(prefix, core_id);
    }
}

proof fn lemma_non_self_excludes(ids: Seq<u8>, core_id: u8)
    ensures
        !non_self_ids(ids, core_id).contains(core_id),
    decreases ids.len(),
{
    if ids.len() > 0 {
        lemma_non_self_excludes(ids.drop_last(), core_id);
        let prev = non_self_ids(ids.drop_last(), core_id);
        if ids.last() != core_id {
            assert forall|k: int| 0 <= k < prev.push(ids.last()).len() implies prev.push(ids.last())[k]
                != core_id by {
                if k < prev.len() {
                    assert(prev.push(ids.last())[k] == prev[k]);
                }
            }
        }
    }
}

proof fn lemma_non_self_all(ids: Seq<u8>, core_id: u8)
    requires
        !ids.contains(core_id),
    ensures
        non_self_ids(ids, core_id) == ids,
    decreases ids.len(),
{
    if ids.len() > 0 {
        assert(!ids.drop_last().contains(core_id)) by {
            if ids.drop_last().contains(core_id) {
                let k = choose|k: int| 0 <= k < ids.drop_last().len() && ids.drop_last()[k] == core_id;
                assert(ids[k] == core_id);
            }
        }
        lemma_non_self_all(ids.drop_last(), core_id);
        assert(ids[ids.len() - 1] != core_id);
        assert(ids.drop_last().push(ids.last()) =~= ids);
    }
}

/// The boot code does not fit in its page, or is too short to hold the patch point.
#[derive(Clone, Copy, Debug, PartialEq, Eq, Structural)]
pub enum BootCodeError {
    TooLarge,
    TooShort,
}

/// The boot code, ready to be copied to [`SMP_BOOT_CODE_ADDRESS`]: the low 32
/// bits of the page-table root `pml4` patched in at offset 4, little-endian.
/// Code of a page or more, or of fewer than 8 bytes, is refused.
pub fn prepare_boot_code(code: &[u8], pml4: u64) -> (r: Result<Vec<u8>, BootCodeError>)
    ensures
        code@.len() >= BASE_PAGE_SIZE ==> r == Err::<Vec<u8>, BootCodeError>(BootCodeError::TooLarge),
        code@.len() < 8 ==> r == Err::<Vec<u8>, BootCodeError>(BootCodeError::TooShort),
        8 <= code@.len() < BASE_PAGE_SIZE ==> r is Ok && r->Ok_0@ == spec_patched_boot_code(code@, pml4),
{
    if code.len() >= BASE_PAGE_SIZE {
        return Err(BootCodeError::TooLarge);
    }
    if code.len() < SMP_BOOT_CODE_OFFSET_PML4 + 4 {
        return Err(BootCodeError::TooShort);
    }
    let mut patched = slice_to_vec(code);
    let root = pml4 as u32;
    patched.set(SMP_BOOT_CODE_OFFSET_PML4, root as u8);
    patched.set(SMP_BOOT_CODE_OFFSET_PML4 + 1, (root >> 8u32) as u8);
    patched.set(SMP_BOOT_CODE_OFFSET_PML4 + 2, (root >> 16u32) as u8);
    patched.set(SMP_BOOT_CODE_OFFSET_PML4 + 3, (root >> 24u32) as u8);
    proof {
        assert(root >> (8 * 0u32) == root) by (bit_vector);
    }
    Ok(patched)
}

proof fn lemma_destination_round_trip(id: u64, vector: u64)
    by (bit_vector)
    requires
        id < 256,
        vector < 256,
    ensures
        ((id << 32u64) | 0x4000u64 | 0u64 | vector) >> 32u64 == id,
{
}

/// A broadcast in the register-file model is one command write per target, in
/// order, each addressed to its target (bits 32 and up of the command); in the
/// mapped model each of those writes takes three accesses.
pub proof fn lemma_broadcast_one_write_per_target(targets: Seq<u8>, vector: u8)
    ensures
        spec_broadcast(ControllerMode::RegisterFile, targets, vector).len() == targets.len(),
        spec_broadcast(ControllerMode::MemoryMapped, targets, vector).len() == 3 * targets.len(),
        forall|k: int|
            0 <= k < targets.len() ==> #[trigger] spec_broadcast(
                ControllerMode::RegisterFile,
                targets,
                vector,
            )[k] == (Op::WriteMsr {
                msr: IA32_X2APIC_ICR,
                value: fixed_command(targets[k] as u64, vector),
            }) && fixed_command(targets[k] as u64, vector) >> 32u64 == targets[k] as u64,
    decreases targets.len(),
{
    if targets.len() > 0 {
        let prev = targets.drop_last();
        lemma_broadcast_one_write_per_target(prev, vector);
        let b = spec_broadcast(ControllerMode::RegisterFile, targets, vector);
        let bp = spec_broadcast(ControllerMode::RegisterFile, prev, vector);
        assert forall|k: int| 0 <= k < targets.len() implies #[trigger] b[k] == (Op::WriteMsr {
            msr: IA32_X2APIC_ICR,
            value: fixed_command(targets[k] as u64, vector),
        }) && fixed_command(targets[k] as u64, vector) >> 32u64 == targets[k] as u64 by {
            lemma_destination_round_trip(targets[k] as u64, vector as u64);
            if k < prev.len() {
                assert(b[k] == bp[k]);
                assert(prev[k] == targets[k]);
            }
        }
    }
}

/// The invalidation broadcast sends nothing while at most one processor is
/// online. With more, it opens with a memory barrier and then sends one message
/// to each enrolled id but the sender, in order: with `n` distinct enrolled ids
/// that include the sender, `n - 1` messages.
pub proof fn lemma_tlb_flush_messages(mode: ControllerMode, ids: Seq<u8>, core_id: u8, cpu_online: u32)
    ensures
        cpu_online <= 1 ==> spec_tlb_flush(mode, ids, core_id, cpu_online).len() == 0,
        cpu_online > 1 ==> spec_tlb_flush(mode, ids, core_id, cpu_online)[0] == Op::MemoryFence
            && spec_tlb_flush(mode, ids, core_id, cpu_online).drop_first() == spec_broadcast(
            mode,
            non_self_ids(ids, core_id),
            TLB_FLUSH_INTERRUPT_NUMBER,
        ),
        ids.no_duplicates() && ids.contains(core_id) ==> non_self_ids(ids, core_id).len() == ids.len()
            - 1 && !non_self_ids(ids, core_id).contains(core_id),
{
    if cpu_online > 1 {
        let b = spec_broadcast(mode, non_self_ids(ids, core_id), TLB_FLUSH_INTERRUPT_NUMBER);
        assert((seq![Op::MemoryFence] + b).drop_first() =~= b);
    }
    if ids.no_duplicates() && ids.contains(core_id) {
        lemma_non_self_count(ids, core_id);
    }
}

} // verus!
