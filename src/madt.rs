//! Discovery: the physical address of the local controller, the enabled
//! processors and the external routers, read from the platform's interrupt
//! controller description table.

use vstd::prelude::*;

verus! {

/// Physical address of the local controller when running under the kernel's own hypervisor.
pub const UHYVE_LOCAL_APIC_ADDRESS: usize = 0xFEE0_0000;
/// Size of the table header: the controller address and the flags, one `u32` each.
pub const MADT_HEADER_SIZE: usize = 8;
/// Size of a record header: its type and its length, one byte each.
pub const MADT_RECORD_HEADER_SIZE: u8 = 2;
/// Enabled bit of a processor record's flags.
pub const CPU_FLAG_ENABLED: u32 = 1;

/// A processor-local-controller record (type 0).
#[derive(Clone, Copy, Debug, PartialEq, Eq, Structural)]
pub struct ProcessorLocalApicRecord {
    pub acpi_processor_id: u8,
    pub apic_id: u8,
    pub flags: u32,
}

/// An external router record (type 1).
#[derive(Clone, Copy, Debug, PartialEq, Eq, Structural)]
pub struct IoApicRecord {
    pub id: u8,
    pub reserved: u8,
    pub address: u32,
    pub global_system_interrupt_base: u32,
}

/// One record of the table, as far as discovery reads it.
#[derive(Clone, Copy, Debug, PartialEq, Eq, Structural)]
pub enum MadtEntry {
    Processor(ProcessorLocalApicRecord),
    IoApic(IoApicRecord),
    Other,
}

/// What discovery found.
#[derive(Debug)]
pub struct MadtInfo {
    /// Physical address of the local controller.
    pub local_apic_address: usize,
    /// Ids of the enabled processors, in table order: index = CPU number.
    pub cpu_ids: Vec<u8>,
    /// The external routers, in table order.
    pub ioapics: Vec<IoApicRecord>,
}

/// Why discovery failed. Each of these leaves the kernel without interrupts.
#[derive(Clone, Copy, Debug, PartialEq, Eq, Structural)]
pub enum DetectError {
    /// Not under the hypervisor, and the platform has no such table.
    NoTable,
    /// The table is shorter than its header.
    TooShort,
    /// A record is shorter than its kind needs, or runs past the table's end.
    MalformedRecord,
}

/// The little-endian `u32` at byte `i` of `t`.
pub open spec fn u32_le(t: Seq<u8>, i: int) -> u32 {
    (t[i] as int + t[i + 1] as int * 0x100 + t[i + 2] as int * 0x1_0000 + t[i + 3] as int
        * 0x100_0000) as u32
}

/// The least length of a record of the given type.
pub open spec fn min_record_len(entry_type: u8) -> int {
    if entry_type == 0 {
        8
    } else if entry_type == 1 {
        12
    } else {
        2
    }
}

/// The record at `pos` has a header, is as long as its type needs, and ends within the table.
pub open spec fn record_fits(t: Seq<u8>, pos: int) -> bool {
    &&& pos + 2 <= t.len()
    &&& t[pos + 1] as int >= min_record_len(t[pos])
    &&& pos + t[pos + 1] as int <= t.len()
}

/// The record that starts at `pos`.
pub open spec fn spec_entry(t: Seq<u8>, pos: int) -> MadtEntry {
    if t[pos] == 0 {
        MadtEntry::Processor(
            ProcessorLocalApicRecord {
                acpi_processor_id: t[pos + 2],
                apic_id: t[pos + 3],
                flags: u32_le(t, pos + 4),
            },
        )
    } else if t[pos] == 1 {
        MadtEntry::IoApic(
            IoApicRecord {
                id: t[pos + 2],
                reserved: t[pos + 3],
                address: u32_le(t, pos + 4),
                global_system_interrupt_base: u32_le(t, pos + 8),
            },
        )
    } else {
        MadtEntry::Other
    }
}

/// The records from `pos` to the table's end, or `None` where one does not fit.
pub open spec fn spec_entries(t: Seq<u8>, pos: int) -> Option<Seq<MadtEntry>>
    decreases t.len() - pos,
{
    if pos < 0 || pos >= t.len() {
        Some(seq![])
    } else if !record_fits(t, pos) {
        None
    } else {
        match spec_entries(t, pos + t[pos + 1] as int) {
            Some(rest) => Some(seq![spec_entry(t, pos)] + rest),
            None => None,
        }
    }
}

/// Whether an entry is a processor record with its enabled bit set.
pub open spec fn is_enabled_processor(e: MadtEntry) -> bool {
    match e {
        MadtEntry::Processor(p) => p.flags & CPU_FLAG_ENABLED != 0,
        _ => false,
    }
}

/// The ids of the enabled processor records, in order, duplicates kept.
pub open spec fn enabled_ids(es: Seq<MadtEntry>) -> Seq<u8>
    decreases es.len(),
{
    if es.len() == 0 {
        seq![]
    } else {
        let e = es.last();
        let tail = match e {
            MadtEntry::Processor(p) => if p.flags & CPU_FLAG_ENABLED != 0 {
                seq![p.apic_id]
            } else {
                seq![]
            },
            _ => seq![],
        };
        enabled_ids(es.drop_last()) + tail
    }
}

/// The router records, in order.
pub open spec fn ioapic_records(es: Seq<MadtEntry>) -> Seq<IoApicRecord>
    decreases es.len(),
{
    if es.len() == 0 {
        seq![]
    } else {
        let tail = match es.last() {
            MadtEntry::IoApic(r) => seq![r],
            _ => seq![],
        };
        ioapic_records(es.drop_last()) + tail
    }
}

/// The records of a whole table (header included), or `None` if it is malformed.
pub open spec fn spec_table_entries(t: Seq<u8>) -> Option<Seq<MadtEntry>> {
    if t.len() < MADT_HEADER_SIZE {
        None
    } else {
        spec_entries(t, MADT_HEADER_SIZE as int)
    }
}

/// What reading the table `t` gives: `TooShort` below the header's size,
/// `MalformedRecord` where a record does not fit, else the header's controller
/// address, the ids of the enabled processor records and the router records,
/// both in table order.
pub open spec fn acpi_outcome(t: Seq<u8>, r: Result<MadtInfo, DetectError>) -> bool {
    &&& t.len() < MADT_HEADER_SIZE ==> r == Err::<MadtInfo, DetectError>(DetectError::TooShort)
    &&& t.len() >= MADT_HEADER_SIZE && spec_table_entries(t) is None ==> r == Err::<
        MadtInfo,
        DetectError,
    >(DetectError::MalformedRecord)
    &&& r is Ok <==> spec_table_entries(t) is Some
    &&& r is Ok ==> ({
        let es = spec_table_entries(t)->0;
        let info = r->Ok_0;
        &&& info.local_apic_address == u32_le(t, 0) as usize
        &&& info.cpu_ids@ == enabled_ids(es)
        &&& info.ioapics@ == ioapic_records(es)
    })
}

fn read_u32_le(t: &[u8], i: usize) -> (r: u32)
    requires
        i + 4 <= t@.len(),
    ensures
        r == u32_le(t@, i as int),
{
    let b0 = t[i] as u32;
    let b1 = t[i + 1] as u32;
    let b2 = t[i + 2] as u32;
    let b3 = t[i + 3] as u32;
    b0 + b1 * 0x100 + b2 * 0x1_0000 + b3 * 0x100_0000
}

fn read_entry(t: &[u8], pos: usize) -> (r: MadtEntry)
    requires
        record_fits(t@, pos as int),
    ensures
        r == spec_entry(t@, pos as int),
{
    let entry_type = t[pos];
    if entry_type == 0 {
        MadtEntry::Processor(
            ProcessorLocalApicRecord {
                acpi_processor_id: t[pos + 2],
                apic_id: t[pos + 3],
                flags: read_u32_le(t, pos + 4),
            },
        )
    } else if entry_type == 1 {
        MadtEntry::IoApic(
            IoApicRecord {
                id: t[pos + 2],
                reserved: t[pos + 3],
                address: read_u32_le(t, pos + 4),
                global_system_interrupt_base: read_u32_le(t, pos + 8),
            },
        )
    } else {
        MadtEntry::Other
    }
}

/// Reads the table (its header and the records after it).
///
/// On success the controller address is the header's first word, `cpu_ids` holds
/// the ids of the enabled processor records and `ioapics` every router record,
/// both in table order; records of other types are skipped by their length.
pub fn detect_from_acpi(table: &[u8]) -> (r: Result<MadtInfo, DetectError>)
    ensures
        acpi_outcome(table@, r),
{
    if table.len() < MADT_HEADER_SIZE {
        return Err(DetectError::TooShort);
    }
    let local_apic_address = read_u32_le(table, 0) as usize;
    let mut cpu_ids: Vec<u8> = Vec::new();
    let mut ioapics: Vec<IoApicRecord> = Vec::new();
    let mut pos: usize = MADT_HEADER_SIZE;
    let ghost mut seen: Seq<MadtEntry> = seq![];
    while pos < table.len()
        invariant
            MADT_HEADER_SIZE <= pos <= table@.len(),
            spec_table_entries(table@) == (match spec_entries(table@, pos as int) {
                Some(rest) => Some(seen + rest),
                None => None::<Seq<MadtEntry>>,
            }),
            cpu_ids@ == enabled_ids(seen),
            ioapics@ == ioapic_records(seen),
        decreases table@.len() - pos,
    {
        let entry_type = table[pos];
        if table.len() - pos < 2 {
            return Err(DetectError::MalformedRecord);
        }
        let length = table[pos + 1];
        let min_len: u8 = if entry_type == 0 {
            8
        } else if entry_type == 1 {
            12
        } else {
            MADT_RECORD_HEADER_SIZE
        };
        if length < min_len || length as usize > table.len() - pos {
            return Err(DetectError::MalformedRecord);
        }
        let entry = read_entry(table, pos);
        match entry {
            MadtEntry::Processor(p) => {
                if p.flags & CPU_FLAG_ENABLED != 0 {
                    cpu_ids.push(p.apic_id);
                }
            },
            MadtEntry::IoApic(io) => {
                ioapics.push(io);
            },
            MadtEntry::Other => {},
        }
        proof {
            let next = seen.push(entry);
            assert(next.drop_last() =~= seen);
            assert(record_fits(table@, pos as int));
            if let Some(rest) = spec_entries(table@, pos + length as int) {
                assert(spec_entries(table@, pos as int) == Some(seq![entry] + rest));
                assert(seen + (seq![entry] + rest) =~= next + rest);
            }
            seen = next;
        }
        pos = pos + length as usize;
    }
    proof {
        assert(seen + seq![] =~= seen);
    }
    Ok(MadtInfo { local_apic_address, cpu_ids, ioapics })
}

/// Under the kernel's own hypervisor the controller sits at a fixed address.
pub fn detect_from_uhyve(is_uhyve: bool) -> (r: Result<usize, ()>)
    ensures
        r == (if is_uhyve {
            Ok::<usize, ()>(UHYVE_LOCAL_APIC_ADDRESS)
        } else {
            Err::<usize, ()>(())
        }),
{
    if is_uhyve {
        return Ok(UHYVE_LOCAL_APIC_ADDRESS);
    }
    Err(())
}

/// Discovery: under the hypervisor the fixed controller address, with no
/// processor or router records; otherwise what the platform's table gives,
/// and `NoTable` where there is none.
pub fn detect(is_uhyve: bool, table: Option<&[u8]>) -> (r: Result<MadtInfo, DetectError>)
    ensures
        is_uhyve ==> r is Ok && r->Ok_0.local_apic_address == UHYVE_LOCAL_APIC_ADDRESS
            && r->Ok_0.cpu_ids@.len() == 0 && r->Ok_0.ioapics@.len() == 0,
        !is_uhyve && table is None ==> r == Err::<MadtInfo, DetectError>(DetectError::NoTable),
        !is_uhyve && table is Some ==> acpi_outcome(table->0@, r),
{
    match detect_from_uhyve(is_uhyve) {
        Ok(local_apic_address) => Ok(
            MadtInfo { local_apic_address, cpu_ids: Vec::new(), ioapics: Vec::new() },
        ),
        Err(()) => match table {
            Some(t) => detect_from_acpi(t),
            None => Err(DetectError::NoTable),
        },
    }
}

/// Protection of a page mapping.
#[derive(Clone, Copy, Debug, PartialEq, Eq, Structural)]
pub struct PageFlags {
    pub writable: bool,
    pub cache_disable: bool,
    pub execute_disable: bool,
}

/// A request to the paging collaborator: map `pages` pages at `virtual_address`
/// onto `physical_address`.
#[derive(Clone, Copy, Debug, PartialEq, Eq, Structural)]
pub struct MapRequest {
    pub virtual_address: usize,
    pub physical_address: usize,
    pub pages: usize,
    pub flags: PageFlags,
}

/// The protection of a device register window: writable, uncached, never executed.
pub open spec fn device_flags() -> PageFlags {
    PageFlags { writable: true, cache_disable: true, execute_disable: true }
}

/// One page of device registers at `physical_address`, mapped at the
/// `virtual_address` that the virtual-memory collaborator handed out.
pub fn device_page_mapping(virtual_address: usize, physical_address: usize) -> (r: MapRequest)
    ensures
        r == (MapRequest {
            virtual_address,
            physical_address,
            pages: 1,
            flags: device_flags(),
        }),
{
    MapRequest {
        virtual_address,
        physical_address,
        pages: 1,
        flags: PageFlags { writable: true, cache_disable: true, execute_disable: true },
    }
}

/// The mapping of a router's register window at `virtual_address`.
pub fn ioapic_mapping(record: &IoApicRecord, virtual_address: usize) -> (r: MapRequest)
    ensures
        r == (MapRequest {
            virtual_address,
            physical_address: record.address as usize,
            pages: 1,
            flags: device_flags(),
        }),
{
    device_page_mapping(virtual_address, record.address as usize)
}

/// The mapping of the local controller's window, needed in the mapped model only.
pub fn local_apic_mapping(
    mode: crate::registers::ControllerMode,
    physical_address: usize,
    virtual_address: usize,
) -> (r: Option<MapRequest>)
    ensures
        r == (if mode == crate::registers::ControllerMode::MemoryMapped {
            Some(
                MapRequest { virtual_address, physical_address, pages: 1, flags: device_flags() },
            )
        } else {
            None::<MapRequest>
        }),
{
    match mode {
        crate::registers::ControllerMode::MemoryMapped => Some(
            device_page_mapping(virtual_address, physical_address),
        ),
        crate::registers::ControllerMode::RegisterFile => None,
    }
}

/// The router mappings of discovery: one per router record, in order, each one
/// page with device protection at the virtual address handed out for it.
pub fn ioapic_mappings(ioapics: &Vec<IoApicRecord>, virtual_addresses: &Vec<usize>) -> (r: Vec<MapRequest>)
    requires
        ioapics@.len() == virtual_addresses@.len(),
    ensures
        r@.len() == ioapics@.len(),
        forall|i: int|
            0 <= i < r@.len() ==> #[trigger] r@[i] == (MapRequest {
                virtual_address: virtual_addresses@[i],
                physical_address: ioapics@[i].address as usize,
                pages: 1,
                flags: device_flags(),
            }),
{
    let mut r: Vec<MapRequest> = Vec::new();
    let mut i: usize = 0;
    while i < ioapics.len()
        invariant
            i <= ioapics@.len(),
            ioapics@.len() == virtual_addresses@.len(),
            r@.len() == i,
            forall|j: int|
                0 <= j < i ==> #[trigger] r@[j] == (MapRequest {
                    virtual_address: virtual_addresses@[j],
                    physical_address: ioapics@[j].address as usize,
                    pages: 1,
                    flags: device_flags(),
                }),
        decreases ioapics@.len() - i,
    {
        r.push(ioapic_mapping(&ioapics[i], virtual_addresses[i]));
        i = i + 1;
    }
    r
}

/// The number of router records among `es`.
pub open spec fn count_routers(es: Seq<MadtEntry>) -> nat
    decreases es.len(),
{
    if es.len() == 0 {
        0
    } else {
        count_routers(es.drop_last()) + if es.last() is IoApic {
            1nat
        } else {
            0nat
        }
    }
}

/// Discovery keeps exactly one router record per type-1 record of the table, so
/// the mappings asked for number exactly the type-1 records.
pub proof fn lemma_one_router_per_record(es: Seq<MadtEntry>)
    ensures
        ioapic_records(es).len() == count_routers(es),
    decreases es.len(),
{
    if es.len() > 0 {
        lemma_one_router_per_record(es.drop_last());
    }
}

/// How often `x` occurs in `ids`.
pub open spec fn count_id(ids: Seq<u8>, x: u8) -> nat
    decreases ids.len(),
{
    if ids.len() == 0 {
        0
    } else {
        count_id(ids.drop_last(), x) + if ids.last() == x {
            1nat
        } else {
            0nat
        }
    }
}

/// The number of enabled processor records among `es` whose id is `x`.
pub open spec fn count_enabled(es: Seq<MadtEntry>, x: u8) -> nat
    decreases es.len(),
{
    if es.len() == 0 {
        0
    } else {
        count_enabled(es.drop_last(), x) + match es.last() {
            MadtEntry::Processor(p) => if p.flags & CPU_FLAG_ENABLED != 0 && p.apic_id == x {
                1nat
            } else {
                0nat
            },
            _ => 0nat,
        }
    }
}

/// The number of enabled processor records among `es`.
pub open spec fn num_enabled(es: Seq<MadtEntry>) -> nat
    decreases es.len(),
{
    if es.len() == 0 {
        0
    } else {
        num_enabled(es.drop_last()) + if is_enabled_processor(es.last()) {
            1nat
        } else {
            0nat
        }
    }
}

/// The enrolled ids hold one id per enabled processor record: each id as often
/// as enabled records carry it, duplicates kept.
pub proof fn lemma_enabled_ids_counts(es: Seq<MadtEntry>, x: u8)
    ensures
        enabled_ids(es).len() == num_enabled(es),
        count_id(enabled_ids(es), x) == count_enabled(es, x),
    decreases es.len(),
{
    if es.len() > 0 {
        let prev = enabled_ids(es.drop_last());
        lemma_enabled_ids_counts(es.drop_last(), x);
        match es.last() {
            MadtEntry::Processor(p) => {
                if p.flags & CPU_FLAG_ENABLED != 0 {
                    assert(enabled_ids(es) == prev + seq![p.apic_id]);
                    assert((prev + seq![p.apic_id]).drop_last() =~= prev);
                } else {
                    assert(enabled_ids(es) =~= prev);
                }
            },
            _ => {
                assert(enabled_ids(es) =~= prev);
            },
        }
    }
}

proof fn lemma_enabled_ids_append(a: Seq<MadtEntry>, b: Seq<MadtEntry>)
    ensures
        enabled_ids(a + b) == enabled_ids(a) + enabled_ids(b),
    decreases b.len(),
{
    if b.len() == 0 {
        assert(a + b =~= a);
        assert(enabled_ids(a) + enabled_ids(b) =~= enabled_ids(a));
    } else {
        assert((a + b).drop_last() =~= a + b.drop_last());
        lemma_enabled_ids_append(a, b.drop_last());
        assert(enabled_ids(a + b) =~= enabled_ids(a) + enabled_ids(b));
    }
}

/// A processor record whose enabled bit is clear, wherever it stands among the
/// records and whatever its id, adds nothing to the enrolled ids.
pub proof fn lemma_disabled_record_adds_nothing(
    before: Seq<MadtEntry>,
    after: Seq<MadtEntry>,
    p: ProcessorLocalApicRecord,
)
    requires
        p.flags & CPU_FLAG_ENABLED == 0,
    ensures
        enabled_ids(before + seq![MadtEntry::Processor(p)] + after) == enabled_ids(before + after),
{
    let one = seq![MadtEntry::Processor(p)];
    lemma_enabled_ids_append(before + one, after);
    lemma_enabled_ids_append(before, one);
    lemma_enabled_ids_append(before, after);
    assert(one.drop_last() =~= Seq::<MadtEntry>::empty());
    assert(enabled_ids(one.drop_last()) =~= Seq::<u8>::empty());
    assert(enabled_ids(one) =~= Seq::<u8>::empty());
    assert(enabled_ids(before) + Seq::<u8>::empty() =~= enabled_ids(before));
}

} // verus!
