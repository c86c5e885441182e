//! A free list of address ranges, from which memory is handed out and to which
//! it returns.

use vstd::prelude::*;

verus! {

/// A free range: the addresses from `start` up to, not including, `end`.
#[derive(Clone, Copy, Debug, PartialEq, Eq, Structural)]
pub struct FreeListEntry {
    pub start: usize,
    pub end: usize,
}

/// How one entry of the list changes.
#[derive(Clone, Copy, Debug, PartialEq, Eq, Structural)]
pub enum Edit {
    /// The entry leaves the list.
    Remove,
    /// The entry is replaced.
    Replace(FreeListEntry),
    /// The entry is replaced by two, in this order.
    Split(FreeListEntry, FreeListEntry),
    /// A new entry goes right before it.
    InsertBefore(FreeListEntry),
    /// The entry and the one after it are replaced by one.
    Merge(FreeListEntry),
}

/// The free ranges, in list order.
pub struct FreeList {
    list: Vec<FreeListEntry>,
}

/// `s` with `edit` applied at index `i`.
pub open spec fn spec_apply(s: Seq<FreeListEntry>, i: int, edit: Edit) -> Seq<FreeListEntry> {
    match edit {
        Edit::Remove => s.remove(i),
        Edit::Replace(e) => s.update(i, e),
        Edit::Split(a, b) => s.update(i, a).insert(i + 1, b),
        Edit::InsertBefore(e) => s.insert(i, e),
        Edit::Merge(e) => s.update(i, e).remove(i + 1),
    }
}

/// Handing out `size` bytes from the front of `e`: it shrinks, or leaves the
/// list when it is used up; `None` if it is too small.
pub open spec fn fit_edit(e: FreeListEntry, size: usize) -> Option<Edit> {
    if e.end - e.start > size {
        Some(Edit::Replace(FreeListEntry { start: (e.start + size) as usize, end: e.end }))
    } else if e.end - e.start == size {
        Some(Edit::Remove)
    } else {
        None
    }
}

/// Taking `address..end` out of `e`, where it lies within `e`: the part left
/// before it and the part left after it stay free. `None` if `e` does not cover it.
pub open spec fn carve_edit(e: FreeListEntry, address: usize, end: usize) -> Option<Edit> {
    if e.start == address && e.end == end {
        Some(Edit::Remove)
    } else if e.start < address && e.end == end {
        Some(Edit::Replace(FreeListEntry { start: e.start, end: address }))
    } else if e.start == address && e.end > end {
        Some(Edit::Replace(FreeListEntry { start: end, end: e.end }))
    } else if e.start < address && e.end > end {
        Some(
            Edit::Split(
                FreeListEntry { start: e.start, end: address },
                FreeListEntry { start: end, end: e.end },
            ),
        )
    } else {
        None
    }
}

/// `x` rounded up to a multiple of `alignment`.
pub open spec fn align_up(x: usize, alignment: usize) -> int {
    if x % alignment == 0 {
        x as int
    } else {
        x + (alignment - x % alignment)
    }
}

/// The aligned block of `size` bytes that `e` would hand out, if its end fits
/// in the address space.
pub open spec fn aligned_block(e: FreeListEntry, size: usize, alignment: usize) -> Option<usize> {
    if align_up(e.start, alignment) + size <= usize::MAX {
        Some(align_up(e.start, alignment) as usize)
    } else {
        None
    }
}

/// Taking the aligned block of `size` bytes at the start of `e` out of it.
pub open spec fn aligned_edit(e: FreeListEntry, size: usize, alignment: usize) -> Option<Edit> {
    match aligned_block(e, size, alignment) {
        Some(a) => carve_edit(e, a, (a + size) as usize),
        None => None,
    }
}

/// Whether `e` takes back `address..end`: it extends `e` to the left or to the
/// right, or goes in as an entry of its own before `e`. `None` if it lies after
/// `e` without touching it.
pub open spec fn release_edit(e: FreeListEntry, address: usize, end: usize) -> Option<Edit> {
    if e.start == end {
        Some(Edit::Replace(FreeListEntry { start: address, end: e.end }))
    } else if e.end == address {
        Some(Edit::Replace(FreeListEntry { start: e.start, end }))
    } else if end < e.start {
        Some(Edit::InsertBefore(FreeListEntry { start: address, end }))
    } else {
        None
    }
}

/// Returning `address..end` to entry `i` of `s`, which takes it back: where it
/// extends the entry to the right and ends where the next entry starts, the two
/// entries and the block between them become one.
pub open spec fn release_edit_at(s: Seq<FreeListEntry>, i: int, address: usize, end: usize) -> Option<Edit> {
    if s[i].start != end && s[i].end == address && i + 1 < s.len() && s[i + 1].start == end {
        Some(Edit::Merge(FreeListEntry { start: s[i].start, end: s[i + 1].end }))
    } else {
        release_edit(s[i], address, end)
    }
}

/// Every range runs forward.
pub open spec fn entries_wf(s: Seq<FreeListEntry>) -> bool {
    forall|k: int| 0 <= k < s.len() ==> (#[trigger] s[k]).start <= s[k].end
}

/// The entries that an edit brings in run forward.
pub open spec fn edit_wf(edit: Edit) -> bool {
    match edit {
        Edit::Remove => true,
        Edit::Replace(e) => e.start <= e.end,
        Edit::Split(a, b) => a.start <= a.end && b.start <= b.end,
        Edit::InsertBefore(e) => e.start <= e.end,
        Edit::Merge(e) => e.start <= e.end,
    }
}

proof fn lemma_apply_wf(s: Seq<FreeListEntry>, i: int, edit: Edit)
    requires
        entries_wf(s),
        0 <= i < s.len(),
        edit is Merge ==> i + 1 < s.len(),
        edit_wf(edit),
    ensures
        entries_wf(spec_apply(s, i, edit)),
{
    let t = spec_apply(s, i, edit);
    assert forall|k: int| 0 <= k < t.len() implies (#[trigger] t[k]).start <= t[k].end by {
        match edit {
            Edit::Remove => {
                assert(t[k] == s[if k < i { k } else { k + 1 }]);
            },
            Edit::Replace(e) => {
                if k != i {
                    assert(t[k] == s[k]);
                }
            },
            Edit::Split(a, b) => {
                if k < i {
                    assert(t[k] == s[k]);
                } else if k > i + 1 {
                    assert(t[k] == s[k - 1]);
                }
            },
            Edit::InsertBefore(e) => {
                if k < i {
                    assert(t[k] == s[k]);
                } else if k > i {
                    assert(t[k] == s[k - 1]);
                }
            },
            Edit::Merge(e) => {
                if k < i {
                    assert(t[k] == s[k]);
                } else if k > i {
                    assert(t[k] == s[k + 1]);
                }
            },
        }
    }
}

impl View for FreeList {
    type V = Seq<FreeListEntry>;

    closed spec fn view(&self) -> Seq<FreeListEntry> {
        self.list@
    }
}

fn apply_edit(list: &mut Vec<FreeListEntry>, i: usize, edit: Edit)
    requires
        i < old(list)@.len(),
        edit is Merge ==> i + 1 < old(list)@.len(),
    ensures
        final(list)@ == spec_apply(old(list)@, i as int, edit),
{
    match edit {
        Edit::Remove => {
            list.remove(i);
        },
        Edit::Replace(e) => {
            list.set(i, e);
        },
        Edit::Split(a, b) => {
            let n = list.len();
            assert(i + 1 <= n);
            list.set(i, a);
            list.insert(i + 1, b);
        },
        Edit::InsertBefore(e) => {
            list.insert(i, e);
        },
        Edit::Merge(e) => {
            let n = list.len();
            assert(i + 1 < n);
            list.set(i, e);
            list.remove(i + 1);
        },
    }
}

fn fit_entry(e: FreeListEntry, size: usize) -> (r: Option<Edit>)
    requires
        e.start <= e.end,
    ensures
        r == fit_edit(e, size),
{
    let region_size = e.end - e.start;
    if region_size > size {
        Some(Edit::Replace(FreeListEntry { start: e.start + size, end: e.end }))
    } else if region_size == size {
        Some(Edit::Remove)
    } else {
        None
    }
}

fn carve_entry(e: FreeListEntry, address: usize, end: usize) -> (r: Option<Edit>)
    ensures
        r == carve_edit(e, address, end),
{
    if e.start == address && e.end == end {
        Some(Edit::Remove)
    } else if e.start < address && e.end == end {
        Some(Edit::Replace(FreeListEntry { start: e.start, end: address }))
    } else if e.start == address && e.end > end {
        Some(Edit::Replace(FreeListEntry { start: end, end: e.end }))
    } else if e.start < address && e.end > end {
        Some(
            Edit::Split(
                FreeListEntry { start: e.start, end: address },
                FreeListEntry { start: end, end: e.end },
            ),
        )
    } else {
        None
    }
}

fn aligned_start(e: FreeListEntry, size: usize, alignment: usize) -> (r: Option<usize>)
    requires
        alignment > 0,
    ensures
        r == aligned_block(e, size, alignment),
{
    let rem = e.start % alignment;
    let address = if rem == 0 {
        e.start
    } else if e.start > usize::MAX - (alignment - rem) {
        return None;
    } else {
        e.start + (alignment - rem)
    };
    if address > usize::MAX - size {
        None
    } else {
        Some(address)
    }
}

fn release_entry(e: FreeListEntry, address: usize, end: usize) -> (r: Option<Edit>)
    ensures
        r == release_edit(e, address, end),
{
    if e.start == end {
        Some(Edit::Replace(FreeListEntry { start: address, end: e.end }))
    } else if e.end == address {
        Some(Edit::Replace(FreeListEntry { start: e.start, end }))
    } else if end < e.start {
        Some(Edit::InsertBefore(FreeListEntry { start: address, end }))
    } else {
        None
    }
}

fn release_entry_at(list: &Vec<FreeListEntry>, i: usize, address: usize, end: usize) -> (r: Option<Edit>)
    requires
        i < list@.len(),
    ensures
        r == release_edit_at(list@, i as int, address, end),
{
    let e = list[i];
    if e.start != end && e.end == address && i < list.len() - 1 && list[i + 1].start == end {
        Some(Edit::Merge(FreeListEntry { start: e.start, end: list[i + 1].end }))
    } else {
        release_entry(e, address, end)
    }
}

impl FreeList {
    /// Every range runs forward.
    pub open spec fn wf(&self) -> bool {
        entries_wf(self@)
    }

    /// An empty free list.
    pub fn new() -> (r: FreeList)
        ensures
            r@ == Seq::<FreeListEntry>::empty(),
            r.wf(),
    {
        FreeList { list: Vec::new() }
    }

    /// The free ranges, in list order.
    pub fn entries(&self) -> (r: &Vec<FreeListEntry>)
        ensures
            r@ == self@,
    {
        &self.list
    }

    /// Hands out `size` bytes from the first range that holds at least that many:
    /// its start is returned, and the range shrinks from the front or, used up,
    /// leaves the list. `Err` if no range is large enough.
    pub fn allocate(&mut self, size: usize) -> (r: Result<usize, ()>)
        requires
            old(self).wf(),
        ensures
            final(self).wf(),
            r is Ok <==> exists|i: int| 0 <= i < old(self)@.len() && fit_edit(#[trigger] old(self)@[i], size) is Some,
            r is Err ==> final(self)@ == old(self)@,
            r is Ok ==> exists|i: int|
                0 <= i < old(self)@.len() && fit_edit(#[trigger] old(self)@[i], size) is Some && (forall|j: int|
                    0 <= j < i ==> fit_edit(#[trigger] old(self)@[j], size) is None) && r == Ok::<usize, ()>(
                    old(self)@[i].start,
                ) && final(self)@ == spec_apply(old(self)@, i, fit_edit(old(self)@[i], size)->0),
    {
        let mut i: usize = 0;
        while i < self.list.len()
            invariant
                self@ == old(self)@,
                entries_wf(self@),
                i <= self@.len(),
                forall|j: int| 0 <= j < i ==> fit_edit(#[trigger] self@[j], size) is None,
            decreases self@.len() - i,
        {
            let e = self.list[i];
            match fit_entry(e, size) {
                Some(edit) => {
                    apply_edit(&mut self.list, i, edit);
                    proof {
                        lemma_apply_wf(old(self)@, i as int, edit);
                    }
                    return Ok(e.start);
                },
                None => {},
            }
            i = i + 1;
        }
        Err(())
    }

    /// Takes `address..end` out of entry `i` if that entry covers it.
    fn allocate_address_for_node(&mut self, address: usize, end: usize, i: usize) -> (r: bool)
        requires
            old(self).wf(),
            address <= end,
            i < old(self)@.len(),
        ensures
            final(self).wf(),
            r == carve_edit(old(self)@[i as int], address, end) is Some,
            r ==> final(self)@ == spec_apply(old(self)@, i as int, carve_edit(old(self)@[i as int], address, end)->0),
            !r ==> final(self)@ == old(self)@,
    {
        match carve_entry(self.list[i], address, end) {
            Some(edit) => {
                apply_edit(&mut self.list, i, edit);
                proof {
                    lemma_apply_wf(old(self)@, i as int, edit);
                }
                true
            },
            None => false,
        }
    }

    /// Hands out `size` bytes at an address that is a multiple of `alignment`,
    /// from the first range whose start, rounded up, begins a block of that size
    /// within it; what is left of the range before and after the block stays free.
    /// `Err` if no range has such a block.
    pub fn allocate_aligned(&mut self, size: usize, alignment: usize) -> (r: Result<usize, ()>)
        requires
            old(self).wf(),
            alignment > 0,
        ensures
            final(self).wf(),
            r is Ok <==> exists|i: int| 0 <= i < old(self)@.len() && aligned_edit(#[trigger] old(self)@[i], size, alignment) is Some,
            r is Err ==> final(self)@ == old(self)@,
            r is Ok ==> exists|i: int|
                0 <= i < old(self)@.len() && aligned_edit(#[trigger] old(self)@[i], size, alignment) is Some
                    && (forall|j: int| 0 <= j < i ==> aligned_edit(#[trigger] old(self)@[j], size, alignment) is None)
                    && r == Ok::<usize, ()>(aligned_block(old(self)@[i], size, alignment)->0)
                    && final(self)@ == spec_apply(old(self)@, i, aligned_edit(old(self)@[i], size, alignment)->0),
    {
        let mut i: usize = 0;
        while i < self.list.len()
            invariant
                self@ == old(self)@,
                entries_wf(self@),
                i <= self@.len(),
                alignment > 0,
                forall|j: int| 0 <= j < i ==> aligned_edit(#[trigger] self@[j], size, alignment) is None,
            decreases self@.len() - i,
        {
            if let Some(address) = aligned_start(self.list[i], size, alignment) {
                let end = address + size;
                if self.allocate_address_for_node(address, end, i) {
                    return Ok(address);
                }
            }
            i = i + 1;
        }
        Err(())
    }

    /// Takes `address..address + size` out of the first range that covers it;
    /// what is left of that range before and after stays free. `Err` if no range
    /// covers it.
    pub fn reserve(&mut self, address: usize, size: usize) -> (r: Result<(), ()>)
        requires
            old(self).wf(),
            address + size <= usize::MAX,
        ensures
            final(self).wf(),
            r is Ok <==> exists|i: int| 0 <= i < old(self)@.len() && carve_edit(#[trigger] old(self)@[i], address, (address + size) as usize) is Some,
            r is Err ==> final(self)@ == old(self)@,
            r is Ok ==> exists|i: int|
                0 <= i < old(self)@.len() && carve_edit(#[trigger] old(self)@[i], address, (address + size) as usize) is Some
                    && (forall|j: int| 0 <= j < i ==> carve_edit(#[trigger] old(self)@[j], address, (address + size) as usize) is None)
                    && final(self)@ == spec_apply(old(self)@, i, carve_edit(old(self)@[i], address, (address + size) as usize)->0),
    {
        let end = address + size;
        let mut i: usize = 0;
        while i < self.list.len()
            invariant
                self@ == old(self)@,
                entries_wf(self@),
                i <= self@.len(),
                end == address + size,
                forall|j: int| 0 <= j < i ==> carve_edit(#[trigger] self@[j], address, end) is None,
            decreases self@.len() - i,
        {
            if self.allocate_address_for_node(address, end, i) {
                return Ok(());
            }
            i = i + 1;
        }
        Err(())
    }

    /// Returns `address..address + size` to the list: the first range that it
    /// touches or that lies wholly after it is extended to the left, extended to
    /// the right, or gets it as a new entry right before it; with no such range it
    /// becomes the last entry. Where it extends a range to the right and ends
    /// exactly where the next range starts, the two ranges become one.
    pub fn deallocate(&mut self, address: usize, size: usize)
        requires
            old(self).wf(),
            address + size <= usize::MAX,
        ensures
            final(self).wf(),
            (forall|i: int| 0 <= i < old(self)@.len() ==> release_edit(#[trigger] old(self)@[i], address, (address + size) as usize) is None)
                ==> final(self)@ == old(self)@.push(FreeListEntry { start: address, end: (address + size) as usize }),
            (exists|i: int| 0 <= i < old(self)@.len() && release_edit(#[trigger] old(self)@[i], address, (address + size) as usize) is Some)
                ==> exists|i: int|
                0 <= i < old(self)@.len() && release_edit(#[trigger] old(self)@[i], address, (address + size) as usize) is Some
                    && (forall|j: int| 0 <= j < i ==> release_edit(#[trigger] old(self)@[j], address, (address + size) as usize) is None)
                    && final(self)@ == spec_apply(old(self)@, i, release_edit_at(old(self)@, i, address, (address + size) as usize)->0),
            forall|i: int|
                0 <= i && i + 1 < old(self)@.len() && (forall|j: int| 0 <= j < i ==> release_edit(#[trigger] old(self)@[j], address, (address + size) as usize) is None)
                    && old(self)@[i].start != address + size && #[trigger] old(self)@[i].end == address && old(self)@[i + 1].start == address + size
                    ==> final(self)@ == old(self)@.update(i, FreeListEntry { start: old(self)@[i].start, end: old(self)@[i + 1].end }).remove(i + 1),
    {
        let end = address + size;
        let mut i: usize = 0;
        while i < self.list.len()
            invariant
                self@ == old(self)@,
                entries_wf(self@),
                i <= self@.len(),
                end == address + size,
                forall|j: int| 0 <= j < i ==> release_edit(#[trigger] self@[j], address, end) is None,
            decreases self@.len() - i,
        {
            if let Some(edit) = release_entry_at(&self.list, i, address, end) {
                apply_edit(&mut self.list, i, edit);
                proof {
                    lemma_apply_wf(old(self)@, i as int, edit);
                }
                return;
            }
            i = i + 1;
        }
        self.list.push(FreeListEntry { start: address, end });
        proof {
            let t = self@;
            assert forall|k: int| 0 <= k < t.len() implies (#[trigger] t[k]).start <= t[k].end by {
                if k < old(self)@.len() {
                    assert(t[k] == old(self)@[k]);
                }
            }
        }
    }
}

} // verus!
