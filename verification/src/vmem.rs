//! Virtual memory support

use crate::svc::{InfoId, MemoryInfo, MemoryState};
use vstd::prelude::*;

verus! {

/// Represents a virtual region of memory, represented as pointer-sized uints. i.e. [start, end)
#[derive(Copy, Clone, PartialEq, Eq, Structural, Debug)]
pub struct VirtualRegion {
    /// The start address of the region
    pub start: usize,
    /// The (non inclusive) end address of the region
    pub end: usize,
}

impl VirtualRegion {
    /// Whether `address` lies in the region.
    pub open spec fn spec_contains_addr(&self, address: usize) -> bool {
        self.start <= address < self.end
    }

    /// Whether every address of `other` lies between the bounds of the
    /// region.
    pub open spec fn spec_contains(&self, other: Self) -> bool {
        self.start <= other.start && other.end <= self.end
    }

    /// Whether neither region ends before the other starts.
    pub open spec fn spec_overlaps(&self, other: Self) -> bool {
        self.start < other.end && other.start < self.end
    }

    /// Creates an empty [`VirtualRegion`] with invalid address values
    pub fn null() -> (r: Self)
        ensures
            r.start == 0,
            r.end == 0,
    {
        Self { start: 0, end: 0 }
    }

    /// Returns whether the specified address is contained in the region
    ///
    /// # Arguments
    ///
    /// * `address` - The address to check
    pub fn contains_addr(&self, address: usize) -> (b: bool)
        ensures
            b == self.spec_contains_addr(address),
    {
        (address >= self.start) && (address < self.end)
    }

    /// Returns whether the specified region is fully contained in the region
    ///
    /// # Arguments
    ///
    /// * `other` - The region to check
    pub fn contains(&self, other: Self) -> (b: bool)
        ensures
            b == self.spec_contains(other),
    {
        self.start <= other.start && self.end >= other.end
    }

    /// Returns whether the other region overlaps this instance
    ///
    /// # Arguments
    ///
    /// * `other` - The other region to check
    pub fn overlaps(&self, other: Self) -> (b: bool)
        ensures
            b == self.spec_overlaps(other),
    {
        !(other.end <= self.start || self.end <= other.start)
    }
}

impl Default for VirtualRegion {
    fn default() -> (r: Self)
        ensures
            r.start == 0,
            r.end == 0,
    {
        Self { start: 0, end: 0 }
    }
}

/// Two regions that are not empty overlap exactly when they share an
/// address; overlapping goes both ways; and a region that holds another,
/// which is not empty, overlaps it.
pub proof fn lemma_overlaps(a: VirtualRegion, b: VirtualRegion)
    requires
        a.start < a.end,
        b.start < b.end,
    ensures
        a.spec_overlaps(b) <==> exists|address: usize|
            a.spec_contains_addr(address) && b.spec_contains_addr(address),
        a.spec_overlaps(b) == b.spec_overlaps(a),
        a.spec_contains(b) ==> a.spec_overlaps(b),
{
    if a.spec_overlaps(b) {
        let address = if a.start >= b.start {
            a.start
        } else {
            b.start
        };
        assert(a.spec_contains_addr(address) && b.spec_contains_addr(address));
    }
}

/// The standard memory regions for NX processes
#[derive(Copy, Clone, PartialEq, Eq, Structural, Debug)]
pub struct StandardRegions {
    stack: VirtualRegion,
    heap: VirtualRegion,
    legacy_alias: VirtualRegion,
    global_address_space: VirtualRegion,
}

impl StandardRegions {
    /// The stack region.
    pub closed spec fn stack(&self) -> VirtualRegion {
        self.stack
    }

    /// The heap region.
    pub closed spec fn heap(&self) -> VirtualRegion {
        self.heap
    }

    /// The legacy alias region.
    pub closed spec fn legacy_alias(&self) -> VirtualRegion {
        self.legacy_alias
    }

    /// The region in which the process may map memory.
    pub closed spec fn address_space(&self) -> VirtualRegion {
        self.global_address_space
    }

    /// The regions before they are known: all empty.
    pub fn new() -> (r: Self)
        ensures
            r.stack() == (VirtualRegion { start: 0, end: 0 }),
            r.heap() == (VirtualRegion { start: 0, end: 0 }),
            r.legacy_alias() == (VirtualRegion { start: 0, end: 0 }),
            r.address_space() == (VirtualRegion { start: 0, end: 0 }),
    {
        Self {
            stack: VirtualRegion::null(),
            heap: VirtualRegion::null(),
            legacy_alias: VirtualRegion::null(),
            global_address_space: VirtualRegion::null(),
        }
    }
}

impl Default for StandardRegions {
    fn default() -> (r: Self)
        ensures
            r.stack() == (VirtualRegion { start: 0, end: 0 }),
            r.heap() == (VirtualRegion { start: 0, end: 0 }),
            r.legacy_alias() == (VirtualRegion { start: 0, end: 0 }),
            r.address_space() == (VirtualRegion { start: 0, end: 0 }),
    {
        Self::new()
    }
}

/// Gets the address space [`VirtualRegion`] of the process whose regions are `regions`
pub fn get_address_space(regions: &StandardRegions) -> (r: VirtualRegion)
    ensures
        r == regions.address_space(),
{
    regions.global_address_space
}

/// Gets the stack [`VirtualRegion`] of the process whose regions are `regions`
pub fn get_stack_region(regions: &StandardRegions) -> (r: VirtualRegion)
    ensures
        r == regions.stack(),
{
    regions.stack
}

/// Gets the heap [`VirtualRegion`] of the process whose regions are `regions`
pub fn get_heap_region(regions: &StandardRegions) -> (r: VirtualRegion)
    ensures
        r == regions.heap(),
{
    regions.heap
}

/// Gets the legacy alias [`VirtualRegion`] of the process whose regions are `regions`
pub fn get_legacy_alias_region(regions: &StandardRegions) -> (r: VirtualRegion)
    ensures
        r == regions.legacy_alias(),
{
    regions.legacy_alias
}

/// The regions of a process that the kernel tells of.
#[derive(Copy, Clone, PartialEq, Eq, Structural, Debug)]
pub enum RegionKind {
    AddressSpace,
    Stack,
    Heap,
    LegacyAlias,
}

/// The two questions to the kernel that tell where a region starts and how
/// large it is.
pub fn region_info_ids(kind: RegionKind) -> (ids: (InfoId, InfoId))
    ensures
        ids == match kind {
            RegionKind::AddressSpace => (InfoId::AslrRegionAddress, InfoId::AslrRegionSize),
            RegionKind::Stack => (InfoId::StackRegionAddress, InfoId::StackRegionSize),
            RegionKind::Heap => (InfoId::HeapRegionAddress, InfoId::HeapRegionSize),
            RegionKind::LegacyAlias => (InfoId::AliasRegionAddress, InfoId::AliasRegionSize),
        },
{
    match kind {
        RegionKind::AddressSpace => (InfoId::AslrRegionAddress, InfoId::AslrRegionSize),
        RegionKind::Stack => (InfoId::StackRegionAddress, InfoId::StackRegionSize),
        RegionKind::Heap => (InfoId::HeapRegionAddress, InfoId::HeapRegionSize),
        RegionKind::LegacyAlias => (InfoId::AliasRegionAddress, InfoId::AliasRegionSize),
    }
}

/// The region of `size` bytes that starts at `address`, both as the kernel
/// answered.
pub fn read_region_info(address: u64, size: u64) -> (r: VirtualRegion)
    requires
        address + size <= usize::MAX,
    ensures
        r.start == address,
        r.end == address + size,
{
    VirtualRegion { start: address as usize, end: (address + size) as usize }
}

/// Initializes virtual memory support: the regions of the process are the
/// four that the kernel told of.
pub fn initialize(
    regions: &mut StandardRegions,
    global_address_space: VirtualRegion,
    stack: VirtualRegion,
    heap: VirtualRegion,
    legacy_alias: VirtualRegion,
)
    ensures
        final(regions).address_space() == global_address_space,
        final(regions).stack() == stack,
        final(regions).heap() == heap,
        final(regions).legacy_alias() == legacy_alias,
{
    *regions = StandardRegions { global_address_space, stack, heap, legacy_alias };
}

/// What to do with an address at which memory might be mapped.
#[derive(Copy, Clone, PartialEq, Eq, Structural, Debug)]
pub enum AllocateStep {
    /// The address lies in a region that is taken: go on with this one.
    Retry(usize),
    /// Ask the kernel what is at the address.
    Query(usize),
    /// The kernel has nothing at the address: claim it.
    Claim(usize),
}

/// The address that a search goes on from: `attempt_addr` where it lies in
/// the address space, else the start of the address space.
pub open spec fn probe_start(regions: &StandardRegions, attempt_addr: usize) -> usize {
    if regions.address_space().spec_contains_addr(attempt_addr) {
        attempt_addr
    } else {
        regions.address_space().start
    }
}

/// What a search for `size` free bytes does at `attempt_addr`: where the
/// range from there overlaps the stack, the heap or the legacy alias region,
/// the first of these in this order, it goes on behind that region; else it
/// asks the kernel.
pub open spec fn spec_allocate_probe(
    regions: &StandardRegions,
    size: usize,
    attempt_addr: usize,
) -> AllocateStep {
    let start = probe_start(regions, attempt_addr);
    let range = VirtualRegion { start, end: (start + size) as usize };
    if regions.stack().spec_overlaps(range) {
        AllocateStep::Retry(regions.stack().end)
    } else if regions.heap().spec_overlaps(range) {
        AllocateStep::Retry(regions.heap().end)
    } else if regions.legacy_alias().spec_overlaps(range) {
        AllocateStep::Retry(regions.legacy_alias().end)
    } else {
        AllocateStep::Query(start)
    }
}

/// One step of the search for `size` free bytes of address space, at
/// `attempt_addr`.
pub fn allocate_probe(regions: &StandardRegions, size: usize, attempt_addr: usize) -> (step:
    AllocateStep)
    requires
        probe_start(regions, attempt_addr) + size <= usize::MAX,
    ensures
        step == spec_allocate_probe(regions, size, attempt_addr),
{
    let mut start = attempt_addr;
    if !regions.global_address_space.contains_addr(start) {
        start = regions.global_address_space.start;
    }
    let range = VirtualRegion { start, end: start + size };
    if regions.stack.overlaps(range) {
        AllocateStep::Retry(regions.stack.end)
    } else if regions.heap.overlaps(range) {
        AllocateStep::Retry(regions.heap.end)
    } else if regions.legacy_alias.overlaps(range) {
        AllocateStep::Retry(regions.legacy_alias.end)
    } else {
        AllocateStep::Query(start)
    }
}

/// What the search does with the kernel's answer about `attempt_addr`:
/// memory that is free is claimed; behind memory that is taken the search
/// goes on.
pub fn allocate_verdict(info: &MemoryInfo, attempt_addr: usize) -> (step: AllocateStep)
    requires
        info.base_address + info.size <= usize::MAX,
    ensures
        step == (if info.state == MemoryState::Free {
            AllocateStep::Claim(attempt_addr)
        } else {
            AllocateStep::Retry((info.base_address + info.size) as usize)
        }),
{
    match info.state {
        MemoryState::Free => AllocateStep::Claim(attempt_addr),
        _ => AllocateStep::Retry(info.base_address + info.size),
    }
}

/// What the search for free address space learns between two of its steps.
#[derive(Copy, Clone, PartialEq, Eq, Structural, Debug)]
pub enum AllocateEvent {
    /// Nothing: the search starts, or goes on after a retry.
    Probe,
    /// The kernel answered what is at the address that was asked about.
    Queried(MemoryInfo),
    /// Another thread claimed address space first, and the search goes on
    /// from where that thread left the mark.
    Lost(usize),
}

/// Whether the step of the search at `attempt_addr` can take `event`: the
/// ranges that it adds up end inside the address space of the machine.
pub open spec fn allocate_accepts(
    regions: &StandardRegions,
    size: usize,
    attempt_addr: usize,
    event: AllocateEvent,
) -> bool {
    match event {
        AllocateEvent::Probe => probe_start(regions, attempt_addr) + size <= usize::MAX,
        AllocateEvent::Queried(info) => probe_start(regions, attempt_addr) + size <= usize::MAX
            && info.base_address + info.size <= usize::MAX,
        AllocateEvent::Lost(_) => true,
    }
}

/// What one step of the search does at `attempt_addr` after `event`.
///
/// With nothing new, it probes the address. With the kernel's answer, it
/// first makes sure that `attempt_addr` is an address that a probe would
/// ask about, and else does what the probe says; then memory that is free is
/// claimed, and behind memory that is taken the search goes on. After a
/// lost claim it goes on from the mark that the other thread left.
pub open spec fn spec_allocate(
    regions: &StandardRegions,
    size: usize,
    attempt_addr: usize,
    event: AllocateEvent,
) -> AllocateStep {
    match event {
        AllocateEvent::Probe => spec_allocate_probe(regions, size, attempt_addr),
        AllocateEvent::Queried(info) => if spec_allocate_probe(regions, size, attempt_addr)
            != AllocateStep::Query(attempt_addr) {
            spec_allocate_probe(regions, size, attempt_addr)
        } else if info.state == MemoryState::Free {
            AllocateStep::Claim(attempt_addr)
        } else {
            AllocateStep::Retry((info.base_address + info.size) as usize)
        },
        AllocateEvent::Lost(mark) => AllocateStep::Retry(mark),
    }
}

/// One step of finding `size` bytes of free address space: what to do at
/// `attempt_addr` after `event`. The caller asks the kernel, claims the
/// address by moving the mark of the next free address, and calls again until
/// a claim succeeds.
pub fn allocate(
    regions: &StandardRegions,
    size: usize,
    attempt_addr: usize,
    event: AllocateEvent,
) -> (step: AllocateStep)
    requires
        allocate_accepts(regions, size, attempt_addr, event),
    ensures
        step == spec_allocate(regions, size, attempt_addr, event),
{
    match event {
        AllocateEvent::Probe => allocate_probe(regions, size, attempt_addr),
        AllocateEvent::Queried(info) => {
            let probed = allocate_probe(regions, size, attempt_addr);
            match probed {
                AllocateStep::Query(address) => {
                    if address == attempt_addr {
                        allocate_verdict(&info, attempt_addr)
                    } else {
                        probed
                    }
                },
                _ => probed,
            }
        },
        AllocateEvent::Lost(mark) => AllocateStep::Retry(mark),
    }
}

/// An address that a step of the search claims is one that a probe asks
/// about, and the kernel found it free: the range from there overlaps none
/// of the three regions that are taken, and the address lies in the address
/// space unless that is empty.
pub proof fn lemma_claim_is_clear(
    regions: &StandardRegions,
    size: usize,
    attempt_addr: usize,
    event: AllocateEvent,
)
    requires
        allocate_accepts(regions, size, attempt_addr, event),
        spec_allocate(regions, size, attempt_addr, event) is Claim,
    ensures
        ({
            let start = spec_allocate(regions, size, attempt_addr, event)->Claim_0;
            let range = VirtualRegion { start, end: (start + size) as usize };
            &&& start == attempt_addr
            &&& event is Queried
            &&& event->Queried_0.state == MemoryState::Free
            &&& !regions.stack().spec_overlaps(range)
            &&& !regions.heap().spec_overlaps(range)
            &&& !regions.legacy_alias().spec_overlaps(range)
            &&& regions.address_space().start < regions.address_space().end
                ==> regions.address_space().spec_contains_addr(start)
        }),
{
}

/// An address about which the kernel is asked starts a range that overlaps
/// none of the three regions that are taken, and lies in the address space
/// unless that is empty.
pub proof fn lemma_query_is_clear(regions: &StandardRegions, size: usize, attempt_addr: usize)
    requires
        probe_start(regions, attempt_addr) + size <= usize::MAX,
        spec_allocate_probe(regions, size, attempt_addr) is Query,
    ensures
        ({
            let start = spec_allocate_probe(regions, size, attempt_addr)->Query_0;
            let range = VirtualRegion { start, end: (start + size) as usize };
            &&& !regions.stack().spec_overlaps(range)
            &&& !regions.heap().spec_overlaps(range)
            &&& !regions.legacy_alias().spec_overlaps(range)
            &&& regions.address_space().start < regions.address_space().end
                ==> regions.address_space().spec_contains_addr(start)
        }),
{
}

} // verus!
