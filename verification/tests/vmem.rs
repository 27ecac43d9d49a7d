use nx::svc::{InfoId, MemoryInfo, MemoryState};
use nx::vmem::{
    allocate, allocate_probe, allocate_verdict, AllocateEvent, get_address_space, get_heap_region,
    get_legacy_alias_region, get_stack_region, initialize, read_region_info, region_info_ids,
    AllocateStep, RegionKind, StandardRegions, VirtualRegion,
};

fn regions() -> StandardRegions {
    let mut regions = StandardRegions::new();
    initialize(
        &mut regions,
        VirtualRegion { start: 0x1000, end: 0x9000 },
        VirtualRegion { start: 0x2000, end: 0x3000 },
        VirtualRegion { start: 0x3000, end: 0x5000 },
        VirtualRegion { start: 0x7000, end: 0x8000 },
    );
    regions
}

#[test]
fn null_region_holds_nothing() {
    let null = VirtualRegion::null();
    assert_eq!(null, VirtualRegion { start: 0, end: 0 });
    assert!(!null.contains_addr(0));
    assert_eq!(VirtualRegion::default(), null);
}

#[test]
fn region_holds_its_start_but_not_its_end() {
    let region = VirtualRegion { start: 0x1000, end: 0x2000 };
    assert!(region.contains_addr(0x1000));
    assert!(region.contains_addr(0x1FFF));
    assert!(!region.contains_addr(0x2000));
    assert!(!region.contains_addr(0xFFF));
}

#[test]
fn region_contains_regions_within_its_bounds() {
    let region = VirtualRegion { start: 0x1000, end: 0x2000 };
    assert!(region.contains(region));
    assert!(region.contains(VirtualRegion { start: 0x1800, end: 0x2000 }));
    assert!(!region.contains(VirtualRegion { start: 0x1800, end: 0x2001 }));
    assert!(!region.contains(VirtualRegion { start: 0xFFF, end: 0x1800 }));
}

#[test]
fn regions_that_only_touch_do_not_overlap() {
    let region = VirtualRegion { start: 0x1000, end: 0x2000 };
    assert!(region.overlaps(VirtualRegion { start: 0x1FFF, end: 0x3000 }));
    assert!(region.overlaps(VirtualRegion { start: 0, end: 0x1001 }));
    assert!(region.overlaps(VirtualRegion { start: 0x1400, end: 0x1500 }));
    assert!(region.overlaps(VirtualRegion { start: 0, end: 0x5000 }));
    assert!(!region.overlaps(VirtualRegion { start: 0x2000, end: 0x3000 }));
    assert!(!region.overlaps(VirtualRegion { start: 0, end: 0x1000 }));
}

#[test]
fn standard_regions_start_empty_and_are_set_at_once() {
    let fresh = StandardRegions::new();
    assert_eq!(get_address_space(&fresh), VirtualRegion::null());
    assert_eq!(get_stack_region(&fresh), VirtualRegion::null());
    assert_eq!(get_heap_region(&fresh), VirtualRegion::null());
    assert_eq!(get_legacy_alias_region(&fresh), VirtualRegion::null());
    assert_eq!(StandardRegions::default(), fresh);
    let regions = regions();
    assert_eq!(get_address_space(&regions), VirtualRegion { start: 0x1000, end: 0x9000 });
    assert_eq!(get_stack_region(&regions), VirtualRegion { start: 0x2000, end: 0x3000 });
    assert_eq!(get_heap_region(&regions), VirtualRegion { start: 0x3000, end: 0x5000 });
    assert_eq!(get_legacy_alias_region(&regions), VirtualRegion { start: 0x7000, end: 0x8000 });
}

#[test]
fn region_is_read_from_address_and_size() {
    assert_eq!(read_region_info(0x8000, 0x1000), VirtualRegion { start: 0x8000, end: 0x9000 });
    assert_eq!(read_region_info(0, 0), VirtualRegion::null());
    assert_eq!(region_info_ids(RegionKind::AddressSpace), (InfoId::AslrRegionAddress, InfoId::AslrRegionSize));
    assert_eq!(region_info_ids(RegionKind::Stack), (InfoId::StackRegionAddress, InfoId::StackRegionSize));
    assert_eq!(region_info_ids(RegionKind::Heap), (InfoId::HeapRegionAddress, InfoId::HeapRegionSize));
    assert_eq!(region_info_ids(RegionKind::LegacyAlias), (InfoId::AliasRegionAddress, InfoId::AliasRegionSize));
    assert_eq!(InfoId::AslrRegionAddress.value(), 12);
    assert_eq!(InfoId::StackRegionSize.value(), 15);
    assert_eq!(MemoryState::Free.value(), 0);
}

#[test]
fn search_skips_the_taken_regions_in_order() {
    let regions = regions();
    assert_eq!(allocate_probe(&regions, 0x100, 0), AllocateStep::Query(0x1000));
    assert_eq!(allocate_probe(&regions, 0x100, 0x9000), AllocateStep::Query(0x1000));
    assert_eq!(allocate_probe(&regions, 0x1000, 0x1000), AllocateStep::Query(0x1000));
    assert_eq!(allocate_probe(&regions, 0x1001, 0x1000), AllocateStep::Retry(0x3000));
    assert_eq!(allocate_probe(&regions, 0x100, 0x2800), AllocateStep::Retry(0x3000));
    assert_eq!(allocate_probe(&regions, 0x1000, 0x2800), AllocateStep::Retry(0x3000));
    assert_eq!(allocate_probe(&regions, 0x100, 0x3000), AllocateStep::Retry(0x5000));
    assert_eq!(allocate_probe(&regions, 0x100, 0x5000), AllocateStep::Query(0x5000));
    assert_eq!(allocate_probe(&regions, 0x2001, 0x5000), AllocateStep::Retry(0x8000));
    assert_eq!(allocate_probe(&regions, 0x100, 0x8000), AllocateStep::Query(0x8000));
}

#[test]
fn free_memory_is_claimed_and_taken_memory_is_skipped() {
    let mut info = MemoryInfo {
        base_address: 0x5000,
        size: 0x800,
        state: MemoryState::Free,
        attribute: 0,
        permission: 0,
        ipc_refcount: 0,
        device_refcount: 0,
    };
    assert_eq!(allocate_verdict(&info, 0x5100), AllocateStep::Claim(0x5100));
    info.state = MemoryState::Normal;
    assert_eq!(allocate_verdict(&info, 0x5100), AllocateStep::Retry(0x5800));
    info.state = MemoryState::Stack;
    assert_eq!(allocate_verdict(&info, 0x5100), AllocateStep::Retry(0x5800));
}

#[test]
fn search_is_driven_by_events() {
    let regions = regions();
    assert_eq!(allocate(&regions, 0x100, 0x2800, AllocateEvent::Probe), AllocateStep::Retry(0x3000));
    assert_eq!(allocate(&regions, 0x100, 0x3000, AllocateEvent::Probe), AllocateStep::Retry(0x5000));
    assert_eq!(allocate(&regions, 0x100, 0x5000, AllocateEvent::Probe), AllocateStep::Query(0x5000));
    let mut info = MemoryInfo {
        base_address: 0x5000,
        size: 0x400,
        state: MemoryState::Normal,
        attribute: 0,
        permission: 0,
        ipc_refcount: 0,
        device_refcount: 0,
    };
    assert_eq!(
        allocate(&regions, 0x100, 0x5000, AllocateEvent::Queried(info)),
        AllocateStep::Retry(0x5400)
    );
    info.base_address = 0x5400;
    info.state = MemoryState::Free;
    assert_eq!(allocate(&regions, 0x100, 0x5400, AllocateEvent::Probe), AllocateStep::Query(0x5400));
    assert_eq!(
        allocate(&regions, 0x100, 0x5400, AllocateEvent::Queried(info)),
        AllocateStep::Claim(0x5400)
    );
    assert_eq!(
        allocate(&regions, 0x100, 0x5400, AllocateEvent::Lost(0x6000)),
        AllocateStep::Retry(0x6000)
    );
}

#[test]
fn answer_about_a_taken_address_claims_nothing() {
    let regions = regions();
    let free = MemoryInfo {
        base_address: 0x2000,
        size: 0x1000,
        state: MemoryState::Free,
        attribute: 0,
        permission: 0,
        ipc_refcount: 0,
        device_refcount: 0,
    };
    assert_eq!(
        allocate(&regions, 0x100, 0x2800, AllocateEvent::Queried(free)),
        AllocateStep::Retry(0x3000)
    );
    assert_eq!(
        allocate(&regions, 0x100, 0x9000, AllocateEvent::Queried(free)),
        AllocateStep::Query(0x1000)
    );
    assert_eq!(
        allocate(&regions, 0x100, 0x1000, AllocateEvent::Queried(free)),
        AllocateStep::Claim(0x1000)
    );
}
