use cuda_core::cuda::{Device, DeviceQuery, CUDA};
use cuda_core::cuda_api::{CUAttribute, CUcontext};
use cuda_core::cuda_result::CUError;

fn driver_with_devices(count: i32) -> CUDA {
    CUDA::create(true, 0, 12040, count).unwrap()
}

#[test]
fn ordinal_out_of_range_is_invalid_device() {
    let cuda = driver_with_devices(2);
    assert_eq!(Device::create(&cuda, 2).err().unwrap(), CUError::InvalidDevice);
    assert_eq!(Device::create(&cuda, 17).err().unwrap(), CUError::InvalidDevice);
    assert_eq!(Device::create(&cuda, -1).err().unwrap(), CUError::InvalidDevice);
}

#[test]
fn discovery_runs_the_fixed_query_order() {
    let cuda = driver_with_devices(1);
    let mut b = Device::create(&cuda, 0).unwrap();

    assert_eq!(b.next_query(), Some(DeviceQuery::RetainContext));
    b.supply_context(0, CUcontext::from_addr(0x7000)).unwrap();

    assert_eq!(b.next_query(), Some(DeviceQuery::Name));
    b.supply_name(0, b"Simulated Device\0junk after nul").unwrap();

    let expected = [
        CUAttribute::CU_DEVICE_ATTRIBUTE_PCI_BUS_ID,
        CUAttribute::CU_DEVICE_ATTRIBUTE_PCI_DEVICE_ID,
        CUAttribute::CU_DEVICE_ATTRIBUTE_PCI_DOMAIN_ID,
        CUAttribute::CU_DEVICE_ATTRIBUTE_MULTIPROCESSOR_COUNT,
        CUAttribute::CU_DEVICE_ATTRIBUTE_UNIFIED_ADDRESSING,
        CUAttribute::CU_DEVICE_ATTRIBUTE_MAX_SHARED_MEMORY_PER_BLOCK_OPTIN,
        CUAttribute::CU_DEVICE_ATTRIBUTE_COMPUTE_CAPABILITY_MINOR,
        CUAttribute::CU_DEVICE_ATTRIBUTE_COMPUTE_CAPABILITY_MAJOR,
    ];
    let values = [7, 1, 0, 68, 1, 101376, 6, 8];
    for k in 0..expected.len() {
        assert_eq!(b.next_query(), Some(DeviceQuery::Attribute(expected[k])));
        b.supply_attribute(0, values[k]).unwrap();
    }

    assert_eq!(b.next_query(), Some(DeviceQuery::TotalMem));
    b.supply_total_mem(0, 25_769_803_776).unwrap();
    assert_eq!(b.next_query(), None);

    let device = b.finish();
    let d = device.descriptor();
    assert_eq!(d.id, 0);
    assert_eq!(d.pci_bus_id, 7);
    assert_eq!(d.pci_dev_id, 1);
    assert_eq!(d.pci_dom_id, 0);
    assert_eq!(d.num_sm, 68);
    assert_eq!(d.unified_addr, 1);
    assert_eq!(d.shared_memory_bytes, 101376);
    assert_eq!(d.cc_minor, 6);
    assert_eq!(d.cc_major, 8);
    assert_eq!(d.mem_total, 25_769_803_776);
    assert_eq!(d.name, b"Simulated Device".to_vec());
    assert_eq!(device.context_addr(), 0x7000);
    assert_eq!(device.id(), 0);

    // Destruction names the ordinal to release, exactly once.
    assert_eq!(device.release(), 0);
}

#[test]
fn first_failing_query_aborts_discovery() {
    let cuda = driver_with_devices(1);
    let mut b = Device::create(&cuda, 0).unwrap();
    b.supply_context(0, CUcontext::from_addr(0x8000)).unwrap();
    b.supply_name(0, b"dev\0").unwrap();

    // The PCI bus query fails: its error surfaces and no further query runs.
    let r = b.supply_attribute(999, 0);
    assert_eq!(r.err().unwrap(), CUError::NativeResult(999));
    assert_eq!(b.next_query(), None);

    // The retain had succeeded, so one release is owed for ordinal 0.
    assert_eq!(b.abandon(), Some(0));
}

#[test]
fn failed_retain_owes_no_release() {
    let cuda = driver_with_devices(1);
    let mut b = Device::create(&cuda, 0).unwrap();
    let r = b.supply_context(201, CUcontext::from_addr(0));
    assert_eq!(r.err().unwrap(), CUError::NativeResult(201));
    assert_eq!(b.next_query(), None);
    assert_eq!(b.abandon(), None);
}

#[test]
fn name_without_a_nul_is_kept_whole() {
    let cuda = driver_with_devices(1);
    let mut b = Device::create(&cuda, 0).unwrap();
    b.supply_context(0, CUcontext::from_addr(1)).unwrap();
    b.supply_name(0, b"abc").unwrap();
    for _ in 0..8 {
        b.supply_attribute(0, 5).unwrap();
    }
    b.supply_total_mem(0, 1).unwrap();
    let device = b.finish();
    assert_eq!(device.descriptor().name, b"abc".to_vec());
    device.release();
}

#[test]
fn each_ordinal_below_the_count_can_begin_discovery() {
    let cuda = driver_with_devices(3);
    for i in 0..3 {
        let b = Device::create(&cuda, i).unwrap();
        assert_eq!(b.next_query(), Some(DeviceQuery::RetainContext));
        assert_eq!(b.abandon(), None);
    }
}
