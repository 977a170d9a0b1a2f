//! The whole lifecycle in one pass: initialize the driver, open the single
//! device, allocate a buffer, copy into it, then tear everything down with
//! each teardown owed exactly once.

use cuda_core::cuda::{Buffer, Device, CUDA};
use cuda_core::cuda_api::CUcontext;

#[test]
fn full_lifecycle_succeeds_without_double_free() {
    // Initialize: driver loads, init succeeds, version 11.2, one device.
    let cuda = CUDA::create(true, 0, 11020, 1).unwrap();
    assert_eq!(cuda.device_count(), 1);
    assert_eq!(cuda.version(), (11, 2));

    // Open ordinal 0, supplying one successful observation per query.
    let mut b = Device::create(&cuda, 0).unwrap();
    b.supply_context(0, CUcontext::from_addr(0xc0de)).unwrap();
    b.supply_name(0, b"Lone Device\0").unwrap();
    for value in [3, 0, 0, 40, 1, 49152, 5, 7] {
        b.supply_attribute(0, value).unwrap();
    }
    b.supply_total_mem(0, 8 << 30).unwrap();
    let device = b.finish();
    assert_eq!(device.descriptor().name, b"Lone Device".to_vec());

    // Allocate 1024 bytes and copy 1024 bytes from a host buffer.
    let buffer = Buffer::create(&device, 1024, 0, 0xb000).unwrap();
    let host = [0xabu8; 1024];
    let plan = buffer.copy_from_slice(&host).unwrap();
    assert_eq!(plan.dst, 0xb000);
    assert_eq!(plan.len, 1024);

    // Destroy the buffer, then the device. Consuming each owner is what
    // hands its teardown out, so neither free can happen twice.
    assert_eq!(buffer.free(), 0xb000);
    assert_eq!(device.release(), 0);
}
