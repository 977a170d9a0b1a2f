use cuda_core::cuda::{Buffer, Device, CUDA};
use cuda_core::cuda_api::CUcontext;
use cuda_core::cuda_result::CUError;

fn open_device() -> Device {
    let cuda = CUDA::create(true, 0, 12040, 1).unwrap();
    let mut b = Device::create(&cuda, 0).unwrap();
    b.supply_context(0, CUcontext::from_addr(0x1000)).unwrap();
    b.supply_name(0, b"dev\0").unwrap();
    for _ in 0..8 {
        b.supply_attribute(0, 1).unwrap();
    }
    b.supply_total_mem(0, 1 << 30).unwrap();
    b.finish()
}

#[test]
fn allocation_takes_the_reported_address() {
    let device = open_device();
    let buf = Buffer::create(&device, 256, 0, 0xdead0000).unwrap();
    assert_eq!(buf.size(), 256);
    assert_eq!(buf.device_id(), 0);
    assert_eq!(buf.free(), 0xdead0000);
    device.release();
}

#[test]
fn allocation_failure_surfaces_out_of_memory() {
    let device = open_device();
    let r = Buffer::create(&device, 1 << 20, 2, 0);
    assert_eq!(r.err().unwrap(), CUError::OutOfMemory);
    device.release();
}

#[test]
fn allocation_failure_surfaces_other_codes_too() {
    let device = open_device();
    let r = Buffer::create(&device, 64, 201, 0);
    assert_eq!(r.err().unwrap(), CUError::NativeResult(201));
    device.release();
}

#[test]
fn mismatched_copy_is_invalid_value_and_plans_nothing() {
    let device = open_device();
    let buf = Buffer::create(&device, 16, 0, 0x2000).unwrap();
    let shorter = [0u8; 15];
    let longer = [0u8; 17];
    assert_eq!(buf.copy_from_slice(&shorter).err().unwrap(), CUError::InvalidValue);
    assert_eq!(buf.copy_from_slice(&longer).err().unwrap(), CUError::InvalidValue);
    assert_eq!(buf.copy_from_slice(&[]).err().unwrap(), CUError::InvalidValue);
    buf.free();
    device.release();
}

#[test]
fn matching_copy_plans_the_whole_buffer() {
    let device = open_device();
    let buf = Buffer::create(&device, 16, 0, 0x2000).unwrap();
    let src = [7u8; 16];
    let plan = buf.copy_from_slice(&src).unwrap();
    assert_eq!(plan.dst, 0x2000);
    assert_eq!(plan.len, 16);
    buf.free();
    device.release();
}

#[test]
fn allocate_then_free_hands_back_the_same_address() {
    // Repeated allocate and free cycles each give the allocation back,
    // leaving nothing outstanding.
    let device = open_device();
    for i in 1..100u64 {
        let addr = 0x4000 + i * 0x100;
        let buf = Buffer::create(&device, 64, 0, addr).unwrap();
        assert_eq!(buf.free(), addr);
    }
    device.release();
}
