use cuda_core::cuda::{split_version, CUDA};
use cuda_core::cuda_result::CUError;

#[test]
fn initialization_succeeds_on_a_supported_driver() {
    let cuda = CUDA::create(true, 0, 12040, 2).unwrap();
    assert_eq!(cuda.version(), (12, 4));
    assert_eq!(cuda.device_count(), 2);
}

#[test]
fn initialization_fails_when_the_library_cannot_load() {
    let r = CUDA::create(false, 0, 12040, 2);
    assert_eq!(r.err().unwrap(), CUError::DriverUnavailable);
}

#[test]
fn initialization_surfaces_the_native_init_status() {
    let r = CUDA::create(true, 3, 12040, 2);
    assert_eq!(r.err().unwrap(), CUError::InitFailed(3));
}

#[test]
fn version_below_ten_is_unsupported() {
    let r = CUDA::create(true, 0, 9050, 2);
    assert_eq!(r.err().unwrap(), CUError::UnsupportedVersion(9, 5));
}

#[test]
fn version_gate_comes_before_the_device_count_gate() {
    // Even with no device reported, an old driver is rejected for its
    // version: no device enumeration would follow.
    let r = CUDA::create(true, 0, 9050, 0);
    assert_eq!(r.err().unwrap(), CUError::UnsupportedVersion(9, 5));
}

#[test]
fn no_device_fails_initialization() {
    let r = CUDA::create(true, 0, 12040, 0);
    assert_eq!(r.err().unwrap(), CUError::NoDevice);
}

#[test]
fn version_exactly_ten_is_supported() {
    let cuda = CUDA::create(true, 0, 10000, 1).unwrap();
    assert_eq!(cuda.version(), (10, 0));
    let r = CUDA::create(true, 0, 9999, 1);
    assert_eq!(r.err().unwrap(), CUError::UnsupportedVersion(9, 99));
}

#[test]
fn split_version_decomposes_thousands_and_tens() {
    assert_eq!(split_version(12040), (12, 4));
    assert_eq!(split_version(11030), (11, 3));
    assert_eq!(split_version(10010), (10, 1));
    assert_eq!(split_version(0), (0, 0));
    assert_eq!(split_version(999), (0, 99));
}

#[test]
fn split_version_keeps_the_sign_of_a_nonsense_report() {
    assert_eq!(split_version(-12040), (-12, -4));
    let r = CUDA::create(true, 0, -12040, 1);
    assert_eq!(r.err().unwrap(), CUError::UnsupportedVersion(-12, -4));
}
