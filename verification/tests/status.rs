use cuda_core::cuda_api::{CUAttribute, CUresult};
use cuda_core::cuda_result::{status_to_result, CUError};

#[test]
fn success_code_is_ok() {
    assert_eq!(status_to_result(0), Ok(()));
}

#[test]
fn dedicated_error_codes_map_to_their_kinds() {
    assert_eq!(status_to_result(1), Err(CUError::InvalidValue));
    assert_eq!(status_to_result(2), Err(CUError::OutOfMemory));
    assert_eq!(status_to_result(3), Err(CUError::NotInitialized));
    assert_eq!(status_to_result(4), Err(CUError::Deinitialized));
    assert_eq!(status_to_result(100), Err(CUError::NoDevice));
    assert_eq!(status_to_result(101), Err(CUError::InvalidDevice));
}

#[test]
fn recognized_codes_without_dedicated_kind_become_native_result() {
    assert_eq!(status_to_result(218), Err(CUError::NativeResult(218)));
    assert_eq!(status_to_result(500), Err(CUError::NativeResult(500)));
    assert_eq!(status_to_result(704), Err(CUError::NativeResult(704)));
    assert_eq!(status_to_result(999), Err(CUError::NativeResult(999)));
}

#[test]
fn unrecognized_codes_become_unknown() {
    assert_eq!(status_to_result(12345), Err(CUError::Unknown));
    assert_eq!(status_to_result(-7), Err(CUError::Unknown));
    assert_eq!(status_to_result(42), Err(CUError::Unknown));
}

#[test]
fn from_code_and_code_agree() {
    assert_eq!(CUresult::from_code(0), Some(CUresult::CUDA_SUCCESS));
    assert_eq!(CUresult::from_code(218), Some(CUresult::CUDA_ERROR_INVALID_PTX));
    assert_eq!(CUresult::from_code(999), Some(CUresult::CUDA_ERROR_UNKNOWN));
    assert_eq!(CUresult::from_code(77), None);
    assert_eq!(CUresult::CUDA_SUCCESS.code(), 0);
    assert_eq!(CUresult::CUDA_ERROR_INVALID_PTX.code(), 218);
    assert_eq!(CUresult::CUDA_ERROR_UNKNOWN.code(), 999);
}

#[test]
fn check_maps_each_surfaced_class() {
    assert_eq!(CUresult::CUDA_SUCCESS.check(), Ok(()));
    assert_eq!(CUresult::CUDA_ERROR_INVALID_VALUE.check(), Err(CUError::InvalidValue));
    assert_eq!(CUresult::CUDA_ERROR_OUT_OF_MEMORY.check(), Err(CUError::OutOfMemory));
    assert_eq!(CUresult::CUDA_ERROR_NOT_INITIALIZED.check(), Err(CUError::NotInitialized));
    assert_eq!(CUresult::CUDA_ERROR_DEINITIALIZED.check(), Err(CUError::Deinitialized));
    assert_eq!(CUresult::CUDA_ERROR_NO_DEVICE.check(), Err(CUError::NoDevice));
    assert_eq!(CUresult::CUDA_ERROR_INVALID_DEVICE.check(), Err(CUError::InvalidDevice));
    assert_eq!(
        CUresult::CUDA_ERROR_NOT_FOUND.check(),
        Err(CUError::NativeResult(500))
    );
}

#[test]
fn attribute_ids_match_the_native_catalog() {
    assert_eq!(CUAttribute::CU_DEVICE_ATTRIBUTE_PCI_BUS_ID.attribute_id(), 33);
    assert_eq!(CUAttribute::CU_DEVICE_ATTRIBUTE_PCI_DEVICE_ID.attribute_id(), 34);
    assert_eq!(CUAttribute::CU_DEVICE_ATTRIBUTE_PCI_DOMAIN_ID.attribute_id(), 50);
    assert_eq!(CUAttribute::CU_DEVICE_ATTRIBUTE_MULTIPROCESSOR_COUNT.attribute_id(), 16);
    assert_eq!(CUAttribute::CU_DEVICE_ATTRIBUTE_UNIFIED_ADDRESSING.attribute_id(), 41);
    assert_eq!(
        CUAttribute::CU_DEVICE_ATTRIBUTE_MAX_SHARED_MEMORY_PER_BLOCK_OPTIN.attribute_id(),
        97
    );
    assert_eq!(
        CUAttribute::CU_DEVICE_ATTRIBUTE_COMPUTE_CAPABILITY_MINOR.attribute_id(),
        76
    );
    assert_eq!(
        CUAttribute::CU_DEVICE_ATTRIBUTE_COMPUTE_CAPABILITY_MAJOR.attribute_id(),
        75
    );
}
