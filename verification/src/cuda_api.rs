//! The catalog of the native driver interface as the verified core sees it:
//! opaque handle types, the driver's status code enumeration with its numeric
//! encoding, and the device attribute identifiers queried at device discovery.
//!
//! The native driver itself is an external collaborator. It is never called
//! from this crate: callers perform each native call and hand the observed
//! status codes and handle addresses to the functions of this library, which
//! decide everything else.

use vstd::prelude::*;

use crate::cuda_result::{check_spec, CUError};

verus! {

/// Marker for a handle that designates an execution context.
#[allow(non_camel_case_types)]
#[derive(Clone, Copy)]
pub struct CUctx_st;

/// Marker for a handle that designates a loaded binary module.
#[allow(non_camel_case_types)]
#[derive(Clone, Copy)]
pub struct CUmod_st;

/// Marker for a handle that designates a kernel function inside a loaded module.
#[allow(non_camel_case_types)]
#[derive(Clone, Copy)]
pub struct CUfunc_st;

/// Marker for a handle that designates a just-in-time link in progress.
#[allow(non_camel_case_types)]
#[derive(Clone, Copy)]
pub struct CUlinkState_st;

/// Marker for a handle that designates a stream of ordered device work.
#[allow(non_camel_case_types)]
#[derive(Clone, Copy)]
pub struct CUstream_st;

/// Marker for a handle that designates a timing or synchronization event.
#[allow(non_camel_case_types)]
#[derive(Clone, Copy)]
pub struct CUevent_st;

/// Marker for a handle that designates a device-resident array.
#[allow(non_camel_case_types)]
#[derive(Clone, Copy)]
pub struct CUarray_st;

/// Marker for a handle that designates a texture object.
#[allow(non_camel_case_types)]
#[derive(Clone, Copy)]
pub struct CUtexObject_st;

/// An opaque native handle: an address handed out by the driver, tagged with
/// the kind of object it designates. The core never dereferences a handle; it
/// only carries the address between the native calls that its caller performs.
/// Only the owning wrapper (`Device`, `Buffer`, `LinkSession`) may schedule the
/// teardown call for the object behind its handle.
pub struct Handle<T> {
    addr: u64,
    kind: core::marker::PhantomData<T>,
}

impl<T> View for Handle<T> {
    type V = u64;

    closed spec fn view(&self) -> u64 {
        self.addr
    }
}

impl<T> Handle<T> {
    /// Wrap a raw handle address observed from a native call.
    pub fn from_addr(addr: u64) -> (h: Self)
        ensures
            h@ == addr,
    {
        Handle { addr, kind: core::marker::PhantomData }
    }

    /// The raw address, for handing back to a native call.
    pub fn addr(&self) -> (a: u64)
        ensures
            a == self@,
    {
        self.addr
    }
}

pub type CUcontext = Handle<CUctx_st>;

pub type CUmodule = Handle<CUmod_st>;

pub type CUfunction = Handle<CUfunc_st>;

pub type CUlinkState = Handle<CUlinkState_st>;

pub type CUstream = Handle<CUstream_st>;

pub type CUevent = Handle<CUevent_st>;

pub type CUarray = Handle<CUarray_st>;

pub type CUtexObject = Handle<CUtexObject_st>;

/// Every status code of the native driver that this core recognizes. A code
/// outside this enumeration is still handled: `from_code` reports it as
/// unrecognized and the error mapping turns it into `CUError::Unknown`.
#[allow(non_camel_case_types)]
#[derive(Clone, Copy, Debug, PartialEq, Eq, Structural)]
pub enum CUresult {
    CUDA_SUCCESS,
    CUDA_ERROR_INVALID_VALUE,
    CUDA_ERROR_OUT_OF_MEMORY,
    CUDA_ERROR_NOT_INITIALIZED,
    CUDA_ERROR_DEINITIALIZED,
    CUDA_ERROR_PROFILER_DISABLED,
    CUDA_ERROR_PROFILER_NOT_INITIALIZED,
    CUDA_ERROR_PROFILER_ALREADY_STARTED,
    CUDA_ERROR_PROFILER_ALREADY_STOPPED,
    CUDA_ERROR_STUB_LIBRARY,
    CUDA_ERROR_DEVICE_UNAVAILABLE,
    CUDA_ERROR_NO_DEVICE,
    CUDA_ERROR_INVALID_DEVICE,
    CUDA_ERROR_DEVICE_NOT_LICENSED,
    CUDA_ERROR_INVALID_IMAGE,
    CUDA_ERROR_INVALID_CONTEXT,
    CUDA_ERROR_CONTEXT_ALREADY_CURRENT,
    CUDA_ERROR_MAP_FAILED,
    CUDA_ERROR_UNMAP_FAILED,
    CUDA_ERROR_ARRAY_IS_MAPPED,
    CUDA_ERROR_ALREADY_MAPPED,
    CUDA_ERROR_NO_BINARY_FOR_GPU,
    CUDA_ERROR_ALREADY_ACQUIRED,
    CUDA_ERROR_NOT_MAPPED,
    CUDA_ERROR_NOT_MAPPED_AS_ARRAY,
    CUDA_ERROR_NOT_MAPPED_AS_POINTER,
    CUDA_ERROR_ECC_UNCORRECTABLE,
    CUDA_ERROR_UNSUPPORTED_LIMIT,
    CUDA_ERROR_CONTEXT_ALREADY_IN_USE,
    CUDA_ERROR_PEER_ACCESS_UNSUPPORTED,
    CUDA_ERROR_INVALID_PTX,
    CUDA_ERROR_INVALID_GRAPHICS_CONTEXT,
    CUDA_ERROR_NVLINK_UNCORRECTABLE,
    CUDA_ERROR_JIT_COMPILER_NOT_FOUND,
    CUDA_ERROR_UNSUPPORTED_PTX_VERSION,
    CUDA_ERROR_JIT_COMPILATION_DISABLED,
    CUDA_ERROR_UNSUPPORTED_EXEC_AFFINITY,
    CUDA_ERROR_UNSUPPORTED_DEVSIDE_SYNC,
    CUDA_ERROR_INVALID_SOURCE,
    CUDA_ERROR_FILE_NOT_FOUND,
    CUDA_ERROR_SHARED_OBJECT_SYMBOL_NOT_FOUND,
    CUDA_ERROR_SHARED_OBJECT_INIT_FAILED,
    CUDA_ERROR_OPERATING_SYSTEM,
    CUDA_ERROR_INVALID_HANDLE,
    CUDA_ERROR_ILLEGAL_STATE,
    CUDA_ERROR_NOT_FOUND,
    CUDA_ERROR_NOT_READY,
    CUDA_ERROR_ILLEGAL_ADDRESS,
    CUDA_ERROR_LAUNCH_OUT_OF_RESOURCES,
    CUDA_ERROR_LAUNCH_TIMEOUT,
    CUDA_ERROR_LAUNCH_INCOMPATIBLE_TEXTURING,
    CUDA_ERROR_PEER_ACCESS_ALREADY_ENABLED,
    CUDA_ERROR_PEER_ACCESS_NOT_ENABLED,
    CUDA_ERROR_PRIMARY_CONTEXT_ACTIVE,
    CUDA_ERROR_CONTEXT_IS_DESTROYED,
    CUDA_ERROR_ASSERT,
    CUDA_ERROR_TOO_MANY_PEERS,
    CUDA_ERROR_HOST_MEMORY_ALREADY_REGISTERED,
    CUDA_ERROR_HOST_MEMORY_NOT_REGISTERED,
    CUDA_ERROR_HARDWARE_STACK_ERROR,
    CUDA_ERROR_ILLEGAL_INSTRUCTION,
    CUDA_ERROR_MISALIGNED_ADDRESS,
    CUDA_ERROR_INVALID_ADDRESS_SPACE,
    CUDA_ERROR_INVALID_PC,
    CUDA_ERROR_LAUNCH_FAILED,
    CUDA_ERROR_COOPERATIVE_LAUNCH_TOO_LARGE,
    CUDA_ERROR_NOT_PERMITTED,
    CUDA_ERROR_NOT_SUPPORTED,
    CUDA_ERROR_SYSTEM_NOT_READY,
    CUDA_ERROR_SYSTEM_DRIVER_MISMATCH,
    CUDA_ERROR_COMPAT_NOT_SUPPORTED_ON_DEVICE,
    CUDA_ERROR_MPS_CONNECTION_FAILED,
    CUDA_ERROR_MPS_RPC_FAILURE,
    CUDA_ERROR_MPS_SERVER_NOT_READY,
    CUDA_ERROR_MPS_MAX_CLIENTS_REACHED,
    CUDA_ERROR_MPS_MAX_CONNECTIONS_REACHED,
    CUDA_ERROR_MPS_CLIENT_TERMINATED,
    CUDA_ERROR_CDP_NOT_SUPPORTED,
    CUDA_ERROR_CDP_VERSION_MISMATCH,
    CUDA_ERROR_STREAM_CAPTURE_UNSUPPORTED,
    CUDA_ERROR_STREAM_CAPTURE_INVALIDATED,
    CUDA_ERROR_STREAM_CAPTURE_MERGE,
    CUDA_ERROR_STREAM_CAPTURE_UNMATCHED,
    CUDA_ERROR_STREAM_CAPTURE_UNJOINED,
    CUDA_ERROR_STREAM_CAPTURE_ISOLATION,
    CUDA_ERROR_STREAM_CAPTURE_IMPLICIT,
    CUDA_ERROR_CAPTURED_EVENT,
    CUDA_ERROR_STREAM_CAPTURE_WRONG_THREAD,
    CUDA_ERROR_TIMEOUT,
    CUDA_ERROR_GRAPH_EXEC_UPDATE_FAILURE,
    CUDA_ERROR_EXTERNAL_DEVICE,
    CUDA_ERROR_INVALID_CLUSTER_SIZE,
    CUDA_ERROR_UNKNOWN,
}

impl CUresult {
    /// The numeric encoding of this status code in the native interface.
    pub open spec fn code_spec(self) -> i32 {
        match self {
            CUresult::CUDA_SUCCESS => 0,
            CUresult::CUDA_ERROR_INVALID_VALUE => 1,
            CUresult::CUDA_ERROR_OUT_OF_MEMORY => 2,
            CUresult::CUDA_ERROR_NOT_INITIALIZED => 3,
            CUresult::CUDA_ERROR_DEINITIALIZED => 4,
            CUresult::CUDA_ERROR_PROFILER_DISABLED => 5,
            CUresult::CUDA_ERROR_PROFILER_NOT_INITIALIZED => 6,
            CUresult::CUDA_ERROR_PROFILER_ALREADY_STARTED => 7,
            CUresult::CUDA_ERROR_PROFILER_ALREADY_STOPPED => 8,
            CUresult::CUDA_ERROR_STUB_LIBRARY => 34,
            CUresult::CUDA_ERROR_DEVICE_UNAVAILABLE => 46,
            CUresult::CUDA_ERROR_NO_DEVICE => 100,
            CUresult::CUDA_ERROR_INVALID_DEVICE => 101,
            CUresult::CUDA_ERROR_DEVICE_NOT_LICENSED => 102,
            CUresult::CUDA_ERROR_INVALID_IMAGE => 200,
            CUresult::CUDA_ERROR_INVALID_CONTEXT => 201,
            CUresult::CUDA_ERROR_CONTEXT_ALREADY_CURRENT => 202,
            CUresult::CUDA_ERROR_MAP_FAILED => 205,
            CUresult::CUDA_ERROR_UNMAP_FAILED => 206,
            CUresult::CUDA_ERROR_ARRAY_IS_MAPPED => 207,
            CUresult::CUDA_ERROR_ALREADY_MAPPED => 208,
            CUresult::CUDA_ERROR_NO_BINARY_FOR_GPU => 209,
            CUresult::CUDA_ERROR_ALREADY_ACQUIRED => 210,
            CUresult::CUDA_ERROR_NOT_MAPPED => 211,
            CUresult::CUDA_ERROR_NOT_MAPPED_AS_ARRAY => 212,
            CUresult::CUDA_ERROR_NOT_MAPPED_AS_POINTER => 213,
            CUresult::CUDA_ERROR_ECC_UNCORRECTABLE => 214,
            CUresult::CUDA_ERROR_UNSUPPORTED_LIMIT => 215,
            CUresult::CUDA_ERROR_CONTEXT_ALREADY_IN_USE => 216,
            CUresult::CUDA_ERROR_PEER_ACCESS_UNSUPPORTED => 217,
            CUresult::CUDA_ERROR_INVALID_PTX => 218,
            CUresult::CUDA_ERROR_INVALID_GRAPHICS_CONTEXT => 219,
            CUresult::CUDA_ERROR_NVLINK_UNCORRECTABLE => 220,
            CUresult::CUDA_ERROR_JIT_COMPILER_NOT_FOUND => 221,
            CUresult::CUDA_ERROR_UNSUPPORTED_PTX_VERSION => 222,
            CUresult::CUDA_ERROR_JIT_COMPILATION_DISABLED => 223,
            CUresult::CUDA_ERROR_UNSUPPORTED_EXEC_AFFINITY => 224,
            CUresult::CUDA_ERROR_UNSUPPORTED_DEVSIDE_SYNC => 225,
            CUresult::CUDA_ERROR_INVALID_SOURCE => 300,
            CUresult::CUDA_ERROR_FILE_NOT_FOUND => 301,
            CUresult::CUDA_ERROR_SHARED_OBJECT_SYMBOL_NOT_FOUND => 302,
            CUresult::CUDA_ERROR_SHARED_OBJECT_INIT_FAILED => 303,
            CUresult::CUDA_ERROR_OPERATING_SYSTEM => 304,
            CUresult::CUDA_ERROR_INVALID_HANDLE => 400,
            CUresult::CUDA_ERROR_ILLEGAL_STATE => 401,
            CUresult::CUDA_ERROR_NOT_FOUND => 500,
            CUresult::CUDA_ERROR_NOT_READY => 600,
            CUresult::CUDA_ERROR_ILLEGAL_ADDRESS => 700,
            CUresult::CUDA_ERROR_LAUNCH_OUT_OF_RESOURCES => 701,
            CUresult::CUDA_ERROR_LAUNCH_TIMEOUT => 702,
            CUresult::CUDA_ERROR_LAUNCH_INCOMPATIBLE_TEXTURING => 703,
            CUresult::CUDA_ERROR_PEER_ACCESS_ALREADY_ENABLED => 704,
            CUresult::CUDA_ERROR_PEER_ACCESS_NOT_ENABLED => 705,
            CUresult::CUDA_ERROR_PRIMARY_CONTEXT_ACTIVE => 708,
            CUresult::CUDA_ERROR_CONTEXT_IS_DESTROYED => 709,
            CUresult::CUDA_ERROR_ASSERT => 710,
            CUresult::CUDA_ERROR_TOO_MANY_PEERS => 711,
            CUresult::CUDA_ERROR_HOST_MEMORY_ALREADY_REGISTERED => 712,
            CUresult::CUDA_ERROR_HOST_MEMORY_NOT_REGISTERED => 713,
            CUresult::CUDA_ERROR_HARDWARE_STACK_ERROR => 714,
            CUresult::CUDA_ERROR_ILLEGAL_INSTRUCTION => 715,
            CUresult::CUDA_ERROR_MISALIGNED_ADDRESS => 716,
            CUresult::CUDA_ERROR_INVALID_ADDRESS_SPACE => 717,
            CUresult::CUDA_ERROR_INVALID_PC => 718,
            CUresult::CUDA_ERROR_LAUNCH_FAILED => 719,
            CUresult::CUDA_ERROR_COOPERATIVE_LAUNCH_TOO_LARGE => 720,
            CUresult::CUDA_ERROR_NOT_PERMITTED => 800,
            CUresult::CUDA_ERROR_NOT_SUPPORTED => 801,
            CUresult::CUDA_ERROR_SYSTEM_NOT_READY => 802,
            CUresult::CUDA_ERROR_SYSTEM_DRIVER_MISMATCH => 803,
            CUresult::CUDA_ERROR_COMPAT_NOT_SUPPORTED_ON_DEVICE => 804,
            CUresult::CUDA_ERROR_MPS_CONNECTION_FAILED => 805,
            CUresult::CUDA_ERROR_MPS_RPC_FAILURE => 806,
            CUresult::CUDA_ERROR_MPS_SERVER_NOT_READY => 807,
            CUresult::CUDA_ERROR_MPS_MAX_CLIENTS_REACHED => 808,
            CUresult::CUDA_ERROR_MPS_MAX_CONNECTIONS_REACHED => 809,
            CUresult::CUDA_ERROR_MPS_CLIENT_TERMINATED => 810,
            CUresult::CUDA_ERROR_CDP_NOT_SUPPORTED => 811,
            CUresult::CUDA_ERROR_CDP_VERSION_MISMATCH => 812,
            CUresult::CUDA_ERROR_STREAM_CAPTURE_UNSUPPORTED => 900,
            CUresult::CUDA_ERROR_STREAM_CAPTURE_INVALIDATED => 901,
            CUresult::CUDA_ERROR_STREAM_CAPTURE_MERGE => 902,
            CUresult::CUDA_ERROR_STREAM_CAPTURE_UNMATCHED => 903,
            CUresult::CUDA_ERROR_STREAM_CAPTURE_UNJOINED => 904,
            CUresult::CUDA_ERROR_STREAM_CAPTURE_ISOLATION => 905,
            CUresult::CUDA_ERROR_STREAM_CAPTURE_IMPLICIT => 906,
            CUresult::CUDA_ERROR_CAPTURED_EVENT => 907,
            CUresult::CUDA_ERROR_STREAM_CAPTURE_WRONG_THREAD => 908,
            CUresult::CUDA_ERROR_TIMEOUT => 909,
            CUresult::CUDA_ERROR_GRAPH_EXEC_UPDATE_FAILURE => 910,
            CUresult::CUDA_ERROR_EXTERNAL_DEVICE => 911,
            CUresult::CUDA_ERROR_INVALID_CLUSTER_SIZE => 912,
            CUresult::CUDA_ERROR_UNKNOWN => 999,
        }
    }

    /// The numeric encoding of this status code in the native interface.
    pub fn code(self) -> (c: i32)
        ensures
            c == self.code_spec(),
    {
        match self {
            CUresult::CUDA_SUCCESS => 0,
            CUresult::CUDA_ERROR_INVALID_VALUE => 1,
            CUresult::CUDA_ERROR_OUT_OF_MEMORY => 2,
            CUresult::CUDA_ERROR_NOT_INITIALIZED => 3,
            CUresult::CUDA_ERROR_DEINITIALIZED => 4,
            CUresult::CUDA_ERROR_PROFILER_DISABLED => 5,
            CUresult::CUDA_ERROR_PROFILER_NOT_INITIALIZED => 6,
            CUresult::CUDA_ERROR_PROFILER_ALREADY_STARTED => 7,
            CUresult::CUDA_ERROR_PROFILER_ALREADY_STOPPED => 8,
            CUresult::CUDA_ERROR_STUB_LIBRARY => 34,
            CUresult::CUDA_ERROR_DEVICE_UNAVAILABLE => 46,
            CUresult::CUDA_ERROR_NO_DEVICE => 100,
            CUresult::CUDA_ERROR_INVALID_DEVICE => 101,
            CUresult::CUDA_ERROR_DEVICE_NOT_LICENSED => 102,
            CUresult::CUDA_ERROR_INVALID_IMAGE => 200,
            CUresult::CUDA_ERROR_INVALID_CONTEXT => 201,
            CUresult::CUDA_ERROR_CONTEXT_ALREADY_CURRENT => 202,
            CUresult::CUDA_ERROR_MAP_FAILED => 205,
            CUresult::CUDA_ERROR_UNMAP_FAILED => 206,
            CUresult::CUDA_ERROR_ARRAY_IS_MAPPED => 207,
            CUresult::CUDA_ERROR_ALREADY_MAPPED => 208,
            CUresult::CUDA_ERROR_NO_BINARY_FOR_GPU => 209,
            CUresult::CUDA_ERROR_ALREADY_ACQUIRED => 210,
            CUresult::CUDA_ERROR_NOT_MAPPED => 211,
            CUresult::CUDA_ERROR_NOT_MAPPED_AS_ARRAY => 212,
            CUresult::CUDA_ERROR_NOT_MAPPED_AS_POINTER => 213,
            CUresult::CUDA_ERROR_ECC_UNCORRECTABLE => 214,
            CUresult::CUDA_ERROR_UNSUPPORTED_LIMIT => 215,
            CUresult::CUDA_ERROR_CONTEXT_ALREADY_IN_USE => 216,
            CUresult::CUDA_ERROR_PEER_ACCESS_UNSUPPORTED => 217,
            CUresult::CUDA_ERROR_INVALID_PTX => 218,
            CUresult::CUDA_ERROR_INVALID_GRAPHICS_CONTEXT => 219,
            CUresult::CUDA_ERROR_NVLINK_UNCORRECTABLE => 220,
            CUresult::CUDA_ERROR_JIT_COMPILER_NOT_FOUND => 221,
            CUresult::CUDA_ERROR_UNSUPPORTED_PTX_VERSION => 222,
            CUresult::CUDA_ERROR_JIT_COMPILATION_DISABLED => 223,
            CUresult::CUDA_ERROR_UNSUPPORTED_EXEC_AFFINITY => 224,
            CUresult::CUDA_ERROR_UNSUPPORTED_DEVSIDE_SYNC => 225,
            CUresult::CUDA_ERROR_INVALID_SOURCE => 300,
            CUresult::CUDA_ERROR_FILE_NOT_FOUND => 301,
            CUresult::CUDA_ERROR_SHARED_OBJECT_SYMBOL_NOT_FOUND => 302,
            CUresult::CUDA_ERROR_SHARED_OBJECT_INIT_FAILED => 303,
            CUresult::CUDA_ERROR_OPERATING_SYSTEM => 304,
            CUresult::CUDA_ERROR_INVALID_HANDLE => 400,
            CUresult::CUDA_ERROR_ILLEGAL_STATE => 401,
            CUresult::CUDA_ERROR_NOT_FOUND => 500,
            CUresult::CUDA_ERROR_NOT_READY => 600,
            CUresult::CUDA_ERROR_ILLEGAL_ADDRESS => 700,
            CUresult::CUDA_ERROR_LAUNCH_OUT_OF_RESOURCES => 701,
            CUresult::CUDA_ERROR_LAUNCH_TIMEOUT => 702,
            CUresult::CUDA_ERROR_LAUNCH_INCOMPATIBLE_TEXTURING => 703,
            CUresult::CUDA_ERROR_PEER_ACCESS_ALREADY_ENABLED => 704,
            CUresult::CUDA_ERROR_PEER_ACCESS_NOT_ENABLED => 705,
            CUresult::CUDA_ERROR_PRIMARY_CONTEXT_ACTIVE => 708,
            CUresult::CUDA_ERROR_CONTEXT_IS_DESTROYED => 709,
            CUresult::CUDA_ERROR_ASSERT => 710,
            CUresult::CUDA_ERROR_TOO_MANY_PEERS => 711,
            CUresult::CUDA_ERROR_HOST_MEMORY_ALREADY_REGISTERED => 712,
            CUresult::CUDA_ERROR_HOST_MEMORY_NOT_REGISTERED => 713,
            CUresult::CUDA_ERROR_HARDWARE_STACK_ERROR => 714,
            CUresult::CUDA_ERROR_ILLEGAL_INSTRUCTION => 715,
            CUresult::CUDA_ERROR_MISALIGNED_ADDRESS => 716,
            CUresult::CUDA_ERROR_INVALID_ADDRESS_SPACE => 717,
            CUresult::CUDA_ERROR_INVALID_PC => 718,
            CUresult::CUDA_ERROR_LAUNCH_FAILED => 719,
            CUresult::CUDA_ERROR_COOPERATIVE_LAUNCH_TOO_LARGE => 720,
            CUresult::CUDA_ERROR_NOT_PERMITTED => 800,
            CUresult::CUDA_ERROR_NOT_SUPPORTED => 801,
            CUresult::CUDA_ERROR_SYSTEM_NOT_READY => 802,
            CUresult::CUDA_ERROR_SYSTEM_DRIVER_MISMATCH => 803,
            CUresult::CUDA_ERROR_COMPAT_NOT_SUPPORTED_ON_DEVICE => 804,
            CUresult::CUDA_ERROR_MPS_CONNECTION_FAILED => 805,
            CUresult::CUDA_ERROR_MPS_RPC_FAILURE => 806,
            CUresult::CUDA_ERROR_MPS_SERVER_NOT_READY => 807,
            CUresult::CUDA_ERROR_MPS_MAX_CLIENTS_REACHED => 808,
            CUresult::CUDA_ERROR_MPS_MAX_CONNECTIONS_REACHED => 809,
            CUresult::CUDA_ERROR_MPS_CLIENT_TERMINATED => 810,
            CUresult::CUDA_ERROR_CDP_NOT_SUPPORTED => 811,
            CUresult::CUDA_ERROR_CDP_VERSION_MISMATCH => 812,
            CUresult::CUDA_ERROR_STREAM_CAPTURE_UNSUPPORTED => 900,
            CUresult::CUDA_ERROR_STREAM_CAPTURE_INVALIDATED => 901,
            CUresult::CUDA_ERROR_STREAM_CAPTURE_MERGE => 902,
            CUresult::CUDA_ERROR_STREAM_CAPTURE_UNMATCHED => 903,
            CUresult::CUDA_ERROR_STREAM_CAPTURE_UNJOINED => 904,
            CUresult::CUDA_ERROR_STREAM_CAPTURE_ISOLATION => 905,
            CUresult::CUDA_ERROR_STREAM_CAPTURE_IMPLICIT => 906,
            CUresult::CUDA_ERROR_CAPTURED_EVENT => 907,
            CUresult::CUDA_ERROR_STREAM_CAPTURE_WRONG_THREAD => 908,
            CUresult::CUDA_ERROR_TIMEOUT => 909,
            CUresult::CUDA_ERROR_GRAPH_EXEC_UPDATE_FAILURE => 910,
            CUresult::CUDA_ERROR_EXTERNAL_DEVICE => 911,
            CUresult::CUDA_ERROR_INVALID_CLUSTER_SIZE => 912,
            CUresult::CUDA_ERROR_UNKNOWN => 999,
        }
    }

    /// The status code that a raw native value encodes, if it is recognized.
    pub open spec fn from_code_spec(code: i32) -> Option<CUresult> {
        match code {
            0 => Some(CUresult::CUDA_SUCCESS),
            1 => Some(CUresult::CUDA_ERROR_INVALID_VALUE),
            2 => Some(CUresult::CUDA_ERROR_OUT_OF_MEMORY),
            3 => Some(CUresult::CUDA_ERROR_NOT_INITIALIZED),
            4 => Some(CUresult::CUDA_ERROR_DEINITIALIZED),
            5 => Some(CUresult::CUDA_ERROR_PROFILER_DISABLED),
            6 => Some(CUresult::CUDA_ERROR_PROFILER_NOT_INITIALIZED),
            7 => Some(CUresult::CUDA_ERROR_PROFILER_ALREADY_STARTED),
            8 => Some(CUresult::CUDA_ERROR_PROFILER_ALREADY_STOPPED),
            34 => Some(CUresult::CUDA_ERROR_STUB_LIBRARY),
            46 => Some(CUresult::CUDA_ERROR_DEVICE_UNAVAILABLE),
            100 => Some(CUresult::CUDA_ERROR_NO_DEVICE),
            101 => Some(CUresult::CUDA_ERROR_INVALID_DEVICE),
            102 => Some(CUresult::CUDA_ERROR_DEVICE_NOT_LICENSED),
            200 => Some(CUresult::CUDA_ERROR_INVALID_IMAGE),
            201 => Some(CUresult::CUDA_ERROR_INVALID_CONTEXT),
            202 => Some(CUresult::CUDA_ERROR_CONTEXT_ALREADY_CURRENT),
            205 => Some(CUresult::CUDA_ERROR_MAP_FAILED),
            206 => Some(CUresult::CUDA_ERROR_UNMAP_FAILED),
            207 => Some(CUresult::CUDA_ERROR_ARRAY_IS_MAPPED),
            208 => Some(CUresult::CUDA_ERROR_ALREADY_MAPPED),
            209 => Some(CUresult::CUDA_ERROR_NO_BINARY_FOR_GPU),
            210 => Some(CUresult::CUDA_ERROR_ALREADY_ACQUIRED),
            211 => Some(CUresult::CUDA_ERROR_NOT_MAPPED),
            212 => Some(CUresult::CUDA_ERROR_NOT_MAPPED_AS_ARRAY),
            213 => Some(CUresult::CUDA_ERROR_NOT_MAPPED_AS_POINTER),
            214 => Some(CUresult::CUDA_ERROR_ECC_UNCORRECTABLE),
            215 => Some(CUresult::CUDA_ERROR_UNSUPPORTED_LIMIT),
            216 => Some(CUresult::CUDA_ERROR_CONTEXT_ALREADY_IN_USE),
            217 => Some(CUresult::CUDA_ERROR_PEER_ACCESS_UNSUPPORTED),
            218 => Some(CUresult::CUDA_ERROR_INVALID_PTX),
            219 => Some(CUresult::CUDA_ERROR_INVALID_GRAPHICS_CONTEXT),
            220 => Some(CUresult::CUDA_ERROR_NVLINK_UNCORRECTABLE),
            221 => Some(CUresult::CUDA_ERROR_JIT_COMPILER_NOT_FOUND),
            222 => Some(CUresult::CUDA_ERROR_UNSUPPORTED_PTX_VERSION),
            223 => Some(CUresult::CUDA_ERROR_JIT_COMPILATION_DISABLED),
            224 => Some(CUresult::CUDA_ERROR_UNSUPPORTED_EXEC_AFFINITY),
            225 => Some(CUresult::CUDA_ERROR_UNSUPPORTED_DEVSIDE_SYNC),
            300 => Some(CUresult::CUDA_ERROR_INVALID_SOURCE),
            301 => Some(CUresult::CUDA_ERROR_FILE_NOT_FOUND),
            302 => Some(CUresult::CUDA_ERROR_SHARED_OBJECT_SYMBOL_NOT_FOUND),
            303 => Some(CUresult::CUDA_ERROR_SHARED_OBJECT_INIT_FAILED),
            304 => Some(CUresult::CUDA_ERROR_OPERATING_SYSTEM),
            400 => Some(CUresult::CUDA_ERROR_INVALID_HANDLE),
            401 => Some(CUresult::CUDA_ERROR_ILLEGAL_STATE),
            500 => Some(CUresult::CUDA_ERROR_NOT_FOUND),
            600 => Some(CUresult::CUDA_ERROR_NOT_READY),
            700 => Some(CUresult::CUDA_ERROR_ILLEGAL_ADDRESS),
            701 => Some(CUresult::CUDA_ERROR_LAUNCH_OUT_OF_RESOURCES),
            702 => Some(CUresult::CUDA_ERROR_LAUNCH_TIMEOUT),
            703 => Some(CUresult::CUDA_ERROR_LAUNCH_INCOMPATIBLE_TEXTURING),
            704 => Some(CUresult::CUDA_ERROR_PEER_ACCESS_ALREADY_ENABLED),
            705 => Some(CUresult::CUDA_ERROR_PEER_ACCESS_NOT_ENABLED),
            708 => Some(CUresult::CUDA_ERROR_PRIMARY_CONTEXT_ACTIVE),
            709 => Some(CUresult::CUDA_ERROR_CONTEXT_IS_DESTROYED),
            710 => Some(CUresult::CUDA_ERROR_ASSERT),
            711 => Some(CUresult::CUDA_ERROR_TOO_MANY_PEERS),
            712 => Some(CUresult::CUDA_ERROR_HOST_MEMORY_ALREADY_REGISTERED),
            713 => Some(CUresult::CUDA_ERROR_HOST_MEMORY_NOT_REGISTERED),
            714 => Some(CUresult::CUDA_ERROR_HARDWARE_STACK_ERROR),
            715 => Some(CUresult::CUDA_ERROR_ILLEGAL_INSTRUCTION),
            716 => Some(CUresult::CUDA_ERROR_MISALIGNED_ADDRESS),
            717 => Some(CUresult::CUDA_ERROR_INVALID_ADDRESS_SPACE),
            718 => Some(CUresult::CUDA_ERROR_INVALID_PC),
            719 => Some(CUresult::CUDA_ERROR_LAUNCH_FAILED),
            720 => Some(CUresult::CUDA_ERROR_COOPERATIVE_LAUNCH_TOO_LARGE),
            800 => Some(CUresult::CUDA_ERROR_NOT_PERMITTED),
            801 => Some(CUresult::CUDA_ERROR_NOT_SUPPORTED),
            802 => Some(CUresult::CUDA_ERROR_SYSTEM_NOT_READY),
            803 => Some(CUresult::CUDA_ERROR_SYSTEM_DRIVER_MISMATCH),
            804 => Some(CUresult::CUDA_ERROR_COMPAT_NOT_SUPPORTED_ON_DEVICE),
            805 => Some(CUresult::CUDA_ERROR_MPS_CONNECTION_FAILED),
            806 => Some(CUresult::CUDA_ERROR_MPS_RPC_FAILURE),
            807 => Some(CUresult::CUDA_ERROR_MPS_SERVER_NOT_READY),
            808 => Some(CUresult::CUDA_ERROR_MPS_MAX_CLIENTS_REACHED),
            809 => Some(CUresult::CUDA_ERROR_MPS_MAX_CONNECTIONS_REACHED),
            810 => Some(CUresult::CUDA_ERROR_MPS_CLIENT_TERMINATED),
            811 => Some(CUresult::CUDA_ERROR_CDP_NOT_SUPPORTED),
            812 => Some(CUresult::CUDA_ERROR_CDP_VERSION_MISMATCH),
            900 => Some(CUresult::CUDA_ERROR_STREAM_CAPTURE_UNSUPPORTED),
            901 => Some(CUresult::CUDA_ERROR_STREAM_CAPTURE_INVALIDATED),
            902 => Some(CUresult::CUDA_ERROR_STREAM_CAPTURE_MERGE),
            903 => Some(CUresult::CUDA_ERROR_STREAM_CAPTURE_UNMATCHED),
            904 => Some(CUresult::CUDA_ERROR_STREAM_CAPTURE_UNJOINED),
            905 => Some(CUresult::CUDA_ERROR_STREAM_CAPTURE_ISOLATION),
            906 => Some(CUresult::CUDA_ERROR_STREAM_CAPTURE_IMPLICIT),
            907 => Some(CUresult::CUDA_ERROR_CAPTURED_EVENT),
            908 => Some(CUresult::CUDA_ERROR_STREAM_CAPTURE_WRONG_THREAD),
            909 => Some(CUresult::CUDA_ERROR_TIMEOUT),
            910 => Some(CUresult::CUDA_ERROR_GRAPH_EXEC_UPDATE_FAILURE),
            911 => Some(CUresult::CUDA_ERROR_EXTERNAL_DEVICE),
            912 => Some(CUresult::CUDA_ERROR_INVALID_CLUSTER_SIZE),
            999 => Some(CUresult::CUDA_ERROR_UNKNOWN),
            _ => None,
        }
    }

    /// The status code that a raw native value encodes, if it is recognized.
    pub fn from_code(code: i32) -> (r: Option<CUresult>)
        ensures
            r == Self::from_code_spec(code),
    {
        match code {
            0 => Some(CUresult::CUDA_SUCCESS),
            1 => Some(CUresult::CUDA_ERROR_INVALID_VALUE),
            2 => Some(CUresult::CUDA_ERROR_OUT_OF_MEMORY),
            3 => Some(CUresult::CUDA_ERROR_NOT_INITIALIZED),
            4 => Some(CUresult::CUDA_ERROR_DEINITIALIZED),
            5 => Some(CUresult::CUDA_ERROR_PROFILER_DISABLED),
            6 => Some(CUresult::CUDA_ERROR_PROFILER_NOT_INITIALIZED),
            7 => Some(CUresult::CUDA_ERROR_PROFILER_ALREADY_STARTED),
            8 => Some(CUresult::CUDA_ERROR_PROFILER_ALREADY_STOPPED),
            34 => Some(CUresult::CUDA_ERROR_STUB_LIBRARY),
            46 => Some(CUresult::CUDA_ERROR_DEVICE_UNAVAILABLE),
            100 => Some(CUresult::CUDA_ERROR_NO_DEVICE),
            101 => Some(CUresult::CUDA_ERROR_INVALID_DEVICE),
            102 => Some(CUresult::CUDA_ERROR_DEVICE_NOT_LICENSED),
            200 => Some(CUresult::CUDA_ERROR_INVALID_IMAGE),
            201 => Some(CUresult::CUDA_ERROR_INVALID_CONTEXT),
            202 => Some(CUresult::CUDA_ERROR_CONTEXT_ALREADY_CURRENT),
            205 => Some(CUresult::CUDA_ERROR_MAP_FAILED),
            206 => Some(CUresult::CUDA_ERROR_UNMAP_FAILED),
            207 => Some(CUresult::CUDA_ERROR_ARRAY_IS_MAPPED),
            208 => Some(CUresult::CUDA_ERROR_ALREADY_MAPPED),
            209 => Some(CUresult::CUDA_ERROR_NO_BINARY_FOR_GPU),
            210 => Some(CUresult::CUDA_ERROR_ALREADY_ACQUIRED),
            211 => Some(CUresult::CUDA_ERROR_NOT_MAPPED),
            212 => Some(CUresult::CUDA_ERROR_NOT_MAPPED_AS_ARRAY),
            213 => Some(CUresult::CUDA_ERROR_NOT_MAPPED_AS_POINTER),
            214 => Some(CUresult::CUDA_ERROR_ECC_UNCORRECTABLE),
            215 => Some(CUresult::CUDA_ERROR_UNSUPPORTED_LIMIT),
            216 => Some(CUresult::CUDA_ERROR_CONTEXT_ALREADY_IN_USE),
            217 => Some(CUresult::CUDA_ERROR_PEER_ACCESS_UNSUPPORTED),
            218 => Some(CUresult::CUDA_ERROR_INVALID_PTX),
            219 => Some(CUresult::CUDA_ERROR_INVALID_GRAPHICS_CONTEXT),
            220 => Some(CUresult::CUDA_ERROR_NVLINK_UNCORRECTABLE),
            221 => Some(CUresult::CUDA_ERROR_JIT_COMPILER_NOT_FOUND),
            222 => Some(CUresult::CUDA_ERROR_UNSUPPORTED_PTX_VERSION),
            223 => Some(CUresult::CUDA_ERROR_JIT_COMPILATION_DISABLED),
            224 => Some(CUresult::CUDA_ERROR_UNSUPPORTED_EXEC_AFFINITY),
            225 => Some(CUresult::CUDA_ERROR_UNSUPPORTED_DEVSIDE_SYNC),
            300 => Some(CUresult::CUDA_ERROR_INVALID_SOURCE),
            301 => Some(CUresult::CUDA_ERROR_FILE_NOT_FOUND),
            302 => Some(CUresult::CUDA_ERROR_SHARED_OBJECT_SYMBOL_NOT_FOUND),
            303 => Some(CUresult::CUDA_ERROR_SHARED_OBJECT_INIT_FAILED),
            304 => Some(CUresult::CUDA_ERROR_OPERATING_SYSTEM),
            400 => Some(CUresult::CUDA_ERROR_INVALID_HANDLE),
            401 => Some(CUresult::CUDA_ERROR_ILLEGAL_STATE),
            500 => Some(CUresult::CUDA_ERROR_NOT_FOUND),
            600 => Some(CUresult::CUDA_ERROR_NOT_READY),
            700 => Some(CUresult::CUDA_ERROR_ILLEGAL_ADDRESS),
            701 => Some(CUresult::CUDA_ERROR_LAUNCH_OUT_OF_RESOURCES),
            702 => Some(CUresult::CUDA_ERROR_LAUNCH_TIMEOUT),
            703 => Some(CUresult::CUDA_ERROR_LAUNCH_INCOMPATIBLE_TEXTURING),
            704 => Some(CUresult::CUDA_ERROR_PEER_ACCESS_ALREADY_ENABLED),
            705 => Some(CUresult::CUDA_ERROR_PEER_ACCESS_NOT_ENABLED),
            708 => Some(CUresult::CUDA_ERROR_PRIMARY_CONTEXT_ACTIVE),
            709 => Some(CUresult::CUDA_ERROR_CONTEXT_IS_DESTROYED),
            710 => Some(CUresult::CUDA_ERROR_ASSERT),
            711 => Some(CUresult::CUDA_ERROR_TOO_MANY_PEERS),
            712 => Some(CUresult::CUDA_ERROR_HOST_MEMORY_ALREADY_REGISTERED),
            713 => Some(CUresult::CUDA_ERROR_HOST_MEMORY_NOT_REGISTERED),
            714 => Some(CUresult::CUDA_ERROR_HARDWARE_STACK_ERROR),
            715 => Some(CUresult::CUDA_ERROR_ILLEGAL_INSTRUCTION),
            716 => Some(CUresult::CUDA_ERROR_MISALIGNED_ADDRESS),
            717 => Some(CUresult::CUDA_ERROR_INVALID_ADDRESS_SPACE),
            718 => Some(CUresult::CUDA_ERROR_INVALID_PC),
            719 => Some(CUresult::CUDA_ERROR_LAUNCH_FAILED),
            720 => Some(CUresult::CUDA_ERROR_COOPERATIVE_LAUNCH_TOO_LARGE),
            800 => Some(CUresult::CUDA_ERROR_NOT_PERMITTED),
            801 => Some(CUresult::CUDA_ERROR_NOT_SUPPORTED),
            802 => Some(CUresult::CUDA_ERROR_SYSTEM_NOT_READY),
            803 => Some(CUresult::CUDA_ERROR_SYSTEM_DRIVER_MISMATCH),
            804 => Some(CUresult::CUDA_ERROR_COMPAT_NOT_SUPPORTED_ON_DEVICE),
            805 => Some(CUresult::CUDA_ERROR_MPS_CONNECTION_FAILED),
            806 => Some(CUresult::CUDA_ERROR_MPS_RPC_FAILURE),
            807 => Some(CUresult::CUDA_ERROR_MPS_SERVER_NOT_READY),
            808 => Some(CUresult::CUDA_ERROR_MPS_MAX_CLIENTS_REACHED),
            809 => Some(CUresult::CUDA_ERROR_MPS_MAX_CONNECTIONS_REACHED),
            810 => Some(CUresult::CUDA_ERROR_MPS_CLIENT_TERMINATED),
            811 => Some(CUresult::CUDA_ERROR_CDP_NOT_SUPPORTED),
            812 => Some(CUresult::CUDA_ERROR_CDP_VERSION_MISMATCH),
            900 => Some(CUresult::CUDA_ERROR_STREAM_CAPTURE_UNSUPPORTED),
            901 => Some(CUresult::CUDA_ERROR_STREAM_CAPTURE_INVALIDATED),
            902 => Some(CUresult::CUDA_ERROR_STREAM_CAPTURE_MERGE),
            903 => Some(CUresult::CUDA_ERROR_STREAM_CAPTURE_UNMATCHED),
            904 => Some(CUresult::CUDA_ERROR_STREAM_CAPTURE_UNJOINED),
            905 => Some(CUresult::CUDA_ERROR_STREAM_CAPTURE_ISOLATION),
            906 => Some(CUresult::CUDA_ERROR_STREAM_CAPTURE_IMPLICIT),
            907 => Some(CUresult::CUDA_ERROR_CAPTURED_EVENT),
            908 => Some(CUresult::CUDA_ERROR_STREAM_CAPTURE_WRONG_THREAD),
            909 => Some(CUresult::CUDA_ERROR_TIMEOUT),
            910 => Some(CUresult::CUDA_ERROR_GRAPH_EXEC_UPDATE_FAILURE),
            911 => Some(CUresult::CUDA_ERROR_EXTERNAL_DEVICE),
            912 => Some(CUresult::CUDA_ERROR_INVALID_CLUSTER_SIZE),
            999 => Some(CUresult::CUDA_ERROR_UNKNOWN),
            _ => None,
        }
    }

    /// Map this status code into the structured error taxonomy: success
    /// becomes `Ok`, the dedicated status classes become their own error
    /// kinds, and every other recognized code is carried as `NativeResult`.
    pub fn check(self) -> (res: Result<(), CUError>)
        ensures
            res == check_spec(self),
    {
        match self {
            CUresult::CUDA_SUCCESS => Ok(()),
            CUresult::CUDA_ERROR_INVALID_VALUE => Err(CUError::InvalidValue),
            CUresult::CUDA_ERROR_OUT_OF_MEMORY => Err(CUError::OutOfMemory),
            CUresult::CUDA_ERROR_NOT_INITIALIZED => Err(CUError::NotInitialized),
            CUresult::CUDA_ERROR_DEINITIALIZED => Err(CUError::Deinitialized),
            CUresult::CUDA_ERROR_NO_DEVICE => Err(CUError::NoDevice),
            CUresult::CUDA_ERROR_INVALID_DEVICE => Err(CUError::InvalidDevice),
            _ => Err(CUError::NativeResult(self.code())),
        }
    }
}

/// The device attributes that the registry reads at discovery, together with
/// the further attributes the native catalog names. `attribute_id` gives the
/// numeric identifier that the native attribute query expects.
#[allow(non_camel_case_types)]
#[derive(Clone, Copy, Debug, PartialEq, Eq, Structural)]
pub enum CUAttribute {
    CU_DEVICE_ATTRIBUTE_COMPUTE_CAPABILITY_MAJOR,
    CU_DEVICE_ATTRIBUTE_COMPUTE_CAPABILITY_MINOR,
    CU_DEVICE_ATTRIBUTE_MAX_SHARED_MEMORY_PER_BLOCK_OPTIN,
    CU_DEVICE_ATTRIBUTE_MEMORY_POOLS_SUPPORTED,
    CU_DEVICE_ATTRIBUTE_MULTIPROCESSOR_COUNT,
    CU_DEVICE_ATTRIBUTE_PCI_BUS_ID,
    CU_DEVICE_ATTRIBUTE_PCI_DEVICE_ID,
    CU_DEVICE_ATTRIBUTE_PCI_DOMAIN_ID,
    CU_DEVICE_ATTRIBUTE_UNIFIED_ADDRESSING,
    CU_DEVICE_ATTRIBUTE_TCC_DRIVER,
    CU_DEVICE_ATTRIBUTE_COMPUTE_PREEMPTION_SUPPORTED,
}

impl CUAttribute {
    /// The numeric identifier of this attribute in the native interface.
    pub open spec fn attribute_id_spec(self) -> i32 {
        match self {
            CUAttribute::CU_DEVICE_ATTRIBUTE_COMPUTE_CAPABILITY_MAJOR => 75,
            CUAttribute::CU_DEVICE_ATTRIBUTE_COMPUTE_CAPABILITY_MINOR => 76,
            CUAttribute::CU_DEVICE_ATTRIBUTE_MAX_SHARED_MEMORY_PER_BLOCK_OPTIN => 97,
            CUAttribute::CU_DEVICE_ATTRIBUTE_MEMORY_POOLS_SUPPORTED => 115,
            CUAttribute::CU_DEVICE_ATTRIBUTE_MULTIPROCESSOR_COUNT => 16,
            CUAttribute::CU_DEVICE_ATTRIBUTE_PCI_BUS_ID => 33,
            CUAttribute::CU_DEVICE_ATTRIBUTE_PCI_DEVICE_ID => 34,
            CUAttribute::CU_DEVICE_ATTRIBUTE_PCI_DOMAIN_ID => 50,
            CUAttribute::CU_DEVICE_ATTRIBUTE_UNIFIED_ADDRESSING => 41,
            CUAttribute::CU_DEVICE_ATTRIBUTE_TCC_DRIVER => 35,
            CUAttribute::CU_DEVICE_ATTRIBUTE_COMPUTE_PREEMPTION_SUPPORTED => 90,
        }
    }

    /// The numeric identifier of this attribute in the native interface.
    pub fn attribute_id(self) -> (id: i32)
        ensures
            id == self.attribute_id_spec(),
    {
        match self {
            CUAttribute::CU_DEVICE_ATTRIBUTE_COMPUTE_CAPABILITY_MAJOR => 75,
            CUAttribute::CU_DEVICE_ATTRIBUTE_COMPUTE_CAPABILITY_MINOR => 76,
            CUAttribute::CU_DEVICE_ATTRIBUTE_MAX_SHARED_MEMORY_PER_BLOCK_OPTIN => 97,
            CUAttribute::CU_DEVICE_ATTRIBUTE_MEMORY_POOLS_SUPPORTED => 115,
            CUAttribute::CU_DEVICE_ATTRIBUTE_MULTIPROCESSOR_COUNT => 16,
            CUAttribute::CU_DEVICE_ATTRIBUTE_PCI_BUS_ID => 33,
            CUAttribute::CU_DEVICE_ATTRIBUTE_PCI_DEVICE_ID => 34,
            CUAttribute::CU_DEVICE_ATTRIBUTE_PCI_DOMAIN_ID => 50,
            CUAttribute::CU_DEVICE_ATTRIBUTE_UNIFIED_ADDRESSING => 41,
            CUAttribute::CU_DEVICE_ATTRIBUTE_TCC_DRIVER => 35,
            CUAttribute::CU_DEVICE_ATTRIBUTE_COMPUTE_PREEMPTION_SUPPORTED => 90,
        }
    }
}

/// Just-in-time linker input blob kind: PTX assembly text.
pub const CU_JIT_INPUT_PTX: i32 = 1;

/// Just-in-time linker option: address of the informational log buffer.
pub const CU_JIT_INFO_LOG_BUFFER: i32 = 3;

/// Just-in-time linker option: capacity of the informational log buffer.
pub const CU_JIT_INFO_LOG_BUFFER_SIZE_BYTES: i32 = 4;

/// Just-in-time linker option: address of the error log buffer.
pub const CU_JIT_ERROR_LOG_BUFFER: i32 = 5;

/// Just-in-time linker option: capacity of the error log buffer.
pub const CU_JIT_ERROR_LOG_BUFFER_SIZE_BYTES: i32 = 6;

/// Just-in-time linker option: optimization level, 0 through 4.
pub const CU_JIT_OPTIMIZATION_LEVEL: i32 = 7;

/// Just-in-time linker option: generate debug information.
pub const CU_JIT_GENERATE_DEBUG_INFO: i32 = 11;

/// Just-in-time linker option: verbose logging.
pub const CU_JIT_LOG_VERBOSE: i32 = 12;

/// Just-in-time linker option: generate line number information.
pub const CU_JIT_GENERATE_LINE_INFO: i32 = 13;

} // verus!
