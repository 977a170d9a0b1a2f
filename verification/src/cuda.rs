//! The driver handle, the device registry, and device memory buffers.
//!
//! `CUDA` negotiates the driver version and device count once per process.
//! Opening a device runs a fixed, deterministic sequence of native queries:
//! `Device::create` validates the ordinal and returns a [`DeviceBuilder`],
//! which names each query in order, records each observed value, and aborts
//! on the first failure, surfacing that query's error — no partial device is
//! ever produced. A finished [`Device`] owns exactly one retain on its
//! primary context, given back by consuming the device. A [`Buffer`] owns
//! one device memory allocation, given back the same way, so each teardown
//! call is owed exactly once.
//!
//! Enumeration of the registry is re-running this discovery for each ordinal
//! in `0 .. device_count`: every open is a fresh snapshot, and a later open
//! may observe a changed device set.

use vstd::prelude::*;

use crate::cuda_api::{CUAttribute, CUcontext};
use crate::cuda_result::{status_result, status_to_result, CUError};
use crate::text::{bounded_text, extract_text};

verus! {

/// The lowest driver major version the core supports.
pub const MIN_SUPPORTED_MAJOR: i32 = 10;

/// The major component of a reported driver version: thousands, with the
/// sign of the report.
pub open spec fn version_major_of(v: i32) -> int {
    if v >= 0 {
        (v as int) / 1000
    } else {
        -((-(v as int)) / 1000)
    }
}

/// The minor component of a reported driver version: the hundreds and tens,
/// with the sign of the report.
pub open spec fn version_minor_of(v: i32) -> int {
    if v >= 0 {
        ((v as int) % 1000) / 10
    } else {
        -(((-(v as int)) % 1000) / 10)
    }
}

/// Split a reported driver version into its major and minor components.
pub fn split_version(v: i32) -> (mm: (i32, i32))
    ensures
        mm.0 == version_major_of(v),
        mm.1 == version_minor_of(v),
{
    let n: u64 = if v >= 0 {
        v as u64
    } else {
        (-(v as i64)) as u64
    };
    proof {
        if v >= 0 {
            assert(n == v as int);
        } else {
            assert(n == -(v as int));
        }
    }
    let major_abs: i32 = (n / 1000) as i32;
    let minor_abs: i32 = ((n % 1000) / 10) as i32;
    if v >= 0 {
        (major_abs, minor_abs)
    } else {
        (-major_abs, -minor_abs)
    }
}

/// The process-wide driver handle: the negotiated driver version and the
/// number of devices the driver reported. Created once at startup — native
/// initialization is a single call per process by convention — and shared
/// read-only by everything downstream, so concurrent reads are safe.
pub struct CUDA {
    version_major: i32,
    version_minor: i32,
    device_count: i32,
}

impl CUDA {
    /// The negotiated driver version, as `(major, minor)`.
    pub closed spec fn spec_version(self) -> (i32, i32) {
        (self.version_major, self.version_minor)
    }

    /// The device count the driver reported at initialization.
    pub closed spec fn spec_device_count(self) -> i32 {
        self.device_count
    }

    /// Every constructed handle has a supported version and a device.
    pub open spec fn wf(self) -> bool {
        self.spec_version().0 >= MIN_SUPPORTED_MAJOR && self.spec_device_count() >= 1
    }

    /// What driver initialization decides, given what the native layer
    /// reported: whether the library loaded, the init status, the raw
    /// driver version, and the device count. Checked in that order, with
    /// the version gate ahead of the device count, so an unsupported
    /// driver is rejected before any device is looked at.
    pub closed spec fn create_result(
        load_ok: bool,
        init_status: i32,
        driver_version: i32,
        device_count: i32,
    ) -> Result<CUDA, CUError> {
        if !load_ok {
            Err(CUError::DriverUnavailable)
        } else if init_status != 0 {
            Err(CUError::InitFailed(init_status))
        } else if version_major_of(driver_version) < MIN_SUPPORTED_MAJOR {
            Err(
                CUError::UnsupportedVersion(
                    version_major_of(driver_version) as i32,
                    version_minor_of(driver_version) as i32,
                ),
            )
        } else if device_count < 1 {
            Err(CUError::NoDevice)
        } else {
            Ok(
                CUDA {
                    version_major: version_major_of(driver_version) as i32,
                    version_minor: version_minor_of(driver_version) as i32,
                    device_count,
                },
            )
        }
    }

    /// Initialize the driver handle from what the native layer reported:
    /// whether the driver library could be loaded, the status of the native
    /// init call, the raw driver version, and the device count.
    pub fn create(load_ok: bool, init_status: i32, driver_version: i32, device_count: i32) -> (r:
        Result<CUDA, CUError>)
        ensures
            r == Self::create_result(load_ok, init_status, driver_version, device_count),
            !load_ok ==> r == Err::<CUDA, CUError>(CUError::DriverUnavailable),
            load_ok && init_status != 0 ==> r == Err::<CUDA, CUError>(
                CUError::InitFailed(init_status),
            ),
            load_ok && init_status == 0 && version_major_of(driver_version) < MIN_SUPPORTED_MAJOR
                ==> r == Err::<CUDA, CUError>(
                CUError::UnsupportedVersion(
                    version_major_of(driver_version) as i32,
                    version_minor_of(driver_version) as i32,
                ),
            ),
            load_ok && init_status == 0 && version_major_of(driver_version) >= MIN_SUPPORTED_MAJOR
                && device_count < 1 ==> r == Err::<CUDA, CUError>(CUError::NoDevice),
            r is Ok <==> load_ok && init_status == 0 && version_major_of(driver_version)
                >= MIN_SUPPORTED_MAJOR && device_count >= 1,
            r matches Ok(c) ==> c.wf() && c.spec_device_count() == device_count && c.spec_version()
                == (version_major_of(driver_version) as i32, version_minor_of(driver_version) as i32),
    {
        if !load_ok {
            return Err(CUError::DriverUnavailable);
        }
        if init_status != 0 {
            return Err(CUError::InitFailed(init_status));
        }
        let (major, minor) = split_version(driver_version);
        if major < MIN_SUPPORTED_MAJOR {
            return Err(CUError::UnsupportedVersion(major, minor));
        }
        if device_count < 1 {
            return Err(CUError::NoDevice);
        }
        Ok(CUDA { version_major: major, version_minor: minor, device_count })
    }

    /// The device count the driver reported at initialization.
    pub fn device_count(&self) -> (n: i32)
        ensures
            n == self.spec_device_count(),
    {
        self.device_count
    }

    /// The negotiated driver version, as `(major, minor)`.
    pub fn version(&self) -> (v: (i32, i32))
        ensures
            v == self.spec_version(),
    {
        (self.version_major, self.version_minor)
    }
}

/// A driver that reports a version whose major component is below the
/// supported minimum is rejected as `UnsupportedVersion`, whatever device
/// count it would have reported: initialization never reaches the device
/// count gate, so no device enumeration follows.
pub proof fn lemma_unsupported_version_rejected(driver_version: i32, device_count: i32)
    requires
        version_major_of(driver_version) < MIN_SUPPORTED_MAJOR,
    ensures
        CUDA::create_result(true, 0, driver_version, device_count) == Err::<CUDA, CUError>(
            CUError::UnsupportedVersion(
                version_major_of(driver_version) as i32,
                version_minor_of(driver_version) as i32,
            ),
        ),
{
}

/// An immutable snapshot of one physical device, captured at discovery and
/// never mutated afterwards.
#[derive(Clone, Debug)]
pub struct DeviceDescriptor {
    /// The ordinal the device was opened at.
    pub id: i32,
    /// PCI bus identifier.
    pub pci_bus_id: i32,
    /// PCI domain identifier.
    pub pci_dom_id: i32,
    /// PCI device identifier.
    pub pci_dev_id: i32,
    /// Number of multiprocessors.
    pub num_sm: i32,
    /// Whether the device shares a unified address space with the host.
    pub unified_addr: i32,
    /// Opt-in shared memory limit per block, in bytes.
    pub shared_memory_bytes: i32,
    /// Compute capability, minor component.
    pub cc_minor: i32,
    /// Compute capability, major component.
    pub cc_major: i32,
    /// Total device memory, in bytes.
    pub mem_total: u64,
    /// Display name: the bytes the driver wrote before its first NUL.
    pub name: Vec<u8>,
}

/// One native query of the device discovery sequence, named so that the
/// caller can perform it and hand back the observation.
#[derive(Clone, Copy, Debug, PartialEq, Eq, Structural)]
pub enum DeviceQuery {
    /// Retain the device's primary context.
    RetainContext,
    /// Read the display name into a caller-provided byte buffer.
    Name,
    /// Read one numeric device attribute.
    Attribute(CUAttribute),
    /// Read the total device memory.
    TotalMem,
}

/// The fixed, deterministic discovery order: context retain first, then the
/// display name, then the attributes — PCI bus, PCI device, PCI domain,
/// multiprocessor count, unified addressing, opt-in shared memory limit,
/// compute capability minor, compute capability major — then total memory.
pub open spec fn query_at(step: u8) -> Option<DeviceQuery> {
    if step == 0 {
        Some(DeviceQuery::RetainContext)
    } else if step == 1 {
        Some(DeviceQuery::Name)
    } else if step == 2 {
        Some(DeviceQuery::Attribute(CUAttribute::CU_DEVICE_ATTRIBUTE_PCI_BUS_ID))
    } else if step == 3 {
        Some(DeviceQuery::Attribute(CUAttribute::CU_DEVICE_ATTRIBUTE_PCI_DEVICE_ID))
    } else if step == 4 {
        Some(DeviceQuery::Attribute(CUAttribute::CU_DEVICE_ATTRIBUTE_PCI_DOMAIN_ID))
    } else if step == 5 {
        Some(DeviceQuery::Attribute(CUAttribute::CU_DEVICE_ATTRIBUTE_MULTIPROCESSOR_COUNT))
    } else if step == 6 {
        Some(DeviceQuery::Attribute(CUAttribute::CU_DEVICE_ATTRIBUTE_UNIFIED_ADDRESSING))
    } else if step == 7 {
        Some(
            DeviceQuery::Attribute(CUAttribute::CU_DEVICE_ATTRIBUTE_MAX_SHARED_MEMORY_PER_BLOCK_OPTIN),
        )
    } else if step == 8 {
        Some(DeviceQuery::Attribute(CUAttribute::CU_DEVICE_ATTRIBUTE_COMPUTE_CAPABILITY_MINOR))
    } else if step == 9 {
        Some(DeviceQuery::Attribute(CUAttribute::CU_DEVICE_ATTRIBUTE_COMPUTE_CAPABILITY_MAJOR))
    } else if step == 10 {
        Some(DeviceQuery::TotalMem)
    } else {
        None
    }
}

/// The step index of the last attribute query.
pub const LAST_ATTRIBUTE_STEP: u8 = 9;

/// The descriptor `d` with the value `v` recorded for the attribute queried
/// at `step`, everything else unchanged.
pub open spec fn attr_updated(d: DeviceDescriptor, step: u8, v: i32) -> DeviceDescriptor {
    if step == 2 {
        DeviceDescriptor { pci_bus_id: v, ..d }
    } else if step == 3 {
        DeviceDescriptor { pci_dev_id: v, ..d }
    } else if step == 4 {
        DeviceDescriptor { pci_dom_id: v, ..d }
    } else if step == 5 {
        DeviceDescriptor { num_sm: v, ..d }
    } else if step == 6 {
        DeviceDescriptor { unified_addr: v, ..d }
    } else if step == 7 {
        DeviceDescriptor { shared_memory_bytes: v, ..d }
    } else if step == 8 {
        DeviceDescriptor { cc_minor: v, ..d }
    } else {
        DeviceDescriptor { cc_major: v, ..d }
    }
}

/// Sequences the device discovery queries: it names the pending query,
/// records each observation, and aborts on the first native failure — the
/// error of exactly that query is surfaced and no partial device escapes.
pub struct DeviceBuilder {
    step: u8,
    failed: bool,
    retained: bool,
    context: CUcontext,
    desc: DeviceDescriptor,
}

impl DeviceBuilder {
    /// The discovery step this builder is at: `0` through `10` are the
    /// queries of the fixed order, `11` means every query has succeeded.
    pub closed spec fn spec_step(self) -> u8 {
        self.step
    }

    /// Whether a query has failed: a failed builder runs no further query.
    pub closed spec fn spec_failed(self) -> bool {
        self.failed
    }

    /// Whether the primary context retain has succeeded: if so, whoever
    /// abandons this builder owes its device exactly one release.
    pub closed spec fn spec_retained(self) -> bool {
        self.retained
    }

    /// The address of the retained primary context.
    pub closed spec fn spec_context(self) -> u64 {
        self.context@
    }

    /// The descriptor as recorded so far.
    pub closed spec fn spec_desc(self) -> DeviceDescriptor {
        self.desc
    }

    /// The query the caller must perform next, or `None` when discovery is
    /// complete or aborted.
    pub open spec fn spec_pending_query(self) -> Option<DeviceQuery> {
        if self.spec_failed() {
            None
        } else {
            query_at(self.spec_step())
        }
    }

    /// The query the caller must perform next, in the fixed discovery
    /// order, or `None` when discovery is complete or aborted.
    pub fn next_query(&self) -> (q: Option<DeviceQuery>)
        ensures
            q == self.spec_pending_query(),
    {
        if self.failed {
            return None;
        }
        if self.step == 0 {
            Some(DeviceQuery::RetainContext)
        } else if self.step == 1 {
            Some(DeviceQuery::Name)
        } else if self.step == 2 {
            Some(DeviceQuery::Attribute(CUAttribute::CU_DEVICE_ATTRIBUTE_PCI_BUS_ID))
        } else if self.step == 3 {
            Some(DeviceQuery::Attribute(CUAttribute::CU_DEVICE_ATTRIBUTE_PCI_DEVICE_ID))
        } else if self.step == 4 {
            Some(DeviceQuery::Attribute(CUAttribute::CU_DEVICE_ATTRIBUTE_PCI_DOMAIN_ID))
        } else if self.step == 5 {
            Some(DeviceQuery::Attribute(CUAttribute::CU_DEVICE_ATTRIBUTE_MULTIPROCESSOR_COUNT))
        } else if self.step == 6 {
            Some(DeviceQuery::Attribute(CUAttribute::CU_DEVICE_ATTRIBUTE_UNIFIED_ADDRESSING))
        } else if self.step == 7 {
            Some(
                DeviceQuery::Attribute(
                    CUAttribute::CU_DEVICE_ATTRIBUTE_MAX_SHARED_MEMORY_PER_BLOCK_OPTIN,
                ),
            )
        } else if self.step == 8 {
            Some(DeviceQuery::Attribute(CUAttribute::CU_DEVICE_ATTRIBUTE_COMPUTE_CAPABILITY_MINOR))
        } else if self.step == 9 {
            Some(DeviceQuery::Attribute(CUAttribute::CU_DEVICE_ATTRIBUTE_COMPUTE_CAPABILITY_MAJOR))
        } else if self.step == 10 {
            Some(DeviceQuery::TotalMem)
        } else {
            None
        }
    }

    /// Record the outcome of the primary context retain. On success the
    /// builder owns the retain; on failure it aborts and surfaces that
    /// error.
    pub fn supply_context(&mut self, status: i32, context: CUcontext) -> (r: Result<(), CUError>)
        requires
            old(self).spec_step() == 0,
            !old(self).spec_failed(),
        ensures
            r == status_result(status),
            r is Ok <==> status == 0,
            final(self).spec_desc() == old(self).spec_desc(),
            status == 0 ==> !final(self).spec_failed() && final(self).spec_step() == 1 && final(self).spec_retained() && final(self).spec_context() == context@,
            status != 0 ==> final(self).spec_failed() && final(self).spec_retained() == old(
                self).spec_retained(),
    {
        let r = status_to_result(status);
        if r.is_ok() {
            self.context = context;
            self.retained = true;
            self.step = 1;
        } else {
            self.failed = true;
        }
        r
    }

    /// Record the outcome of the display name query. On success the name is
    /// the bytes the driver wrote before its first NUL; on failure the
    /// builder aborts and surfaces that error.
    pub fn supply_name(&mut self, status: i32, raw: &[u8]) -> (r: Result<(), CUError>)
        requires
            old(self).spec_step() == 1,
            !old(self).spec_failed(),
        ensures
            r == status_result(status),
            r is Ok <==> status == 0,
            final(self).spec_retained() == old(self).spec_retained(),
            final(self).spec_context() == old(self).spec_context(),
            status == 0 ==> !final(self).spec_failed() && final(self).spec_step() == 2 && final(self).spec_desc() == (DeviceDescriptor {
                name: final(self).spec_desc().name,
                ..old(self).spec_desc()
            }) && final(self).spec_desc().name@ == bounded_text(raw@, raw@.len()),
            status != 0 ==> final(self).spec_failed() && final(self).spec_desc() == old(self).spec_desc(),
    {
        let r = status_to_result(status);
        if r.is_ok() {
            self.desc.name = extract_text(raw, raw.len());
            self.step = 2;
        } else {
            self.failed = true;
        }
        r
    }

    /// Record the outcome of the pending attribute query. On success the
    /// value is stored in the descriptor field of exactly that attribute;
    /// on failure the builder aborts and surfaces that error.
    pub fn supply_attribute(&mut self, status: i32, value: i32) -> (r: Result<(), CUError>)
        requires
            2 <= old(self).spec_step() <= LAST_ATTRIBUTE_STEP,
            !old(self).spec_failed(),
        ensures
            r == status_result(status),
            r is Ok <==> status == 0,
            final(self).spec_retained() == old(self).spec_retained(),
            final(self).spec_context() == old(self).spec_context(),
            status == 0 ==> !final(self).spec_failed() && final(self).spec_step() == old(self).spec_step() + 1 && final(self).spec_desc() == attr_updated(
                old(self).spec_desc(),
                old(self).spec_step(),
                value,
            ),
            status != 0 ==> final(self).spec_failed() && final(self).spec_desc() == old(self).spec_desc(),
    {
        let r = status_to_result(status);
        if r.is_ok() {
            if self.step == 2 {
                self.desc.pci_bus_id = value;
            } else if self.step == 3 {
                self.desc.pci_dev_id = value;
            } else if self.step == 4 {
                self.desc.pci_dom_id = value;
            } else if self.step == 5 {
                self.desc.num_sm = value;
            } else if self.step == 6 {
                self.desc.unified_addr = value;
            } else if self.step == 7 {
                self.desc.shared_memory_bytes = value;
            } else if self.step == 8 {
                self.desc.cc_minor = value;
            } else {
                self.desc.cc_major = value;
            }
            self.step = self.step + 1;
        } else {
            self.failed = true;
        }
        r
    }

    /// Record the outcome of the total memory query, the last of the
    /// discovery order. On success discovery is complete; on failure the
    /// builder aborts and surfaces that error.
    pub fn supply_total_mem(&mut self, status: i32, bytes: u64) -> (r: Result<(), CUError>)
        requires
            old(self).spec_step() == 10,
            !old(self).spec_failed(),
        ensures
            r == status_result(status),
            r is Ok <==> status == 0,
            final(self).spec_retained() == old(self).spec_retained(),
            final(self).spec_context() == old(self).spec_context(),
            status == 0 ==> !final(self).spec_failed() && final(self).spec_step() == 11 && final(self).spec_desc() == (DeviceDescriptor { mem_total: bytes, ..old(self).spec_desc() }),
            status != 0 ==> final(self).spec_failed() && final(self).spec_desc() == old(self).spec_desc(),
    {
        let r = status_to_result(status);
        if r.is_ok() {
            self.desc.mem_total = bytes;
            self.step = 11;
        } else {
            self.failed = true;
        }
        r
    }

    /// Seal a completed discovery into a device that owns the context
    /// retain. The descriptor holds exactly the recorded observations.
    pub fn finish(self) -> (d: Device)
        requires
            self.spec_step() == 11,
            !self.spec_failed(),
        ensures
            d.spec_descriptor() == self.spec_desc(),
            d.spec_context() == self.spec_context(),
    {
        Device { descriptor: self.desc, context: self.context }
    }

    /// Give up on discovery. If the context retain had already succeeded,
    /// the returned ordinal names the device whose primary context the
    /// caller now owes exactly one release.
    pub fn abandon(self) -> (r: Option<i32>)
        ensures
            r == if self.spec_retained() {
                Some(self.spec_desc().id)
            } else {
                None::<i32>
            },
    {
        if self.retained {
            Some(self.desc.id)
        } else {
            None
        }
    }
}

/// Recording one attribute observation after another never clobbers an
/// earlier one: a descriptor that has stepped through the whole attribute
/// order holds exactly the observed values, and its other fields are
/// untouched.
pub proof fn lemma_descriptor_reflects_observations(
    d0: DeviceDescriptor,
    bus: i32,
    dev: i32,
    dom: i32,
    sm: i32,
    ua: i32,
    smem: i32,
    ccmin: i32,
    ccmaj: i32,
    mem: u64,
)
    ensures
        ({
            let d1 = attr_updated(d0, 2, bus);
            let d2 = attr_updated(d1, 3, dev);
            let d3 = attr_updated(d2, 4, dom);
            let d4 = attr_updated(d3, 5, sm);
            let d5 = attr_updated(d4, 6, ua);
            let d6 = attr_updated(d5, 7, smem);
            let d7 = attr_updated(d6, 8, ccmin);
            let d8 = attr_updated(d7, 9, ccmaj);
            let d = DeviceDescriptor { mem_total: mem, ..d8 };
            d.pci_bus_id == bus && d.pci_dev_id == dev && d.pci_dom_id == dom && d.num_sm == sm
                && d.unified_addr == ua && d.shared_memory_bytes == smem && d.cc_minor == ccmin
                && d.cc_major == ccmaj && d.mem_total == mem && d.id == d0.id && d.name == d0.name
        }),
{
}

/// An open device: its immutable descriptor and the one outstanding retain
/// on its primary context.
pub struct Device {
    descriptor: DeviceDescriptor,
    context: CUcontext,
}

impl Device {
    /// The immutable snapshot captured when this device was opened.
    pub closed spec fn spec_descriptor(self) -> DeviceDescriptor {
        self.descriptor
    }

    /// The address of the retained primary context.
    pub closed spec fn spec_context(self) -> u64 {
        self.context@
    }

    /// The immutable snapshot captured when this device was opened.
    pub fn descriptor(&self) -> (d: &DeviceDescriptor)
        ensures
            *d == self.spec_descriptor(),
    {
        &self.descriptor
    }

    /// Begin opening the device at `ordinal`: validate the ordinal against
    /// the registry and hand back the builder that sequences the native
    /// discovery queries. An ordinal outside `0 .. device_count` is
    /// rejected as `InvalidDevice` before any native state is touched.
    pub fn create(cuda: &CUDA, ordinal: i32) -> (r: Result<DeviceBuilder, CUError>)
        ensures
            r is Ok <==> 0 <= ordinal < cuda.spec_device_count(),
            !(0 <= ordinal < cuda.spec_device_count()) ==> r == Err::<DeviceBuilder, CUError>(
                CUError::InvalidDevice,
            ),
            r matches Ok(b) ==> b.spec_step() == 0 && !b.spec_failed() && !b.spec_retained()
                && b.spec_desc().id == ordinal && b.spec_desc().pci_bus_id == 0
                && b.spec_desc().pci_dev_id == 0 && b.spec_desc().pci_dom_id == 0
                && b.spec_desc().num_sm == 0 && b.spec_desc().unified_addr == 0
                && b.spec_desc().shared_memory_bytes == 0 && b.spec_desc().cc_minor == 0
                && b.spec_desc().cc_major == 0 && b.spec_desc().mem_total == 0
                && b.spec_desc().name@ == Seq::<u8>::empty(),
    {
        if ordinal < 0 || ordinal >= cuda.device_count() {
            return Err(CUError::InvalidDevice);
        }
        Ok(
            DeviceBuilder {
                step: 0,
                failed: false,
                retained: false,
                context: CUcontext::from_addr(0),
                desc: DeviceDescriptor {
                    id: ordinal,
                    pci_bus_id: 0,
                    pci_dom_id: 0,
                    pci_dev_id: 0,
                    num_sm: 0,
                    unified_addr: 0,
                    shared_memory_bytes: 0,
                    cc_minor: 0,
                    cc_major: 0,
                    mem_total: 0,
                    name: Vec::new(),
                },
            },
        )
    }

    /// The ordinal this device was opened at.
    pub fn id(&self) -> (id: i32)
        ensures
            id == self.spec_descriptor().id,
    {
        self.descriptor.id
    }

    /// The address of the retained primary context, for native calls that
    /// need the context to be made current.
    pub fn context_addr(&self) -> (a: u64)
        ensures
            a == self.spec_context(),
    {
        self.context.addr()
    }

    /// Consume the device and name the ordinal whose primary context must
    /// now be released. Consuming the device is what makes the release
    /// happen exactly once: the one retain this device held cannot be given
    /// back twice.
    pub fn release(self) -> (id: i32)
        ensures
            id == self.spec_descriptor().id,
    {
        self.descriptor.id
    }
}

/// The copy a buffer has validated: the caller may perform a host-to-device
/// copy of exactly `len` bytes to device address `dst`.
#[derive(Clone, Copy, Debug, PartialEq, Eq, Structural)]
pub struct CopyPlan {
    /// Destination device address.
    pub dst: u64,
    /// Number of bytes to copy: the whole buffer.
    pub len: usize,
}

/// One device memory allocation, scoped to the device it was made on. The
/// allocation is given back by consuming the buffer, so it is freed exactly
/// once however destruction is reached.
pub struct Buffer {
    device_id: i32,
    dptr: u64,
    size: usize,
}

impl Buffer {
    /// The ordinal of the owning device.
    pub closed spec fn spec_device_id(self) -> i32 {
        self.device_id
    }

    /// The device address of the allocation.
    pub closed spec fn spec_dptr(self) -> u64 {
        self.dptr
    }

    /// The size of the allocation in bytes.
    pub closed spec fn spec_size(self) -> usize {
        self.size
    }

    /// Take ownership of a fresh allocation of `size` bytes on `device`,
    /// given the status and device address the native allocation call
    /// reported. A non-success status becomes its taxonomy error — out of
    /// memory surfaces as `OutOfMemory` — and no buffer is produced. A zero
    /// size is handed through unjudged: whether an empty allocation is
    /// permitted is the native layer's own, implementation-defined choice,
    /// reflected in the status it reports.
    pub fn create(device: &Device, size: usize, alloc_status: i32, dptr: u64) -> (r: Result<
        Buffer,
        CUError,
    >)
        ensures
            r is Ok <==> alloc_status == 0,
            alloc_status != 0 ==> r == Err::<Buffer, CUError>(
                status_result(alloc_status)->Err_0,
            ),
            r matches Ok(b) ==> b.spec_device_id() == device.spec_descriptor().id && b.spec_dptr() == dptr
                && b.spec_size() == size,
    {
        match status_to_result(alloc_status) {
            Ok(_) => Ok(Buffer { device_id: device.id(), dptr, size }),
            Err(e) => Err(e),
        }
    }

    /// Validate a host-to-device copy of `src` into this buffer. A source
    /// whose length differs from the buffer size is rejected as
    /// `InvalidValue` and no plan is produced, so not one byte of a
    /// mismatched copy is ever performed; otherwise the plan names the
    /// buffer's device address and exactly its size.
    pub fn copy_from_slice(&self, src: &[u8]) -> (r: Result<CopyPlan, CUError>)
        ensures
            r is Ok <==> src@.len() == self.spec_size(),
            src@.len() != self.spec_size() ==> r == Err::<CopyPlan, CUError>(CUError::InvalidValue),
            r matches Ok(p) ==> p.dst == self.spec_dptr() && p.len == self.spec_size(),
    {
        if src.len() != self.size {
            return Err(CUError::InvalidValue);
        }
        Ok(CopyPlan { dst: self.dptr, len: self.size })
    }

    /// The size of the allocation in bytes.
    pub fn size(&self) -> (s: usize)
        ensures
            s == self.spec_size(),
    {
        self.size
    }

    /// The ordinal of the owning device.
    pub fn device_id(&self) -> (id: i32)
        ensures
            id == self.spec_device_id(),
    {
        self.device_id
    }

    /// Consume the buffer and name the device address that must now be
    /// freed: exactly the address the allocation reported, handed back
    /// exactly once. After the free completes, no allocation of this
    /// buffer is outstanding.
    pub fn free(self) -> (dptr: u64)
        ensures
            dptr == self.spec_dptr(),
    {
        self.dptr
    }
}

} // verus!
