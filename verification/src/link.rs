//! The just-in-time link session: a transient, stateful compilation
//! pipeline that takes PTX source and produces a loadable binary module.
//!
//! A session moves `Created → (add_data)* → Completed | Failed`. Both
//! `add_data` and `complete` require a session still in its created phase,
//! so the illegal transition of a failed session into `complete` is
//! unrepresentable for a verified caller. On a native failure the session
//! captures the driver's diagnostic logs — bounded byte text, never assumed
//! to be NUL-terminated — since the status code alone cannot diagnose a
//! compile error. The native link state is given back for teardown by
//! consuming the session, so it is destroyed exactly once.

use vstd::prelude::*;

use crate::cuda_api::{
    CUlinkState, CUmodule, CU_JIT_ERROR_LOG_BUFFER, CU_JIT_ERROR_LOG_BUFFER_SIZE_BYTES,
    CU_JIT_GENERATE_DEBUG_INFO, CU_JIT_GENERATE_LINE_INFO, CU_JIT_INFO_LOG_BUFFER,
    CU_JIT_INFO_LOG_BUFFER_SIZE_BYTES, CU_JIT_LOG_VERBOSE, CU_JIT_OPTIMIZATION_LEVEL,
};
use crate::cuda_result::{status_result, status_to_result, CUError};
use crate::text::{bounded_text, extract_text};

verus! {

/// The fixed capacity, in bytes, of each diagnostic log buffer: 16 KiB.
pub const DEFAULT_LOG_CAPACITY: usize = 16384;

/// The configuration a link session is created with. The log capacity is
/// fixed at session creation and bounds both diagnostic logs.
#[derive(Clone, Copy, Debug, PartialEq, Eq, Structural)]
pub struct LinkOptions {
    /// Optimization level, 0 through 4.
    pub opt_level: u32,
    /// Verbose logging into the informational log.
    pub verbose: bool,
    /// Generate line number information.
    pub line_info: bool,
    /// Generate debug information.
    pub debug_info: bool,
    /// Capacity of each diagnostic log buffer, in bytes.
    pub log_capacity: usize,
}

impl LinkOptions {
    /// The configuration the pipeline links with: full optimization,
    /// verbose logging, no line or debug information, 16 KiB logs.
    pub fn defaults() -> (o: LinkOptions)
        ensures
            o == (LinkOptions {
                opt_level: 4,
                verbose: true,
                line_info: false,
                debug_info: false,
                log_capacity: DEFAULT_LOG_CAPACITY,
            }),
    {
        LinkOptions {
            opt_level: 4,
            verbose: true,
            line_info: false,
            debug_info: false,
            log_capacity: DEFAULT_LOG_CAPACITY,
        }
    }

    /// The option identifiers handed to native link creation, in their
    /// fixed order: optimization level, verbose logging, the informational
    /// log buffer and its capacity, the error log buffer and its capacity,
    /// line information, debug information. The caller pairs each with its
    /// value; the two buffer entries take addresses of caller memory.
    pub fn option_ids(&self) -> (ids: Vec<i32>)
        ensures
            ids@ == seq![
                CU_JIT_OPTIMIZATION_LEVEL,
                CU_JIT_LOG_VERBOSE,
                CU_JIT_INFO_LOG_BUFFER,
                CU_JIT_INFO_LOG_BUFFER_SIZE_BYTES,
                CU_JIT_ERROR_LOG_BUFFER,
                CU_JIT_ERROR_LOG_BUFFER_SIZE_BYTES,
                CU_JIT_GENERATE_LINE_INFO,
                CU_JIT_GENERATE_DEBUG_INFO,
            ],
    {
        let mut ids: Vec<i32> = Vec::new();
        ids.push(CU_JIT_OPTIMIZATION_LEVEL);
        ids.push(CU_JIT_LOG_VERBOSE);
        ids.push(CU_JIT_INFO_LOG_BUFFER);
        ids.push(CU_JIT_INFO_LOG_BUFFER_SIZE_BYTES);
        ids.push(CU_JIT_ERROR_LOG_BUFFER);
        ids.push(CU_JIT_ERROR_LOG_BUFFER_SIZE_BYTES);
        ids.push(CU_JIT_GENERATE_LINE_INFO);
        ids.push(CU_JIT_GENERATE_DEBUG_INFO);
        proof {
            assert(ids@ =~= seq![
                CU_JIT_OPTIMIZATION_LEVEL,
                CU_JIT_LOG_VERBOSE,
                CU_JIT_INFO_LOG_BUFFER,
                CU_JIT_INFO_LOG_BUFFER_SIZE_BYTES,
                CU_JIT_ERROR_LOG_BUFFER,
                CU_JIT_ERROR_LOG_BUFFER_SIZE_BYTES,
                CU_JIT_GENERATE_LINE_INFO,
                CU_JIT_GENERATE_DEBUG_INFO,
            ]);
        }
        ids
    }
}

/// Where a link session stands in its pipeline.
#[derive(Clone, Copy, Debug, PartialEq, Eq, Structural)]
pub enum LinkPhase {
    /// Inputs may still be added and the link may still be completed.
    Created,
    /// The link finished and its binary has been handed out.
    Completed,
    /// A native step failed; the diagnostic logs hold the detail.
    Failed,
}

/// A just-in-time link session. See the module documentation for the
/// pipeline it drives.
pub struct LinkSession {
    handle: CUlinkState,
    phase: LinkPhase,
    log_capacity: usize,
    inputs: usize,
    error_log: Vec<u8>,
    info_log: Vec<u8>,
}

impl LinkSession {
    /// The address of the native link state this session owns.
    pub closed spec fn spec_handle(self) -> u64 {
        self.handle@
    }

    /// Where the session stands in its pipeline.
    pub closed spec fn spec_phase(self) -> LinkPhase {
        self.phase
    }

    /// The fixed capacity of each diagnostic log, set at creation.
    pub closed spec fn spec_log_capacity(self) -> usize {
        self.log_capacity
    }

    /// How many inputs have been added so far.
    pub closed spec fn spec_inputs(self) -> usize {
        self.inputs
    }

    /// The captured error log text.
    pub closed spec fn spec_error_log(self) -> Seq<u8> {
        self.error_log@
    }

    /// The captured informational log text.
    pub closed spec fn spec_info_log(self) -> Seq<u8> {
        self.info_log@
    }

    /// Everything that never changes after creation: the owned link state
    /// and the log capacity.
    pub open spec fn fixed_unchanged(self, other: LinkSession) -> bool {
        self.spec_handle() == other.spec_handle() && self.spec_log_capacity()
            == other.spec_log_capacity()
    }

    /// Take ownership of a freshly created native link state, given the
    /// status the native creation call reported. A non-success status
    /// surfaces as `LinkCreateFailed` and no session is produced.
    pub fn create(options: &LinkOptions, create_status: i32, handle: CUlinkState) -> (r: Result<
        LinkSession,
        CUError,
    >)
        ensures
            r is Ok <==> create_status == 0,
            create_status != 0 ==> r == Err::<LinkSession, CUError>(
                CUError::LinkCreateFailed(create_status),
            ),
            r matches Ok(s) ==> s.spec_phase() is Created && s.spec_handle() == handle@
                && s.spec_log_capacity() == options.log_capacity && s.spec_inputs() == 0
                && s.spec_error_log() == Seq::<u8>::empty() && s.spec_info_log()
                == Seq::<u8>::empty(),
    {
        if create_status != 0 {
            return Err(CUError::LinkCreateFailed(create_status));
        }
        Ok(
            LinkSession {
                handle,
                phase: LinkPhase::Created,
                log_capacity: options.log_capacity,
                inputs: 0,
                error_log: Vec::new(),
                info_log: Vec::new(),
            },
        )
    }

    /// Record the outcome of adding one PTX input to the link. On success
    /// the session stays open for more inputs or completion. On failure it
    /// moves to `Failed`, captures both diagnostic logs as the driver left
    /// them — truncated at the first NUL and at the fixed capacity — and
    /// surfaces the taxonomy error of the native status; the caller must
    /// read the error log, since the status alone cannot diagnose a
    /// compile error.
    pub fn add_data(&mut self, status: i32, error_raw: &[u8], info_raw: &[u8]) -> (r: Result<
        (),
        CUError,
    >)
        requires
            old(self).spec_phase() is Created,
            old(self).spec_inputs() < usize::MAX,
        ensures
            r == status_result(status),
            r is Ok <==> status == 0,
            old(self).fixed_unchanged(*final(self)),
            status == 0 ==> final(self).spec_phase() is Created && final(self).spec_inputs() == old(
                self).spec_inputs() + 1 && final(self).spec_error_log() == old(
                self).spec_error_log() && final(self).spec_info_log() == old(self).spec_info_log(),
            status != 0 ==> final(self).spec_phase() is Failed && final(self).spec_inputs() == old(
                self).spec_inputs() && final(self).spec_error_log() == bounded_text(
                error_raw@,
                old(self).spec_log_capacity() as nat,
            ) && final(self).spec_info_log() == bounded_text(
                info_raw@,
                old(self).spec_log_capacity() as nat,
            ),
    {
        let r = status_to_result(status);
        if r.is_ok() {
            self.inputs = self.inputs + 1;
        } else {
            self.phase = LinkPhase::Failed;
            self.error_log = extract_text(error_raw, self.log_capacity);
            self.info_log = extract_text(info_raw, self.log_capacity);
        }
        r
    }

    /// Record the outcome of finalizing the link, handing through the
    /// binary the native completion call produced. On success the session
    /// is `Completed` and the binary blob is returned, ready for the
    /// module-load step. On failure the session moves to `Failed`, captures
    /// both diagnostic logs, and surfaces `LinkCompleteFailed`.
    pub fn complete(&mut self, status: i32, cubin: Vec<u8>, error_raw: &[u8], info_raw: &[u8]) -> (r:
        Result<Vec<u8>, CUError>)
        requires
            old(self).spec_phase() is Created,
        ensures
            r is Ok <==> status == 0,
            old(self).fixed_unchanged(*final(self)),
            final(self).spec_inputs() == old(self).spec_inputs(),
            status == 0 ==> final(self).spec_phase() is Completed && r == Ok::<Vec<u8>, CUError>(
                cubin,
            ) && final(self).spec_error_log() == old(self).spec_error_log() && final(
                self).spec_info_log() == old(self).spec_info_log(),
            status != 0 ==> final(self).spec_phase() is Failed && r == Err::<Vec<u8>, CUError>(
                CUError::LinkCompleteFailed(status),
            ) && final(self).spec_error_log() == bounded_text(
                error_raw@,
                old(self).spec_log_capacity() as nat,
            ) && final(self).spec_info_log() == bounded_text(
                info_raw@,
                old(self).spec_log_capacity() as nat,
            ),
    {
        if status == 0 {
            self.phase = LinkPhase::Completed;
            Ok(cubin)
        } else {
            self.phase = LinkPhase::Failed;
            self.error_log = extract_text(error_raw, self.log_capacity);
            self.info_log = extract_text(info_raw, self.log_capacity);
            Err(CUError::LinkCompleteFailed(status))
        }
    }

    /// Where the session stands in its pipeline.
    pub fn phase(&self) -> (p: LinkPhase)
        ensures
            p == self.spec_phase(),
    {
        self.phase
    }

    /// How many inputs have been added so far.
    pub fn input_count(&self) -> (n: usize)
        ensures
            n == self.spec_inputs(),
    {
        self.inputs
    }

    /// The fixed capacity of each diagnostic log, set at creation.
    pub fn log_capacity(&self) -> (c: usize)
        ensures
            c == self.spec_log_capacity(),
    {
        self.log_capacity
    }

    /// The captured error log text.
    pub fn error_log(&self) -> (l: &Vec<u8>)
        ensures
            l@ == self.spec_error_log(),
    {
        &self.error_log
    }

    /// The captured informational log text.
    pub fn info_log(&self) -> (l: &Vec<u8>)
        ensures
            l@ == self.spec_info_log(),
    {
        &self.info_log
    }

    /// Consume the session and hand back the native link state that must
    /// now be destroyed: owed whether the link completed or failed, and
    /// consuming the session makes the teardown happen exactly once.
    pub fn destroy(self) -> (h: CUlinkState)
        ensures
            h@ == self.spec_handle(),
    {
        self.handle
    }
}

/// Record the outcome of loading a completed binary as a module: the module
/// handle the native load call produced on success, or the taxonomy error
/// of its status.
pub fn load_module(load_status: i32, module: CUmodule) -> (r: Result<CUmodule, CUError>)
    ensures
        r is Ok <==> load_status == 0,
        load_status == 0 ==> (r matches Ok(m) && m@ == module@),
        load_status != 0 ==> (r matches Err(e) && Err::<(), CUError>(e) == status_result(
            load_status,
        )),
{
    match status_to_result(load_status) {
        Ok(_) => Ok(module),
        Err(e) => Err(e),
    }
}

} // verus!
