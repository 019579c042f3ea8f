//! Reports the calling process's own memory usage — resident set size,
//! virtual size, and platform-specific extended metrics — as one typed
//! snapshot with one error model, across Windows, Linux/Android and Darwin.
//!
//! The library holds the platform-independent logic: parsing the Linux statm
//! line, converting page counts to bytes, mapping raw Windows and Darwin
//! counters to the result model, and turning failure codes into errors. The
//! raw readings themselves (a file read, two FFI calls) come from a thin
//! unverified runtime shell, which packs them into a [`PlatformReading`];
//! a compiled artifact constructs only the variant of its target platform.
use vstd::prelude::*;

pub mod cache;
pub mod darwin;
pub mod info;
pub mod statm;
pub mod windows;

use crate::info::{MemoryQueryError, ProcessMemoryInfo};

verus! {

/// The raw outcome of the one platform facility a build consumes, as plain
/// values. Exactly one variant exists per compiled artifact; the dispatch
/// below never sees the others at runtime.
pub enum PlatformReading {
    /// Outcome of the Windows process-memory-counters call: its return value
    /// (zero means failure), the counters read on success, and the last OS
    /// error captured when the call failed.
    Windows {
        ret: i32,
        working_set_size: u64,
        peak_working_set_size: u64,
        pagefile_usage: u64,
        last_os_error: i32,
    },
    /// The Linux/Android statm pseudo-file contents and the system page size.
    Linux { statm: Vec<u8>, page_size: u64 },
    /// Outcome of the Darwin task-info call: the kernel return code (zero
    /// means success) and the virtual-memory-info fields read on success.
    Darwin {
        kern_return: i32,
        resident_size: u64,
        resident_size_peak: u64,
        virtual_size: u64,
        phys_footprint: u64,
        compressed: u64,
    },
}

/// What the query returns for a given platform reading.
pub open spec fn memory_info_of(reading: PlatformReading) -> Result<
    ProcessMemoryInfo,
    MemoryQueryError,
> {
    match reading {
        PlatformReading::Windows {
            ret,
            working_set_size,
            peak_working_set_size,
            pagefile_usage,
            last_os_error,
        } => crate::windows::windows_result(
            ret,
            working_set_size,
            peak_working_set_size,
            pagefile_usage,
            last_os_error,
        ),
        PlatformReading::Linux { statm, page_size } => crate::statm::statm_result(
            statm@,
            page_size,
        ),
        PlatformReading::Darwin {
            kern_return,
            resident_size,
            resident_size_peak,
            virtual_size,
            phys_footprint,
            compressed,
        } => crate::darwin::darwin_result(
            kern_return,
            resident_size,
            resident_size_peak,
            virtual_size,
            phys_footprint,
            compressed,
        ),
    }
}

/// The single query operation: turns the platform's raw reading into one
/// memory snapshot or one typed error. It is a pure function of the reading:
/// it touches no state and the result is pinned by [`memory_info_of`].
pub fn get_process_memory_info(reading: &PlatformReading) -> (r: Result<
    ProcessMemoryInfo,
    MemoryQueryError,
>)
    ensures
        r == memory_info_of(*reading),
{
    match reading {
        PlatformReading::Windows {
            ret,
            working_set_size,
            peak_working_set_size,
            pagefile_usage,
            last_os_error,
        } => crate::windows::windows_memory_info(
            *ret,
            *working_set_size,
            *peak_working_set_size,
            *pagefile_usage,
            *last_os_error,
        ),
        PlatformReading::Linux { statm, page_size } => crate::statm::linux_memory_info(
            statm.as_slice(),
            *page_size,
        ),
        PlatformReading::Darwin {
            kern_return,
            resident_size,
            resident_size_peak,
            virtual_size,
            phys_footprint,
            compressed,
        } => crate::darwin::darwin_memory_info(
            *kern_return,
            *resident_size,
            *resident_size_peak,
            *virtual_size,
            *phys_footprint,
            *compressed,
        ),
    }
}

/// The query is deterministic and side-effect free: it is a pure function of
/// the platform reading, so equal readings — in particular, repeated calls on
/// an unchanged process — give equal results, and no call disturbs a later
/// one. The one piece of process-wide state in the whole system, the
/// page-size cache, is outside the reading and is modeled in [`crate::cache`].
pub proof fn lemma_query_deterministic(a: PlatformReading, b: PlatformReading)
    requires
        a == b,
    ensures
        memory_info_of(a) == memory_info_of(b),
{
}

/// An OS-call failure is reported, never defaulted: a zero Windows return
/// value, or a non-success Darwin kernel code, yields the error carrying that
/// native code verbatim — no zero-valued snapshot.
pub proof fn lemma_os_failure_reported(reading: PlatformReading)
    ensures
        match reading {
            PlatformReading::Windows { ret, last_os_error, .. } => ret == 0
                ==> memory_info_of(reading) == Err::<ProcessMemoryInfo, MemoryQueryError>(
                MemoryQueryError::WindowsCallFailed { code: last_os_error },
            ),
            PlatformReading::Darwin { kern_return, .. } => kern_return
                != crate::darwin::KERN_SUCCESS ==> memory_info_of(reading) == Err::<
                ProcessMemoryInfo,
                MemoryQueryError,
            >(MemoryQueryError::DarwinCallFailed { code: kern_return }),
            PlatformReading::Linux { .. } => true,
        },
{
}

/// Field presence matches the platform: a successful Linux/Android query
/// reports no peak resident size and no extended metrics, a successful
/// Windows query reports the peak but no extended metrics, and a successful
/// Darwin query reports all of them.
pub proof fn lemma_field_presence(reading: PlatformReading)
    ensures
        match memory_info_of(reading) {
            Ok(info) => match reading {
                PlatformReading::Windows { .. } => info.resident_set_size_peak is Some
                    && info.phys_footprint is None && info.compressed is None,
                PlatformReading::Linux { .. } => info.resident_set_size_peak is None
                    && info.phys_footprint is None && info.compressed is None,
                PlatformReading::Darwin { .. } => info.resident_set_size_peak is Some
                    && info.phys_footprint is Some && info.compressed is Some,
            },
            Err(_) => true,
        },
{
}

} // verus!
