//! The Windows backend's logic: mapping the process-memory-counters reading
//! into the result model, or the call's failure into an error.
use vstd::prelude::*;

use crate::info::{MemoryQueryError, ProcessMemoryInfo};

verus! {

/// What the Windows backend returns: the counters call signals failure with a
/// zero return value, and then the last OS error is reported verbatim; on
/// success the working set maps to the resident size, the peak working set to
/// the resident peak, and the pagefile usage to the virtual size.
pub open spec fn windows_result(
    ret: i32,
    working_set_size: u64,
    peak_working_set_size: u64,
    pagefile_usage: u64,
    last_os_error: i32,
) -> Result<ProcessMemoryInfo, MemoryQueryError> {
    if ret == 0 {
        Err(MemoryQueryError::WindowsCallFailed { code: last_os_error })
    } else {
        Ok(
            ProcessMemoryInfo {
                resident_set_size: working_set_size,
                resident_set_size_peak: Some(peak_working_set_size),
                virtual_memory_size: pagefile_usage,
                phys_footprint: None,
                compressed: None,
            },
        )
    }
}

/// Builds the snapshot from a raw Windows counters reading, or the error
/// carrying the native code when the call failed.
pub fn windows_memory_info(
    ret: i32,
    working_set_size: u64,
    peak_working_set_size: u64,
    pagefile_usage: u64,
    last_os_error: i32,
) -> (r: Result<ProcessMemoryInfo, MemoryQueryError>)
    ensures
        r == windows_result(
            ret,
            working_set_size,
            peak_working_set_size,
            pagefile_usage,
            last_os_error,
        ),
{
    if ret == 0 {
        Err(MemoryQueryError::WindowsCallFailed { code: last_os_error })
    } else {
        Ok(
            ProcessMemoryInfo {
                resident_set_size: working_set_size,
                resident_set_size_peak: Some(peak_working_set_size),
                virtual_memory_size: pagefile_usage,
                phys_footprint: None,
                compressed: None,
            },
        )
    }
}

} // verus!
