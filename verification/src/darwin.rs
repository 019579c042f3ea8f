//! The Darwin backend's logic: mapping the task-info virtual-memory reading
//! into the result model, or a non-success kernel code into an error.
use vstd::prelude::*;

use crate::info::{MemoryQueryError, ProcessMemoryInfo};

verus! {

/// The kernel return code that means success.
pub const KERN_SUCCESS: i32 = 0;

/// What the Darwin backend returns: any non-success kernel code is reported
/// verbatim as an error; on success the task-info fields map one to one, with
/// the peak resident size and the two extended accounting metrics present.
pub open spec fn darwin_result(
    kern_return: i32,
    resident_size: u64,
    resident_size_peak: u64,
    virtual_size: u64,
    phys_footprint: u64,
    compressed: u64,
) -> Result<ProcessMemoryInfo, MemoryQueryError> {
    if kern_return != KERN_SUCCESS {
        Err(MemoryQueryError::DarwinCallFailed { code: kern_return })
    } else {
        Ok(
            ProcessMemoryInfo {
                resident_set_size: resident_size,
                resident_set_size_peak: Some(resident_size_peak),
                virtual_memory_size: virtual_size,
                phys_footprint: Some(phys_footprint),
                compressed: Some(compressed),
            },
        )
    }
}

/// Builds the snapshot from a raw Darwin task-info reading, or the error
/// carrying the kernel return code when the query failed.
pub fn darwin_memory_info(
    kern_return: i32,
    resident_size: u64,
    resident_size_peak: u64,
    virtual_size: u64,
    phys_footprint: u64,
    compressed: u64,
) -> (r: Result<ProcessMemoryInfo, MemoryQueryError>)
    ensures
        r == darwin_result(
            kern_return,
            resident_size,
            resident_size_peak,
            virtual_size,
            phys_footprint,
            compressed,
        ),
{
    if kern_return != KERN_SUCCESS {
        Err(MemoryQueryError::DarwinCallFailed { code: kern_return })
    } else {
        Ok(
            ProcessMemoryInfo {
                resident_set_size: resident_size,
                resident_set_size_peak: Some(resident_size_peak),
                virtual_memory_size: virtual_size,
                phys_footprint: Some(phys_footprint),
                compressed: Some(compressed),
            },
        )
    }
}

} // verus!
