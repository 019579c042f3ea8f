//! The result model: one snapshot type for all platforms, and the error type
//! of the memory query.
use vstd::prelude::*;

verus! {

/// A snapshot of the calling process's memory usage.
///
/// All byte counts are unsigned 64-bit values. Metrics that exist only on
/// some platforms are `Option`s: `resident_set_size_peak` is reported by the
/// Windows and Darwin backends and absent on Linux/Android (the statm
/// pseudo-file exposes no peak); `phys_footprint` and `compressed` are
/// Darwin-only extended accounting fields.
#[derive(Clone, Copy, Debug, PartialEq, Eq)]
pub struct ProcessMemoryInfo {
    /// Non-swapped physical memory in use: UNIX "RES", Windows working set.
    pub resident_set_size: u64,
    /// Historical maximum of `resident_set_size`; `None` on Linux/Android.
    pub resident_set_size_peak: Option<u64>,
    /// Total virtual address space committed or reserved by the process.
    pub virtual_memory_size: u64,
    /// Darwin physical-footprint accounting metric; `None` elsewhere.
    pub phys_footprint: Option<u64>,
    /// Bytes held in Darwin's compressed-memory pool; `None` elsewhere.
    pub compressed: Option<u64>,
}

impl Default for ProcessMemoryInfo {
    /// The zero snapshot: valid, and means "no data yet".
    fn default() -> (r: Self)
        ensures
            r.resident_set_size == 0,
            r.resident_set_size_peak is None,
            r.virtual_memory_size == 0,
            r.phys_footprint is None,
            r.compressed is None,
    {
        ProcessMemoryInfo {
            resident_set_size: 0,
            resident_set_size_peak: None,
            virtual_memory_size: 0,
            phys_footprint: None,
            compressed: None,
        }
    }
}

/// Why a memory query failed.
///
/// OS-call failures carry the platform's native code verbatim. The statm
/// variants name which field of the pseudo-file was at fault: "missing" means
/// the token was absent or empty, "malformed" that a non-empty token was not
/// an unsigned decimal integer or that its byte value does not fit in 64 bits.
/// An I/O failure opening or reading the pseudo-file never reaches this type:
/// the runtime shell propagates it as the underlying I/O error unchanged.
#[derive(Clone, Copy, Debug, PartialEq, Eq)]
pub enum MemoryQueryError {
    /// The statm line has no first (virtual-size) token.
    MissingVirtualSizeField,
    /// The statm line has no second (resident-size) token.
    MissingResidentSizeField,
    /// The first statm token is not a page count convertible to bytes.
    MalformedVirtualSizeField,
    /// The second statm token is not a page count convertible to bytes.
    MalformedResidentSizeField,
    /// The Windows memory-counters call reported failure; `code` is the
    /// last OS error at that point.
    WindowsCallFailed { code: i32 },
    /// The Darwin task-info call returned a non-success kernel code.
    DarwinCallFailed { code: i32 },
}

} // verus!
