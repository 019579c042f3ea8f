use procmem::get_process_memory_info;
use procmem::info::MemoryQueryError;
use procmem::info::ProcessMemoryInfo;
use procmem::PlatformReading;

#[test]
fn windows_success_maps_counters_to_snapshot() {
    let reading = PlatformReading::Windows {
        ret: 1,
        working_set_size: 7_000,
        peak_working_set_size: 9_000,
        pagefile_usage: 20_000,
        last_os_error: 0,
    };
    let info = get_process_memory_info(&reading).unwrap();
    assert_eq!(info.resident_set_size, 7_000);
    assert_eq!(info.resident_set_size_peak, Some(9_000));
    assert_eq!(info.virtual_memory_size, 20_000);
    assert_eq!(info.phys_footprint, None);
    assert_eq!(info.compressed, None);
}

#[test]
fn windows_failure_carries_the_native_code() {
    let reading = PlatformReading::Windows {
        ret: 0,
        working_set_size: 0,
        peak_working_set_size: 0,
        pagefile_usage: 0,
        last_os_error: 5,
    };
    let r = get_process_memory_info(&reading);
    assert_eq!(r, Err(MemoryQueryError::WindowsCallFailed { code: 5 }));
}

#[test]
fn darwin_success_maps_task_info_to_snapshot() {
    let reading = PlatformReading::Darwin {
        kern_return: 0,
        resident_size: 11_000,
        resident_size_peak: 12_000,
        virtual_size: 90_000,
        phys_footprint: 13_000,
        compressed: 1_000,
    };
    let info = get_process_memory_info(&reading).unwrap();
    assert_eq!(info.resident_set_size, 11_000);
    assert_eq!(info.resident_set_size_peak, Some(12_000));
    assert_eq!(info.virtual_memory_size, 90_000);
    assert_eq!(info.phys_footprint, Some(13_000));
    assert_eq!(info.compressed, Some(1_000));
}

#[test]
fn darwin_failure_carries_the_kernel_code() {
    let reading = PlatformReading::Darwin {
        kern_return: 4,
        resident_size: 0,
        resident_size_peak: 0,
        virtual_size: 0,
        phys_footprint: 0,
        compressed: 0,
    };
    let r = get_process_memory_info(&reading);
    assert_eq!(r, Err(MemoryQueryError::DarwinCallFailed { code: 4 }));
}

#[test]
fn linux_reading_through_the_facade() {
    let reading = PlatformReading::Linux {
        statm: b"1000 500 120 7 0 0 0".to_vec(),
        page_size: 4096,
    };
    let info = get_process_memory_info(&reading).unwrap();
    assert_eq!(info.virtual_memory_size, 4_096_000);
    assert_eq!(info.resident_set_size, 2_048_000);
    assert_eq!(info.resident_set_size_peak, None);
    assert_eq!(info.phys_footprint, None);
    assert_eq!(info.compressed, None);
}

#[test]
fn repeated_queries_on_one_reading_agree() {
    let reading = PlatformReading::Linux {
        statm: b"1000 500".to_vec(),
        page_size: 4096,
    };
    let first = get_process_memory_info(&reading);
    let second = get_process_memory_info(&reading);
    let third = get_process_memory_info(&reading);
    assert_eq!(first, second);
    assert_eq!(second, third);
}

#[test]
fn default_snapshot_means_no_data() {
    let info = ProcessMemoryInfo::default();
    assert_eq!(info.resident_set_size, 0);
    assert_eq!(info.resident_set_size_peak, None);
    assert_eq!(info.virtual_memory_size, 0);
    assert_eq!(info.phys_footprint, None);
    assert_eq!(info.compressed, None);
}
