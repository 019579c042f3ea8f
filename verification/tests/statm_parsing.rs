use procmem::info::MemoryQueryError;
use procmem::info::ProcessMemoryInfo;
use procmem::statm::linux_memory_info;

#[test]
fn parses_first_two_fields_and_ignores_the_rest() {
    let r = linux_memory_info(b"1000 500 120 7 0 0 0", 4096);
    assert_eq!(
        r,
        Ok(ProcessMemoryInfo {
            resident_set_size: 2_048_000,
            resident_set_size_peak: None,
            virtual_memory_size: 4_096_000,
            phys_footprint: None,
            compressed: None,
        })
    );
}

#[test]
fn parses_a_line_of_exactly_two_fields() {
    let r = linux_memory_info(b"1000 500", 4096);
    let info = r.unwrap();
    assert_eq!(info.virtual_memory_size, 4_096_000);
    assert_eq!(info.resident_set_size, 2_048_000);
}

#[test]
fn empty_line_is_missing_virtual_size() {
    let r = linux_memory_info(b"", 4096);
    assert_eq!(r, Err(MemoryQueryError::MissingVirtualSizeField));
}

#[test]
fn single_field_is_missing_resident_size() {
    let r = linux_memory_info(b"1000", 4096);
    assert_eq!(r, Err(MemoryQueryError::MissingResidentSizeField));
}

#[test]
fn trailing_space_is_missing_resident_size() {
    let r = linux_memory_info(b"1000 ", 4096);
    assert_eq!(r, Err(MemoryQueryError::MissingResidentSizeField));
}

#[test]
fn non_numeric_first_field_is_malformed_virtual_size() {
    let r = linux_memory_info(b"abc 500", 4096);
    assert_eq!(r, Err(MemoryQueryError::MalformedVirtualSizeField));
}

#[test]
fn non_numeric_second_field_is_malformed_resident_size() {
    let r = linux_memory_info(b"1000 xyz", 4096);
    assert_eq!(r, Err(MemoryQueryError::MalformedResidentSizeField));
}

#[test]
fn sign_prefix_is_rejected() {
    let r = linux_memory_info(b"+10 500", 4096);
    assert_eq!(r, Err(MemoryQueryError::MalformedVirtualSizeField));
}

#[test]
fn newline_in_token_is_rejected() {
    let r = linux_memory_info(b"1000\n500", 4096);
    assert_eq!(r, Err(MemoryQueryError::MalformedVirtualSizeField));
}

#[test]
fn conversion_is_exact_for_a_terabyte_of_virtual_memory() {
    // 2^40 bytes of virtual size with 4 KiB pages: 2^28 pages.
    let r = linux_memory_info(b"268435456 500", 4096);
    let info = r.unwrap();
    assert_eq!(info.virtual_memory_size, 1u64 << 40);
    assert_eq!(info.resident_set_size, 2_048_000);
}

#[test]
fn largest_page_count_converts_with_page_size_one() {
    let r = linux_memory_info(b"18446744073709551615 1", 1);
    let info = r.unwrap();
    assert_eq!(info.virtual_memory_size, u64::MAX);
    assert_eq!(info.resident_set_size, 1);
}

#[test]
fn byte_count_overflow_is_rejected_not_wrapped() {
    // u64::MAX pages at 4096 bytes each does not fit in 64 bits.
    let r = linux_memory_info(b"18446744073709551615 1", 4096);
    assert_eq!(r, Err(MemoryQueryError::MalformedVirtualSizeField));
}

#[test]
fn resident_byte_count_overflow_is_rejected_not_wrapped() {
    let r = linux_memory_info(b"1000 18446744073709551615", 4096);
    assert_eq!(r, Err(MemoryQueryError::MalformedResidentSizeField));
}

#[test]
fn page_count_beyond_u64_is_malformed() {
    // One past u64::MAX no longer parses as a 64-bit integer.
    let r = linux_memory_info(b"18446744073709551616 1", 1);
    assert_eq!(r, Err(MemoryQueryError::MalformedVirtualSizeField));
}

#[test]
fn zero_counts_give_zero_bytes() {
    let r = linux_memory_info(b"0 0", 4096);
    let info = r.unwrap();
    assert_eq!(info.virtual_memory_size, 0);
    assert_eq!(info.resident_set_size, 0);
}
