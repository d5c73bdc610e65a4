use efi::negotiation::{delivered, element_count, plan, Plan};
use efi::types::Status;

#[test]
fn too_small_calls_for_the_reported_size_and_headroom() {
    assert_eq!(plan(Status::BufferTooSmall, 192, 48, 3), Plan::Allocate(336));
    assert_eq!(plan(Status::BufferTooSmall, 16, 8, 0), Plan::Allocate(16));
    assert_eq!(plan(Status::BufferTooSmall, 0, 48, 3), Plan::Allocate(144));
}

#[test]
fn any_other_error_ends_the_exchange_unchanged() {
    assert_eq!(plan(Status::NotFound, 192, 48, 3), Plan::Fail(Status::NotFound));
    assert_eq!(plan(Status::InvalidParameter, 0, 8, 0), Plan::Fail(Status::InvalidParameter));
    assert_eq!(plan(Status::BadBufferSize, 64, 8, 0), Plan::Fail(Status::BadBufferSize));
}

#[test]
fn success_and_warnings_leave_nothing_to_fetch() {
    assert_eq!(plan(Status::Success, 192, 48, 3), Plan::Empty);
    assert_eq!(plan(Status::WarnBufferTooSmall, 192, 48, 3), Plan::Empty);
}

#[test]
fn a_size_beyond_the_address_space_is_a_bad_buffer_size() {
    assert_eq!(plan(Status::BufferTooSmall, usize::MAX, 1, 1), Plan::Fail(Status::BadBufferSize));
    assert_eq!(plan(Status::BufferTooSmall, 0, usize::MAX, 2), Plan::Fail(Status::BadBufferSize));
    assert_eq!(plan(Status::BufferTooSmall, usize::MAX - 3, 1, 3), Plan::Allocate(usize::MAX));
}

#[test]
fn delivered_judges_the_second_call() {
    assert_eq!(delivered(Status::Success, 240, 336), Ok(240));
    assert_eq!(delivered(Status::Success, 336, 336), Ok(336));
    assert_eq!(delivered(Status::WarnStaleData, 10, 336), Ok(10));
    assert_eq!(delivered(Status::Success, 337, 336), Err(Status::BadBufferSize));
    assert_eq!(delivered(Status::BufferTooSmall, 400, 336), Err(Status::BufferTooSmall));
    assert_eq!(delivered(Status::DeviceError, 0, 336), Err(Status::DeviceError));
}

#[test]
fn element_count_divides_by_the_stride() {
    assert_eq!(element_count(240, 48), 5);
    assert_eq!(element_count(239, 48), 4);
    assert_eq!(element_count(47, 48), 0);
    assert_eq!(element_count(0, 48), 0);
    assert_eq!(element_count(16, 8), 2);
}

#[test]
fn every_counted_element_lies_within_the_buffer() {
    for length in 0usize..400 {
        for stride in 40usize..64 {
            let count = element_count(length, stride);
            assert!(count * stride <= length);
            for index in 0..count {
                assert!(index * stride + 40 <= length);
            }
        }
    }
}
