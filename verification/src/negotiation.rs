//! The two-call protocol by which variable-length results are fetched.
//!
//! A first call with no room asks how much is needed. Only the answer "buffer too
//! small" leads to an allocation and a second call; every other answer ends the
//! exchange at once. The second call is final: a second "buffer too small" is a
//! failure like any other.

use crate::types::Status;
use vstd::prelude::*;

verus! {

/// What follows the size query.
#[derive(Clone, Copy, Debug, PartialEq, Eq, Structural)]
pub enum Plan {
    /// The firmware reported success with nothing to fetch: no buffer is allocated.
    Empty,
    /// The exchange ends with this error: no buffer is allocated.
    Fail(Status),
    /// A buffer of this many bytes is to be allocated and the call made again.
    Allocate(usize),
}

/// The plan that the answer to a size query calls for. `reported` is the size the
/// firmware asked for; `headroom` elements of `element_size` bytes each are added
/// to it, for data that may grow between the two calls.
pub open spec fn spec_plan(
    status: Status,
    reported: usize,
    element_size: usize,
    headroom: usize,
) -> Plan {
    if status == Status::BufferTooSmall {
        if reported + element_size * headroom <= usize::MAX {
            Plan::Allocate((reported + element_size * headroom) as usize)
        } else {
            Plan::Fail(Status::BadBufferSize)
        }
    } else if status.is_error() {
        Plan::Fail(status)
    } else {
        Plan::Empty
    }
}

/// Decides what follows the size query.
///
/// A size that does not fit the address space is answered with `BadBufferSize`.
pub fn plan(status: Status, reported: usize, element_size: usize, headroom: usize) -> (r: Plan)
    ensures
        r == spec_plan(status, reported, element_size, headroom),
{
    match status {
        Status::BufferTooSmall => {
            match element_size.checked_mul(headroom) {
                Some(extra) => match reported.checked_add(extra) {
                    Some(capacity) => Plan::Allocate(capacity),
                    None => Plan::Fail(Status::BadBufferSize),
                },
                None => {
                    assert(reported + element_size * headroom > usize::MAX);
                    Plan::Fail(Status::BadBufferSize)
                },
            }
        },
        _ => match status.as_result() {
            Ok(_) => Plan::Empty,
            Err(e) => Plan::Fail(e),
        },
    }
}

/// How many bytes the second call delivered into a buffer of `capacity` bytes, or
/// the error it ended with. A size beyond the buffer is `BadBufferSize`.
pub open spec fn spec_delivered(status: Status, size: usize, capacity: usize) -> Result<
    usize,
    Status,
> {
    if status.is_error() {
        Err(status)
    } else if size > capacity {
        Err(Status::BadBufferSize)
    } else {
        Ok(size)
    }
}

/// Judges the answer to the second call.
pub fn delivered(status: Status, size: usize, capacity: usize) -> (r: Result<usize, Status>)
    ensures
        r == spec_delivered(status, size, capacity),
{
    match status.as_result() {
        Err(e) => Err(e),
        Ok(_) => if size > capacity {
            Err(Status::BadBufferSize)
        } else {
            Ok(size)
        },
    }
}

/// How many elements of `stride` bytes fit in `length` bytes.
pub open spec fn spec_element_count(length: usize, stride: usize) -> usize {
    (length as int / stride as int) as usize
}

/// Counts the elements in a buffer. The stride is the firmware's, and may exceed
/// the size of the element as this library knows it.
pub fn element_count(length: usize, stride: usize) -> (r: usize)
    requires
        stride > 0,
    ensures
        r == spec_element_count(length, stride),
        r * stride <= length,
        length < (r + 1) * stride,
{
    let count = length / stride;
    proof {
        lemma_count_bounds(length as int, stride as int);
    }
    count
}

/// The quotient's elements fit, and one more would not.
pub proof fn lemma_count_bounds(length: int, stride: int)
    requires
        0 <= length,
        0 < stride,
    ensures
        0 <= length / stride <= length,
        (length / stride) * stride <= length,
        length < (length / stride + 1) * stride,
{
    vstd::arithmetic::div_mod::lemma_fundamental_div_mod(length, stride);
    vstd::arithmetic::div_mod::lemma_div_pos_is_pos(length, stride);
    vstd::arithmetic::div_mod::lemma_mod_bound(length, stride);
    assert((length / stride) * stride == stride * (length / stride)) by (nonlinear_arith);
    assert((length / stride + 1) * stride == (length / stride) * stride + stride)
        by (nonlinear_arith);
    assert(length / stride <= length) by (nonlinear_arith)
        requires
            0 <= length / stride,
            (length / stride) * stride <= length,
            0 < stride,
    ;
}

/// Every element counted lies within the buffer: for an index below the count,
/// the element's bytes, `element_size` of them from `index * stride`, end at or
/// before `length`.
pub proof fn lemma_element_in_bounds(
    length: usize,
    stride: usize,
    element_size: usize,
    index: usize,
)
    requires
        0 < element_size <= stride,
        index < spec_element_count(length, stride),
    ensures
        index * stride + element_size <= length,
        spec_element_count(length, stride) * stride <= length,
{
    lemma_count_bounds(length as int, stride as int);
    let count = length as int / stride as int;
    assert(index * stride + stride <= count * stride) by (nonlinear_arith)
        requires
            index + 1 <= count,
            0 < stride,
    ;
}

/// Unless the size query answers "buffer too small", nothing is allocated: the
/// plan is to stop, with the error unchanged or with nothing to fetch.
pub proof fn lemma_no_allocation_unless_too_small(
    status: Status,
    reported: usize,
    element_size: usize,
    headroom: usize,
)
    requires
        status != Status::BufferTooSmall,
    ensures
        !(spec_plan(status, reported, element_size, headroom) is Allocate),
        status.is_error() ==> spec_plan(status, reported, element_size, headroom) == Plan::Fail(
            status,
        ),
        !status.is_error() ==> spec_plan(status, reported, element_size, headroom)
            == Plan::Empty,
{
}

/// A second "buffer too small" ends the exchange: the second call is never
/// followed by a third.
pub proof fn lemma_second_too_small_fails(size: usize, capacity: usize)
    ensures
        spec_delivered(Status::BufferTooSmall, size, capacity) == Err::<usize, Status>(
            Status::BufferTooSmall,
        ),
{
    assert(0x8000_0000_0000_0005u64 & 0x8000_0000_0000_0000u64 != 0) by (bit_vector);
}

} // verus!
