//! Bounds-checked copies out of host-owned buffers.
//!
//! The host owns four buffers that a contract can copy from: the call data,
//! the running code, the code of another account, and the return data of the
//! last call.  For each of them there is an unchecked path, which lays out a
//! copy for whatever range it is given, a checked path, which first holds the
//! range against the size the host reported for the buffer, and a way to ask
//! for the whole buffer.
//!
//! A copy is laid out as a [`CopyRequest`]: the offset and length that the
//! host receives, and the size of the buffer that is allocated for the host
//! to write into.

use vstd::prelude::*;
use crate::outcome::Error;
use crate::types::Address;
use crate::width::{host_size, to_host_size};

verus! {

/// The host-owned buffer a copy reads from.
#[derive(Debug, Clone, Copy, PartialEq, Eq)]
pub enum CopySource {
    /// The data passed with the executing call.
    CallData,
    /// The code that is executing.
    Code,
    /// The code of the account at the given address.
    ExternalCode(Address),
    /// The data returned by the last call.
    ReturnData,
}

/// One copy out of a host-owned buffer, as it is handed to the host.
#[derive(Debug, Clone, Copy, PartialEq, Eq)]
pub struct CopyRequest {
    /// The buffer that is read.
    pub source: CopySource,
    /// Where in the source the copy starts.
    pub offset: u32,
    /// How many bytes the host writes.
    pub length: u32,
    /// The size of the buffer that receives them.
    pub capacity: usize,
}

impl CopyRequest {
    /// The host writes no byte past the end of the receiving buffer.
    pub open spec fn fits_buffer(self) -> bool {
        self.length <= self.capacity
    }

    /// The host writes every byte of the receiving buffer, so none of it is
    /// left as it was allocated.
    pub open spec fn fills_buffer(self) -> bool {
        self.length == self.capacity
    }

    /// The bytes asked for all lie inside a source of `size` bytes.
    pub open spec fn within(self, size: u32) -> bool {
        self.offset + self.length <= size
    }
}

/// The copy that the unchecked path lays out for a range: the receiving
/// buffer holds `length` bytes, and offset and length reach the host as
/// 32-bit quantities.
pub open spec fn unchecked_request(source: CopySource, from: usize, length: usize) -> CopyRequest {
    CopyRequest { source, offset: host_size(from), length: host_size(length), capacity: length }
}

/// The range of `length` bytes starting at `from` lies inside a source of
/// `size` bytes.
pub open spec fn in_bounds(size: u32, from: usize, length: usize) -> bool {
    from + length <= size
}

/// What the checked path answers for a range, given the size the host
/// reported for the source.
pub open spec fn checked_request(
    source: CopySource,
    size: u32,
    from: usize,
    length: usize,
) -> Result<CopyRequest, Error> {
    if in_bounds(size, from, length) {
        Ok(unchecked_request(source, from, length))
    } else {
        Err(Error::OutOfBoundsCopy)
    }
}

/// The copy of a whole source of `size` bytes.
pub open spec fn whole_request(source: CopySource, size: u32) -> CopyRequest {
    CopyRequest { source, offset: 0, length: size, capacity: size as usize }
}

/// The unchecked path, shared by the four sources.
fn unchecked_copy(source: CopySource, from: usize, length: usize) -> (request: CopyRequest)
    ensures
        request == unchecked_request(source, from, length),
        request.fits_buffer(),
        length <= u32::MAX ==> request.fills_buffer(),
{
    CopyRequest {
        source,
        offset: to_host_size(from),
        length: to_host_size(length),
        capacity: length,
    }
}

/// The checked path, shared by the four sources.  The comparison is made so
/// that neither side of it can wrap.
fn checked_copy(source: CopySource, size: u32, from: usize, length: usize) -> (res: Result<
    CopyRequest,
    Error,
>)
    ensures
        res == checked_request(source, size, from, length),
{
    let size: usize = size as usize;
    if size < from || size - from < length {
        Err(Error::OutOfBoundsCopy)
    } else {
        Ok(unchecked_copy(source, from, length))
    }
}

/// The copy of a whole source, shared by the four sources.
fn acquire_all(source: CopySource, size: u32) -> (request: CopyRequest)
    ensures
        request == whole_request(source, size),
{
    unchecked_copy(source, 0, size as usize)
}

/// Lays out a copy of call data without holding the range against anything.
///
/// The receiving buffer holds `length` bytes.  Offset and length reach the
/// host as their low 32 bits, so the host is never asked to write more than
/// the buffer holds, and it is asked to write all of it when `length` fits in
/// 32 bits.  Whether the range lies inside the source is left to the host.
pub fn unsafe_calldata_copy(from: usize, length: usize) -> (request: CopyRequest)
    ensures
        request == unchecked_request(CopySource::CallData, from, length),
        request.fits_buffer(),
        length <= u32::MAX ==> request.fills_buffer(),
{
    unchecked_copy(CopySource::CallData, from, length)
}

/// Lays out the copy of all the call data, `size` being the length the host
/// reported for it.
///
/// This is the checked copy of `size` bytes from the start, which is always
/// accepted.
pub fn calldata_acquire(size: u32) -> (request: CopyRequest)
    ensures
        request == whole_request(CopySource::CallData, size),
        request.offset == 0 && request.length == size && request.fills_buffer(),
        checked_request(CopySource::CallData, size, 0, size as usize) matches Ok(accepted)
            && accepted == request,
{
    acquire_all(CopySource::CallData, size)
}

/// Lays out the copy of `length` bytes of call data starting at `from`, or
/// refuses it, `size` being the length the host reported for the source.
///
/// The range is accepted exactly when it ends at or before `size`.  An
/// accepted range is laid out as the unchecked path would lay it out, and it
/// reaches the host as it was given: nothing of offset or length is cut off,
/// and the receiving buffer holds exactly the bytes the host writes.
pub fn calldata_copy(size: u32, from: usize, length: usize) -> (res: Result<
    CopyRequest,
    Error,
>)
    ensures
        res == checked_request(CopySource::CallData, size, from, length),
        from + length <= size ==> (res matches Ok(request) && request == unchecked_request(
            CopySource::CallData,
            from,
            length,
        )),
        from > size || length > size - from ==> res matches Err(Error::OutOfBoundsCopy),
        res matches Ok(request) ==> request.offset == from && request.length == length
            && request.capacity == length,
{
    checked_copy(CopySource::CallData, size, from, length)
}

/// Lays out a copy of the running code without holding the range against
/// anything.
///
/// The receiving buffer holds `length` bytes.  Offset and length reach the
/// host as their low 32 bits, so the host is never asked to write more than
/// the buffer holds, and it is asked to write all of it when `length` fits in
/// 32 bits.  Whether the range lies inside the source is left to the host.
pub fn unsafe_code_copy(from: usize, length: usize) -> (request: CopyRequest)
    ensures
        request == unchecked_request(CopySource::Code, from, length),
        request.fits_buffer(),
        length <= u32::MAX ==> request.fills_buffer(),
{
    unchecked_copy(CopySource::Code, from, length)
}

/// Lays out the copy of all the running code, `size` being the length the
/// host reported for it.
///
/// This is the checked copy of `size` bytes from the start, which is always
/// accepted.
pub fn code_acquire(size: u32) -> (request: CopyRequest)
    ensures
        request == whole_request(CopySource::Code, size),
        request.offset == 0 && request.length == size && request.fills_buffer(),
        checked_request(CopySource::Code, size, 0, size as usize) matches Ok(accepted)
            && accepted == request,
{
    acquire_all(CopySource::Code, size)
}

/// Lays out the copy of `length` bytes of the running code starting at
/// `from`, or refuses it, `size` being the length the host reported for the
/// source.
///
/// The range is accepted exactly when it ends at or before `size`.  An
/// accepted range is laid out as the unchecked path would lay it out, and it
/// reaches the host as it was given: nothing of offset or length is cut off,
/// and the receiving buffer holds exactly the bytes the host writes.
pub fn code_copy(size: u32, from: usize, length: usize) -> (res: Result<
    CopyRequest,
    Error,
>)
    ensures
        res == checked_request(CopySource::Code, size, from, length),
        from + length <= size ==> (res matches Ok(request) && request == unchecked_request(
            CopySource::Code,
            from,
            length,
        )),
        from > size || length > size - from ==> res matches Err(Error::OutOfBoundsCopy),
        res matches Ok(request) ==> request.offset == from && request.length == length
            && request.capacity == length,
{
    checked_copy(CopySource::Code, size, from, length)
}

/// Lays out a copy of the code at `address` without holding the range
/// against anything.
///
/// The receiving buffer holds `length` bytes.  Offset and length reach the
/// host as their low 32 bits, so the host is never asked to write more than
/// the buffer holds, and it is asked to write all of it when `length` fits in
/// 32 bits.  Whether the range lies inside the source is left to the host.
pub fn unsafe_external_code_copy(address: &Address, from: usize, length: usize) -> (request:
    CopyRequest)
    ensures
        request == unchecked_request(CopySource::ExternalCode(*address), from, length),
        request.fits_buffer(),
        length <= u32::MAX ==> request.fills_buffer(),
{
    unchecked_copy(CopySource::ExternalCode(*address), from, length)
}

/// Lays out the copy of all the code at `address`, `size` being the length
/// the host reported for it.
///
/// This is the checked copy of `size` bytes from the start, which is always
/// accepted.
pub fn external_code_acquire(address: &Address, size: u32) -> (request: CopyRequest)
    ensures
        request == whole_request(CopySource::ExternalCode(*address), size),
        request.offset == 0 && request.length == size && request.fills_buffer(),
        checked_request(
            CopySource::ExternalCode(*address),
            size,
            0,
            size as usize,
        ) matches Ok(accepted) && accepted == request,
{
    acquire_all(CopySource::ExternalCode(*address), size)
}

/// Lays out the copy of `length` bytes of the code at `address` starting at
/// `from`, or refuses it, `size` being the length the host reported for the
/// source.
///
/// The range is accepted exactly when it ends at or before `size`.  An
/// accepted range is laid out as the unchecked path would lay it out, and it
/// reaches the host as it was given: nothing of offset or length is cut off,
/// and the receiving buffer holds exactly the bytes the host writes.
pub fn external_code_copy(address: &Address, size: u32, from: usize, length: usize) -> (res: Result<
    CopyRequest,
    Error,
>)
    ensures
        res == checked_request(CopySource::ExternalCode(*address), size, from, length),
        from + length <= size ==> (res matches Ok(request) && request == unchecked_request(
            CopySource::ExternalCode(*address),
            from,
            length,
        )),
        from > size || length > size - from ==> res matches Err(Error::OutOfBoundsCopy),
        res matches Ok(request) ==> request.offset == from && request.length == length
            && request.capacity == length,
{
    checked_copy(CopySource::ExternalCode(*address), size, from, length)
}

/// Lays out a copy of return data without holding the range against
/// anything.
///
/// The receiving buffer holds `length` bytes.  Offset and length reach the
/// host as their low 32 bits, so the host is never asked to write more than
/// the buffer holds, and it is asked to write all of it when `length` fits in
/// 32 bits.  Whether the range lies inside the source is left to the host.
pub fn unsafe_returndata_copy(from: usize, length: usize) -> (request: CopyRequest)
    ensures
        request == unchecked_request(CopySource::ReturnData, from, length),
        request.fits_buffer(),
        length <= u32::MAX ==> request.fills_buffer(),
{
    unchecked_copy(CopySource::ReturnData, from, length)
}

/// Lays out the copy of all the return data, `size` being the length the
/// host reported for it.
///
/// This is the checked copy of `size` bytes from the start, which is always
/// accepted.
pub fn returndata_acquire(size: u32) -> (request: CopyRequest)
    ensures
        request == whole_request(CopySource::ReturnData, size),
        request.offset == 0 && request.length == size && request.fills_buffer(),
        checked_request(CopySource::ReturnData, size, 0, size as usize) matches Ok(accepted)
            && accepted == request,
{
    acquire_all(CopySource::ReturnData, size)
}

/// Lays out the copy of `length` bytes of return data starting at `from`, or
/// refuses it, `size` being the length the host reported for the source.
///
/// The range is accepted exactly when it ends at or before `size`.  An
/// accepted range is laid out as the unchecked path would lay it out, and it
/// reaches the host as it was given: nothing of offset or length is cut off,
/// and the receiving buffer holds exactly the bytes the host writes.
pub fn returndata_copy(size: u32, from: usize, length: usize) -> (res: Result<
    CopyRequest,
    Error,
>)
    ensures
        res == checked_request(CopySource::ReturnData, size, from, length),
        from + length <= size ==> (res matches Ok(request) && request == unchecked_request(
            CopySource::ReturnData,
            from,
            length,
        )),
        from > size || length > size - from ==> res matches Err(Error::OutOfBoundsCopy),
        res matches Ok(request) ==> request.offset == from && request.length == length
            && request.capacity == length,
{
    checked_copy(CopySource::ReturnData, size, from, length)
}

/// A range that ends inside the source is accepted, and the checked path
/// then lays out the very copy that the unchecked path lays out for it.
pub proof fn lemma_checked_agrees_with_unchecked(
    source: CopySource,
    size: u32,
    from: usize,
    length: usize,
)
    requires
        from + length <= size,
    ensures
        checked_request(source, size, from, length) matches Ok(request) && request
            == unchecked_request(source, from, length),
{
}

/// A range that starts past the end of the source, or that is longer than
/// what is left from its start, is refused.
pub proof fn lemma_out_of_bounds_is_refused(
    source: CopySource,
    size: u32,
    from: usize,
    length: usize,
)
    requires
        from > size || length > size - from,
    ensures
        checked_request(source, size, from, length) matches Err(Error::OutOfBoundsCopy),
{
}

/// Nothing wraps around: one byte at the very end of the source is refused,
/// and so is any range whose start and length add up past the largest size.
pub proof fn lemma_no_range_wraps(source: CopySource, size: u32, from: usize, length: usize)
    ensures
        checked_request(source, size, size as usize, 1) is Err,
        from + length > usize::MAX ==> checked_request(source, size, from, length) is Err,
{
}

/// An accepted range reaches the host exactly as it was given: offset and
/// length lose no bits, the bytes asked for lie inside the source, and the
/// receiving buffer holds exactly the bytes the host writes.
pub proof fn lemma_accepted_range_is_exact(
    source: CopySource,
    size: u32,
    from: usize,
    length: usize,
)
    requires
        checked_request(source, size, from, length) is Ok,
    ensures
        ({
            let request = checked_request(source, size, from, length)->Ok_0;
            &&& request.source == source
            &&& request.offset == from
            &&& request.length == length
            &&& request.within(size)
            &&& request.fills_buffer()
        }),
{
}

/// Asking for a whole source always succeeds, and asks for exactly as many
/// bytes as the source holds, starting at its first.
pub proof fn lemma_whole_source_is_accepted(source: CopySource, size: u32)
    ensures
        checked_request(source, size, 0, size as usize) matches Ok(request) && request
            == whole_request(source, size),
        whole_request(source, size).offset == 0,
        whole_request(source, size).length == size,
        whole_request(source, size).fills_buffer(),
{
}

/// An empty range is accepted wherever it starts inside the source or at
/// its very end, and asks the host for no byte.
pub proof fn lemma_empty_range_is_accepted(source: CopySource, size: u32, from: usize)
    requires
        from <= size,
    ensures
        checked_request(source, size, from, 0) matches Ok(request) && request.length == 0
            && request.capacity == 0,
{
}

/// Whatever the range, the unchecked path never asks the host to write more
/// than the receiving buffer holds, and where the length fits in 32 bits it
/// asks the host to write all of it.
pub proof fn lemma_unchecked_fits_buffer(source: CopySource, from: usize, length: usize)
    ensures
        unchecked_request(source, from, length).fits_buffer(),
        length <= u32::MAX ==> unchecked_request(source, from, length).fills_buffer(),
{
}

} // verus!
